use vstd::prelude::*;

verus! {

/// Failure of a method of [`SimpleClass`].
#[derive(Clone, Copy, Debug, PartialEq, Eq, Structural)]
pub enum Error {
    Bad,
}

/// Status code returned across the call boundary; `Success` is the success
/// sentinel.
#[derive(Clone, Copy, Debug, PartialEq, Eq, Structural)]
pub enum FFIError {
    Success,
    Fail,
}

impl From<Result<(), Error>> for FFIError {
    fn from(x: Result<(), Error>) -> (r: Self) {
        match x {
            Ok(_) => FFIError::Success,
            Err(Error::Bad) => FFIError::Fail,
        }
    }
}

impl vstd::std_specs::convert::FromSpecImpl<Result<(), Error>> for FFIError {
    open spec fn obeys_from_spec() -> bool {
        true
    }

    open spec fn from_spec(x: Result<(), Error>) -> FFIError {
        match x {
            Ok(_) => FFIError::Success,
            Err(_) => FFIError::Fail,
        }
    }
}

/// An object exposed to other languages through an opaque handle.
#[derive(Default)]
pub struct SimpleClass {
    pub some_value: u32,
}

impl SimpleClass {
    /// A fallible method that always succeeds.
    pub fn method_result(&self, _x: u32) -> (r: Result<(), Error>)
        ensures
            r is Ok,
    {
        Ok(())
    }

    /// Hands its argument back.
    pub fn method_value(&self, x: u32) -> (r: u32)
        ensures
            r == x,
    {
        x
    }

    /// Hands its argument back, through a mutable receiver that it leaves
    /// unchanged.
    pub fn method_mut_self(&mut self, x: u32) -> (r: u32)
        ensures
            r == x,
            final(self).some_value == old(self).some_value,
    {
        x
    }
}

} // verus!
