use crate::naming::PythonNamingStyle;
use vstd::prelude::*;

verus! {

/// Knobs of Python code generation.
#[derive(Clone, Debug)]
pub struct Config {
    /// Name of the function that loads the native library, e.g. `init_api`.
    pub init_api_function_name: String,
    /// Attribute by which the `cffi` object is exposed, e.g. `ffi`.
    pub ffi_attribute: String,
    /// Namespace that raw functions go into, e.g. `api`.
    pub raw_fn_namespace: String,
    /// Namespace of callback helpers, e.g. `callbacks`.
    pub callback_namespace: String,
    /// How enum variant names are written.
    pub enum_variant_naming: PythonNamingStyle,
}

impl Default for Config {
    fn default() -> (r: Self)
        ensures
            r.init_api_function_name@ == "init_api"@,
            r.ffi_attribute@ == "ffi"@,
            r.raw_fn_namespace@ == "api"@,
            r.callback_namespace@ == "callbacks"@,
            r.enum_variant_naming == PythonNamingStyle::AsIs,
    {
        Config {
            init_api_function_name: String::from_str("init_api"),
            ffi_attribute: String::from_str("ffi"),
            raw_fn_namespace: String::from_str("api"),
            callback_namespace: String::from_str("callbacks"),
            enum_variant_naming: PythonNamingStyle::AsIs,
        }
    }
}

/// Knobs of Python documentation generation.
#[derive(Clone, Debug)]
pub struct DocConfig {
    /// Fixed text that opens the generated documentation.
    pub header: String,
}

impl Default for DocConfig {
    fn default() -> (r: Self)
        ensures
            r.header@.len() == 0,
    {
        DocConfig { header: String::new() }
    }
}

} // verus!
