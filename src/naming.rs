use heck::{ToLowerCamelCase, ToShoutySnakeCase, ToSnakeCase, ToUpperCamelCase};
use vstd::prelude::*;

verus! {

/// Casing convention applied to identifiers in generated code.
#[derive(Clone, Copy, Debug, PartialEq, Eq, Structural)]
pub enum PythonNamingStyle {
    /// Names are kept exactly as written.
    AsIs,
    /// Names all in lowercase without spacing, e.g. `thetypename`.
    Lowercase,
    /// Names all in uppercase without spacing, e.g. `THETYPENAME`.
    Uppercase,
    /// Mixed case starting with lowercase, e.g. `theTypeName`.
    LowerCamelCase,
    /// Mixed case starting with uppercase, e.g. `TheTypeName`.
    UpperCamelCase,
    /// Lower case with `_` between words, e.g. `the_type_name`.
    SnakeCase,
    /// Upper case with `_` between words, e.g. `THE_TYPE_NAME`.
    ShoutySnakeCase,
}

/// What `str::to_lowercase` returns for a string.
pub uninterp spec fn lowercase_of(s: Seq<char>) -> Seq<char>;

/// What `str::to_uppercase` returns for a string.
pub uninterp spec fn uppercase_of(s: Seq<char>) -> Seq<char>;

/// What heck's `to_lower_camel_case` returns for a string.
pub uninterp spec fn lower_camel_of(s: Seq<char>) -> Seq<char>;

/// What heck's `to_upper_camel_case` returns for a string.
pub uninterp spec fn upper_camel_of(s: Seq<char>) -> Seq<char>;

/// What heck's `to_snake_case` returns for a string.
pub uninterp spec fn snake_of(s: Seq<char>) -> Seq<char>;

/// What heck's `to_shouty_snake_case` returns for a string.
pub uninterp spec fn shouty_snake_of(s: Seq<char>) -> Seq<char>;

/// The identifier `s` written in `style`.
pub open spec fn render(s: Seq<char>, style: PythonNamingStyle) -> Seq<char> {
    match style {
        PythonNamingStyle::AsIs => s,
        PythonNamingStyle::Lowercase => lowercase_of(s),
        PythonNamingStyle::Uppercase => uppercase_of(s),
        PythonNamingStyle::LowerCamelCase => lower_camel_of(s),
        PythonNamingStyle::UpperCamelCase => upper_camel_of(s),
        PythonNamingStyle::SnakeCase => snake_of(s),
        PythonNamingStyle::ShoutySnakeCase => shouty_snake_of(s),
    }
}

/// Relies on `str::to_lowercase`: the result depends on the characters alone,
/// and an empty string maps to an empty string.
#[verifier::external_body]
fn lowercase(s: &str) -> (r: String)
    ensures
        r@ == lowercase_of(s@),
        s@.len() == 0 ==> r@.len() == 0,
{
    s.to_lowercase()
}

/// Relies on `str::to_uppercase`: the result depends on the characters alone,
/// and an empty string maps to an empty string.
#[verifier::external_body]
fn uppercase(s: &str) -> (r: String)
    ensures
        r@ == uppercase_of(s@),
        s@.len() == 0 ==> r@.len() == 0,
{
    s.to_uppercase()
}

/// Relies on heck's `ToLowerCamelCase::to_lower_camel_case`: the result
/// depends on the characters alone; a string without words gives nothing.
#[verifier::external_body]
fn lower_camel(s: &str) -> (r: String)
    ensures
        r@ == lower_camel_of(s@),
        s@.len() == 0 ==> r@.len() == 0,
{
    s.to_lower_camel_case()
}

/// Relies on heck's `ToUpperCamelCase::to_upper_camel_case`: the result
/// depends on the characters alone; a string without words gives nothing.
#[verifier::external_body]
fn upper_camel(s: &str) -> (r: String)
    ensures
        r@ == upper_camel_of(s@),
        s@.len() == 0 ==> r@.len() == 0,
{
    s.to_upper_camel_case()
}

/// Relies on heck's `ToSnakeCase::to_snake_case`: the result depends on the
/// characters alone; a string without words gives nothing.
#[verifier::external_body]
fn snake(s: &str) -> (r: String)
    ensures
        r@ == snake_of(s@),
        s@.len() == 0 ==> r@.len() == 0,
{
    s.to_snake_case()
}

/// Relies on heck's `ToShoutySnakeCase::to_shouty_snake_case`: the result
/// depends on the characters alone; a string without words gives nothing.
#[verifier::external_body]
fn shouty_snake(s: &str) -> (r: String)
    ensures
        r@ == shouty_snake_of(s@),
        s@.len() == 0 ==> r@.len() == 0,
{
    s.to_shouty_snake_case()
}

/// Writes the identifier `s` in the casing convention `style`.
pub fn to_naming_style(s: &str, style: &PythonNamingStyle) -> (r: String)
    ensures
        r@ == render(s@, *style),
        s@.len() == 0 ==> r@.len() == 0,
{
    match style {
        PythonNamingStyle::AsIs => String::from_str(s),
        PythonNamingStyle::Lowercase => lowercase(s),
        PythonNamingStyle::Uppercase => uppercase(s),
        PythonNamingStyle::LowerCamelCase => lower_camel(s),
        PythonNamingStyle::UpperCamelCase => upper_camel(s),
        PythonNamingStyle::SnakeCase => snake(s),
        PythonNamingStyle::ShoutySnakeCase => shouty_snake(s),
    }
}

/// The as-is convention leaves every identifier unchanged.
pub proof fn lemma_as_is_is_identity(s: Seq<char>)
    ensures
        render(s, PythonNamingStyle::AsIs) == s,
{
}

/// Applying the as-is convention twice gives what applying it once gives.
pub proof fn lemma_as_is_is_idempotent(s: Seq<char>)
    ensures
        render(render(s, PythonNamingStyle::AsIs), PythonNamingStyle::AsIs)
            == render(s, PythonNamingStyle::AsIs),
{
}

} // verus!
