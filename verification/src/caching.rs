//! Which results are cached, and how a cached value is given back.

use vstd::prelude::*;
use vstd::string::*;

verus! {

/// Which results of a function are cached.
#[derive(Debug, Clone, Copy, PartialEq, Eq, Structural)]
pub enum Caching {
    /// Every result.
    All,
    /// Of a `Result`, what `Ok` holds.
    OkOnly,
    /// Of an `Option`, what `Some` holds.
    SomeOnly,
}

/// Which results are cached under the `result` and `option` arguments, of which
/// not both are set.
pub open spec fn caching_of(result: bool, option: bool) -> Caching {
    if result {
        Caching::OkOnly
    } else if option {
        Caching::SomeOnly
    } else {
        Caching::All
    }
}

/// Decides which results are cached.
pub fn choose_caching(result: bool, option: bool) -> (r: Caching)
    ensures
        r == caching_of(result, option),
{
    if result {
        Caching::OkOnly
    } else if option {
        Caching::SomeOnly
    } else {
        Caching::All
    }
}

/// The function's result that holds the value `value`.
pub open spec fn wrapped(caching: Caching, value: Seq<char>) -> Seq<char> {
    match caching {
        Caching::All => value,
        Caching::OkOnly => "Ok("@ + value + ")"@,
        Caching::SomeOnly => "Some("@ + value + ")"@,
    }
}

/// Wraps a value as the function's result.
fn wrap(caching: Caching, value: &str) -> (r: String)
    ensures
        r@ == wrapped(caching, value@),
{
    match caching {
        Caching::All => value.to_owned(),
        Caching::OkOnly => "Ok(".to_owned().concat(value).concat(")"),
        Caching::SomeOnly => "Some(".to_owned().concat(value).concat(")"),
    }
}

/// Gives the cached `result` back, with its flag set where that is asked for.
pub open spec fn return_block(caching: Caching, with_cached_flag: bool) -> Seq<char> {
    if with_cached_flag {
        "let mut r = result.clone(); r.was_cached = true; return "@ + wrapped(caching, "r"@)
    } else {
        "return "@ + wrapped(caching, "result.clone()"@)
    }
}

/// Writes how the cached `result` is given back.
pub fn write_return(caching: Caching, with_cached_flag: bool) -> (r: String)
    ensures
        r@ == return_block(caching, with_cached_flag),
{
    if with_cached_flag {
        "let mut r = result.clone(); r.was_cached = true; return ".to_owned().concat(
            wrap(caching, "r").as_str(),
        )
    } else {
        "return ".to_owned().concat(wrap(caching, "result.clone()").as_str())
    }
}

/// Does `write` with the value of the `result` that is to be cached, if it is.
pub open spec fn set_block(caching: Caching, write: Seq<char>) -> Seq<char> {
    match caching {
        Caching::All => write,
        Caching::OkOnly => "if let Ok(result) = &result { "@ + write + " }"@,
        Caching::SomeOnly => "if let Some(result) = &result { "@ + write + " }"@,
    }
}

/// Writes how the result is cached.
pub fn write_set(caching: Caching, write: &str) -> (r: String)
    ensures
        r@ == set_block(caching, write@),
{
    match caching {
        Caching::All => write.to_owned(),
        Caching::OkOnly => "if let Ok(result) = &result { ".to_owned().concat(write).concat(" }"),
        Caching::SomeOnly => "if let Some(result) = &result { ".to_owned().concat(write).concat(
            " }",
        ),
    }
}

} // verus!
