//! Why an attribute cannot be expanded, and how that is reported.

use vstd::prelude::*;
use vstd::string::*;

verus! {

/// What is wrong with an attribute or with the function it stands on.
#[derive(Debug, Clone, Copy, PartialEq, Eq, Structural)]
pub enum Reason {
    /// The item is not a function. The detail holds the tokens that report it.
    Syntax,
    /// The cached flag is asked for where the function returns no `Return`. The
    /// detail holds the tokens that report it.
    CachedFlag,
    /// The function takes `self`.
    Method,
    /// `result` and `option` are both set.
    ResultAndOption,
    /// `result` or `option` is set on a function without a return type.
    NoReturnType,
    /// The return type has nothing in angle brackets to take the value type from.
    NoInnerType,
    /// The return type is not a path.
    ReturnTypeTooComplex,
    /// The return type is no type. The detail holds the error, here and below.
    ReturnTypeSyntax,
    /// `key` is no type.
    KeySyntax,
    /// `convert` is no block.
    ConvertSyntax,
    /// `type` is no type.
    CacheTypeSyntax,
    /// `create` is no block.
    CreateSyntax,
    /// `cache_prefix_block` is no block.
    PrefixSyntax,
    /// `map_error` is no closure.
    MapErrorSyntax,
    /// A name is no identifier. The detail says which.
    Name,
    /// `key` is set without `convert`.
    KeyWithoutConvert,
    /// `convert` is set without `key` and without `type`.
    ConvertWithoutKey,
    /// `type` is set without `create`.
    TypeWithoutCreate,
    /// `create` is set without `type`.
    CreateWithoutType,
    /// More than one kind of store is asked for.
    StoreConflict,
    /// An IO-cached function has no return type. The detail holds what stands in
    /// its place.
    IoNoReturnType,
    /// An IO-cached function returns a path with nothing in angle brackets.
    IoNoResult,
    /// An IO-cached function returns no path.
    IoReturnTypeTooComplex,
    /// The value inside `Return` cannot be found. The detail holds the type.
    IoValueType,
    /// `create` is set beside what only the default construction takes.
    IoCreateConflict,
    /// A Redis store is to be made without a lifespan.
    IoRedisTime,
    /// The same of the asynchronous Redis store.
    IoAsyncRedisTime,
    /// No store type is given.
    IoNoType,
    /// No store construction is given.
    IoNoCreate,
}

/// A refused expansion.
#[derive(Debug, Clone, PartialEq, Eq)]
pub struct Rejection {
    pub reason: Reason,
    /// What the report says beside the reason; empty for most reasons.
    pub detail: String,
}

/// The view of a [`Rejection`].
pub struct RejectionView {
    pub reason: Reason,
    pub detail: Seq<char>,
}

impl View for Rejection {
    type V = RejectionView;

    open spec fn view(&self) -> RejectionView {
        RejectionView { reason: self.reason, detail: self.detail@ }
    }
}

/// The view of what may be refused.
pub open spec fn outcome<T: View>(r: Result<T, Rejection>) -> Result<T::V, RejectionView> {
    match r {
        Ok(x) => Ok(x@),
        Err(e) => Err(e@),
    }
}

/// The rejection for a reason that needs no detail.
pub open spec fn because(reason: Reason) -> RejectionView {
    RejectionView { reason, detail: Seq::empty() }
}

/// The rejection for a reason, with its detail.
pub open spec fn because_of(reason: Reason, detail: Seq<char>) -> RejectionView {
    RejectionView { reason, detail }
}

/// Refuses for a reason that needs no detail.
pub fn reject(reason: Reason) -> (r: Rejection)
    ensures
        r@ == because(reason),
{
    Rejection { reason, detail: String::new() }
}

/// Refuses for a reason, with its detail.
pub fn reject_with(reason: Reason, detail: String) -> (r: Rejection)
    ensures
        r@ == because_of(reason, detail@),
{
    Rejection { reason, detail }
}

/// The reason is reported by tokens in place of the function, not by a panic.
pub open spec fn reported_by_tokens(reason: Reason) -> bool {
    reason == Reason::Syntax || reason == Reason::CachedFlag
}

/// What a report says before the detail.
pub open spec fn headline(reason: Reason) -> Seq<char> {
    match reason {
        Reason::Syntax => ""@,
        Reason::CachedFlag => ""@,
        Reason::Method => "methods (functions taking 'self') are not supported"@,
        Reason::ResultAndOption => "the result and option attributes are mutually exclusive"@,
        Reason::NoReturnType => "function must return something for result or option attributes"@,
        Reason::NoInnerType => "function return type has no inner type"@,
        Reason::ReturnTypeTooComplex => "function return type too complex"@,
        Reason::ReturnTypeSyntax => "unable to parse return type: "@,
        Reason::KeySyntax => "unable to parse cache key type: "@,
        Reason::ConvertSyntax => "unable to parse key convert block: "@,
        Reason::CacheTypeSyntax => "unable to parse cache type: "@,
        Reason::CreateSyntax => "unable to parse cache create block: "@,
        Reason::PrefixSyntax => "unable to parse cache_prefix_block: "@,
        Reason::MapErrorSyntax => "unable to parse map_error block: "@,
        Reason::Name => ""@,
        Reason::KeyWithoutConvert => "key requires convert to be set"@,
        Reason::ConvertWithoutKey => "convert requires key or type to be set"@,
        Reason::TypeWithoutCreate => "type requires create to also be set"@,
        Reason::CreateWithoutType => "create requires type to also be set"@,
        Reason::StoreConflict =>
            "cache types (unbound, size and/or time, or type and create) are mutually exclusive"@,
        Reason::IoNoReturnType => "#[io_cached] functions must return `Result`s, found "@,
        Reason::IoNoResult => "#[io_cached] functions must return `Result`s"@,
        Reason::IoReturnTypeTooComplex =>
            "function return type too complex, #[io_cached] functions must return `Result`s"@,
        Reason::IoValueType => "#[io_cached] unable to determine cache value type, found "@,
        Reason::IoCreateConflict =>
            "cannot specify `time`, `time_refresh`, or `cache_prefix` when passing `create block"@,
        Reason::IoRedisTime => "RedisCache requires a `time` when `create` block is not specified"@,
        Reason::IoAsyncRedisTime =>
            "AsyncRedisCache requires a `time` when `create` block is not specified"@,
        Reason::IoNoType => "#[io_cached] cache `type` must be specified"@,
        Reason::IoNoCreate => "#[io_cached] cache `create` block must be specified"@,
    }
}

/// What a report says before the detail.
fn headline_text(reason: Reason) -> (r: &'static str)
    ensures
        r@ == headline(reason),
{
    match reason {
        Reason::Syntax => "",
        Reason::CachedFlag => "",
        Reason::Method => "methods (functions taking 'self') are not supported",
        Reason::ResultAndOption => "the result and option attributes are mutually exclusive",
        Reason::NoReturnType => "function must return something for result or option attributes",
        Reason::NoInnerType => "function return type has no inner type",
        Reason::ReturnTypeTooComplex => "function return type too complex",
        Reason::ReturnTypeSyntax => "unable to parse return type: ",
        Reason::KeySyntax => "unable to parse cache key type: ",
        Reason::ConvertSyntax => "unable to parse key convert block: ",
        Reason::CacheTypeSyntax => "unable to parse cache type: ",
        Reason::CreateSyntax => "unable to parse cache create block: ",
        Reason::PrefixSyntax => "unable to parse cache_prefix_block: ",
        Reason::MapErrorSyntax => "unable to parse map_error block: ",
        Reason::Name => "",
        Reason::KeyWithoutConvert => "key requires convert to be set",
        Reason::ConvertWithoutKey => "convert requires key or type to be set",
        Reason::TypeWithoutCreate => "type requires create to also be set",
        Reason::CreateWithoutType => "create requires type to also be set",
        Reason::StoreConflict => {
            "cache types (unbound, size and/or time, or type and create) are mutually exclusive"
        },
        Reason::IoNoReturnType => "#[io_cached] functions must return `Result`s, found ",
        Reason::IoNoResult => "#[io_cached] functions must return `Result`s",
        Reason::IoReturnTypeTooComplex => {
            "function return type too complex, #[io_cached] functions must return `Result`s"
        },
        Reason::IoValueType => "#[io_cached] unable to determine cache value type, found ",
        Reason::IoCreateConflict => {
            "cannot specify `time`, `time_refresh`, or `cache_prefix` when passing `create block"
        },
        Reason::IoRedisTime => "RedisCache requires a `time` when `create` block is not specified",
        Reason::IoAsyncRedisTime => {
            "AsyncRedisCache requires a `time` when `create` block is not specified"
        },
        Reason::IoNoType => "#[io_cached] cache `type` must be specified",
        Reason::IoNoCreate => "#[io_cached] cache `create` block must be specified",
    }
}

impl Rejection {
    /// Whether [`Rejection::message`] is a text of tokens to put in place of the
    /// function. Where it is not, it is what the expansion panics with.
    pub fn is_tokens(&self) -> (r: bool)
        ensures
            r == reported_by_tokens(self@.reason),
    {
        match self.reason {
            Reason::Syntax => true,
            Reason::CachedFlag => true,
            _ => false,
        }
    }

    /// The report.
    pub fn message(&self) -> (r: String)
        ensures
            r@ == headline(self@.reason) + self@.detail,
    {
        headline_text(self.reason).to_owned().concat(self.detail.as_str())
    }
}

} // verus!
