//! The `io_cached` attribute: a cache of results, behind a store that can fail.

use crate::args::IOMacroArgs;
use crate::caching::{set_block, write_set, Caching};
use crate::expansion::{
    call_text, expansion, make_names, names_of, write_call, write_expansion, Names, NamesView,
};
use crate::helpers::{
    cache_name, check_with_cache_flag, find_inner_type, has_receiver, inner_type, key_of,
    make_cache_ident, make_cache_key_type, make_prime_ident, mentions_return, names_return,
    output_display, output_display_text, prime_name, takes_self, Key, KeyView,
};
use crate::item::{parse_fn_item, read_item, FnItem, FnItemView, Output, OutputView};
use crate::keyed::{
    built_in_store, lock_text, locked_opening, locked_static, store_type, write_built_in_store,
    write_lock, write_locked_opening, write_locked_static, write_store_type, Store, StoreKind,
    StoreView,
};
use crate::outside::{
    block_of, closure_of, debug, debug_text, error_tokens, parse_block, parse_closure, parse_type,
    report_error, to_upper, type_of, upper,
};
use crate::rejection::{
    because, because_of, outcome, reject, reject_with, Reason, Rejection, RejectionView,
};
use crate::steps::{
    body_text, cached_steps, io_prime_steps, io_steps, lay_out_cached, lay_out_io,
    lay_out_io_prime, lay_out_prime, prime_steps, write_body, Step, StepTexts, StepTextsView,
};
use crate::syntax::{parsed, TypeText, TypeTextView};
use crate::text::{decimal, decimal_text, opt, truth, truth_text};
use vstd::prelude::*;
use vstd::string::*;

verus! {

// ---------------------------------------------------------------------------
// The value type
// ---------------------------------------------------------------------------
/// The message where the cached flag is asked for in vain.
pub open spec fn io_flag_message(display: Seq<char>) -> Seq<char> {
    "\nWhen specifying `with_cached_flag = true`, the return type must be wrapped in `cached::Return<T>`. \nThe following return types are supported: \n|    `Result<cached::Return<T>, E>`\nFound type: "@
        + display + "."@
}

/// The rejection where the cached flag is asked for in vain.
pub open spec fn io_flag_rejection(output: Option<OutputView>) -> RejectionView {
    because_of(Reason::CachedFlag, error_tokens(io_flag_message(output_display(output))))
}

/// Refuses the cached flag.
fn io_flag_error(output: &Option<Output>) -> (r: Rejection)
    ensures
        r@ == io_flag_rejection(opt(*output)),
{
    let message =
        "\nWhen specifying `with_cached_flag = true`, the return type must be wrapped in `cached::Return<T>`. \nThe following return types are supported: \n|    `Result<cached::Return<T>, E>`\nFound type: ".to_owned().concat(
        output_display_text(output).as_str()).concat(".");
    reject_with(Reason::CachedFlag, report_error(message.as_str()))
}

/// The value type inside `Return<..>`, where `ty` is what parsing the type inside
/// `Result<..>` gave: its inner type.
pub open spec fn returned_type(
    ty: Result<TypeTextView, Seq<char>>,
    output: Option<OutputView>,
) -> Result<Seq<char>, RejectionView> {
    match ty {
        Ok(TypeTextView { text, path: Some(path) }) => match inner_type(path) {
            Some(inner) => Ok(inner),
            None => Err(because_of(Reason::IoValueType, debug(output_display(output)))),
        },
        _ => Err(because_of(Reason::IoValueType, debug(output_display(output)))),
    }
}

/// The type of the cached values: the inner type of the return type, or where the
/// return type names `Return` anywhere outside brackets, the inner type of that.
pub open spec fn io_value_type(output: Option<OutputView>) -> Result<Seq<char>, RejectionView> {
    match output {
        None => Err(because_of(Reason::IoNoReturnType, debug(output_display(output)))),
        Some(o) => match o.path {
            None => Err(because(Reason::IoReturnTypeTooComplex)),
            Some(path) => match inner_type(path) {
                None => Err(because(Reason::IoNoResult)),
                Some(inner) => if names_return(output) {
                    returned_type(type_of(inner), output)
                } else {
                    Ok(inner)
                },
            },
        },
    }
}

/// Refuses a type that holds no value type.
fn no_value_type(output: &Option<Output>) -> (r: Rejection)
    ensures
        r@ == because_of(Reason::IoValueType, debug(output_display(opt(*output)))),
{
    reject_with(Reason::IoValueType, debug_text(output_display_text(output).as_str()))
}

/// Finds the value type inside `Return<..>`.
pub fn find_returned_type(ty: &Result<TypeText, String>, output: &Option<Output>) -> (r: Result<
    String,
    Rejection,
>)
    ensures
        outcome(r) == returned_type(parsed(*ty), opt(*output)),
{
    match ty {
        Err(_) => Err(no_value_type(output)),
        Ok(ty) => match &ty.path {
            None => Err(no_value_type(output)),
            Some(path) => match find_inner_type(path) {
                None => Err(no_value_type(output)),
                Some(inner) => Ok(inner),
            },
        },
    }
}

/// Finds the type of the cached values.
pub fn find_io_value_type(output: &Option<Output>) -> (r: Result<String, Rejection>)
    ensures
        outcome(r) == io_value_type(opt(*output)),
{
    match output {
        None => Err(
            reject_with(Reason::IoNoReturnType, debug_text(output_display_text(output).as_str())),
        ),
        Some(o) => match &o.path {
            None => Err(reject(Reason::IoReturnTypeTooComplex)),
            Some(path) => match find_inner_type(path) {
                None => Err(reject(Reason::IoNoResult)),
                Some(inner) => if mentions_return(output) {
                    find_returned_type(&parse_type(inner.as_str()), output)
                } else {
                    Ok(inner)
                },
            },
        },
    }
}

// ---------------------------------------------------------------------------
// The store
// ---------------------------------------------------------------------------
/// The store is one in memory: neither a type nor Redis is asked for, but a
/// lifespan is.
pub open spec fn in_memory(args: IOMacroArgs) -> bool {
    !args.redis && args.cache_type is None && args.time is Some
}

/// A timed store in memory.
pub open spec fn timed_store(
    time: u64,
    time_refresh: Option<bool>,
    key: Seq<char>,
    value: Seq<char>,
) -> StoreView {
    built_in_store(StoreKind::Timed { time, refresh: time_refresh == Some(true) }, key, value)
}

/// The type of the store: the one that is given, a Redis store, or one in memory
/// that is timed.
pub open spec fn io_store_type(
    args: IOMacroArgs,
    is_async: bool,
    key: Seq<char>,
    value: Seq<char>,
) -> Result<Seq<char>, RejectionView> {
    match opt(args.cache_type) {
        Some(text) => match type_of(text) {
            Err(e) => Err(because_of(Reason::CacheTypeSyntax, e)),
            Ok(ty) => Ok(ty.text),
        },
        None => if !args.redis {
            match args.time {
                Some(time) => Ok(timed_store(time, args.time_refresh, key, value).ty),
                None => Err(because(Reason::IoNoType)),
            }
        } else if is_async {
            Ok(store_type("cached::AsyncRedisCache"@, key, value))
        } else {
            Ok(store_type("cached::RedisCache"@, key, value))
        },
    }
}

/// The block that makes the prefix of the keys: the one that is given, or one
/// that holds the name of the function `ident` in upper case.
pub open spec fn prefix_source(prefix: Option<Seq<char>>, ident: Seq<char>) -> Seq<char> {
    match prefix {
        Some(text) => text,
        None => " { \"cached::proc_macro::io_cached::"@ + upper(ident) + "\" }"@,
    }
}

/// The construction of a Redis store with this prefix.
pub open spec fn redis_create(
    is_async: bool,
    prefix: Seq<char>,
    time: u64,
    time_refresh: Option<bool>,
) -> Seq<char> {
    (if is_async {
        "cached::AsyncRedisCache::new( "@
    } else {
        "cached::RedisCache::new( "@
    }) + prefix + " , "@ + decimal(time as nat) + "u64)"@ + (match time_refresh {
        Some(refresh) => ".set_refresh("@ + truth(refresh) + ")"@,
        None => ""@,
    }) + (if is_async {
        ".build().await.expect(\"error constructing AsyncRedisCache in #[io_cached] macro\")"@
    } else {
        ".build().expect(\"error constructing RedisCache in #[io_cached] macro\")"@
    })
}

/// The expression that makes the store of the function `ident`. A store in memory
/// has its keys for itself: a prefix must be a block there too, and does nothing.
pub open spec fn io_store_create(args: IOMacroArgs, is_async: bool, ident: Seq<char>) -> Result<
    Seq<char>,
    RejectionView,
> {
    match opt(args.cache_create) {
        Some(text) => if args.time is Some || args.time_refresh is Some
            || args.cache_prefix_block is Some {
            Err(because(Reason::IoCreateConflict))
        } else {
            match block_of(text) {
                Err(e) => Err(because_of(Reason::CreateSyntax, e)),
                Ok(block) => Ok(block),
            }
        },
        None => if !args.redis && !in_memory(args) {
            Err(because(Reason::IoNoCreate))
        } else {
            match args.time {
                None => Err(
                    because(
                        if is_async {
                            Reason::IoAsyncRedisTime
                        } else {
                            Reason::IoRedisTime
                        },
                    ),
                ),
                Some(time) => if !args.redis && args.cache_prefix_block is None {
                    Ok(timed_store(time, args.time_refresh, ""@, ""@).create)
                } else {
                    match block_of(prefix_source(opt(args.cache_prefix_block), ident)) {
                        Err(e) => Err(because_of(Reason::PrefixSyntax, e)),
                        Ok(prefix) => if args.redis {
                            Ok(redis_create(is_async, prefix, time, args.time_refresh))
                        } else {
                            Ok(timed_store(time, args.time_refresh, ""@, ""@).create)
                        },
                    }
                },
            }
        },
    }
}

/// Makes a timed store in memory.
pub fn make_timed_store(time: u64, time_refresh: Option<bool>, key: &str, value: &str) -> (r: Store)
    ensures
        r@ == timed_store(time, time_refresh, key@, value@),
{
    let refresh = match time_refresh {
        Some(refresh) => refresh,
        None => false,
    };
    write_built_in_store(StoreKind::Timed { time, refresh }, key, value)
}

/// Makes the type of the store.
pub fn make_io_store_type(args: &IOMacroArgs, is_async: bool, key: &str, value: &str) -> (r: Result<
    String,
    Rejection,
>)
    ensures
        outcome(r) == io_store_type(*args, is_async, key@, value@),
{
    match &args.cache_type {
        Some(text) => match parse_type(text.as_str()) {
            Err(e) => Err(reject_with(Reason::CacheTypeSyntax, e)),
            Ok(ty) => Ok(ty.text),
        },
        None => if !args.redis {
            match args.time {
                Some(time) => Ok(make_timed_store(time, args.time_refresh, key, value).ty),
                None => Err(reject(Reason::IoNoType)),
            }
        } else if is_async {
            Ok(write_store_type("cached::AsyncRedisCache", key, value))
        } else {
            Ok(write_store_type("cached::RedisCache", key, value))
        },
    }
}

/// Writes the construction of a Redis store.
pub fn write_redis_create(
    is_async: bool,
    prefix: &str,
    time: u64,
    time_refresh: Option<bool>,
) -> (r: String)
    ensures
        r@ == redis_create(is_async, prefix@, time, time_refresh),
{
    let refresh = match time_refresh {
        Some(refresh) => ".set_refresh(".to_owned().concat(truth_text(refresh)).concat(")"),
        None => "".to_owned(),
    };
    (if is_async {
        "cached::AsyncRedisCache::new( "
    } else {
        "cached::RedisCache::new( "
    }).to_owned().concat(prefix).concat(" , ").concat(decimal_text(time).as_str()).concat(
        "u64)",
    ).concat(refresh.as_str()).concat(
        if is_async {
            ".build().await.expect(\"error constructing AsyncRedisCache in #[io_cached] macro\")"
        } else {
            ".build().expect(\"error constructing RedisCache in #[io_cached] macro\")"
        },
    )
}

/// Makes the expression that makes the store of the function `ident`.
pub fn make_io_store_create(args: &IOMacroArgs, is_async: bool, ident: &str) -> (r: Result<
    String,
    Rejection,
>)
    ensures
        outcome(r) == io_store_create(*args, is_async, ident@),
{
    let time = match &args.cache_create {
        Some(text) => {
            if args.time.is_some() || args.time_refresh.is_some()
                || args.cache_prefix_block.is_some() {
                return Err(reject(Reason::IoCreateConflict));
            }
            return match parse_block(text.as_str()) {
                Err(e) => Err(reject_with(Reason::CreateSyntax, e)),
                Ok(block) => Ok(block),
            };
        },
        None => {
            if !args.redis && (args.cache_type.is_some() || args.time.is_none()) {
                return Err(reject(Reason::IoNoCreate));
            }
            match args.time {
                None => return Err(
                    reject(
                        if is_async {
                            Reason::IoAsyncRedisTime
                        } else {
                            Reason::IoRedisTime
                        },
                    ),
                ),
                Some(time) => time,
            }
        },
    };
    let source = match &args.cache_prefix_block {
        Some(text) => text.clone(),
        None => {
            if !args.redis {
                return Ok(make_timed_store(time, args.time_refresh, "", "").create);
            }
            " { \"cached::proc_macro::io_cached::".to_owned().concat(
                to_upper(ident).as_str(),
            ).concat("\" }")
        },
    };
    match parse_block(source.as_str()) {
        Err(e) => Err(reject_with(Reason::PrefixSyntax, e)),
        Ok(prefix) => if args.redis {
            Ok(write_redis_create(is_async, prefix.as_str(), time, args.time_refresh))
        } else {
            Ok(make_timed_store(time, args.time_refresh, "", "").create)
        },
    }
}

// ---------------------------------------------------------------------------
// The plan
// ---------------------------------------------------------------------------
/// What an expansion is written from, beside the arguments and the function.
#[derive(Debug, Clone, PartialEq, Eq)]
pub struct IoPlan {
    pub names: Names,
    pub key: Key,
    pub store: Store,
    /// The closure that maps an error of the store to the function's error.
    pub map_error: String,
}

/// The view of an [`IoPlan`].
pub struct IoPlanView {
    pub names: NamesView,
    pub key: KeyView,
    pub store: StoreView,
    pub map_error: Seq<char>,
}

impl View for IoPlan {
    type V = IoPlanView;

    open spec fn view(&self) -> IoPlanView {
        IoPlanView {
            names: self.names@,
            key: self.key@,
            store: self.store@,
            map_error: self.map_error@,
        }
    }
}

/// The store of the function `ident`.
pub open spec fn io_store(
    args: IOMacroArgs,
    is_async: bool,
    ident: Seq<char>,
    key: Seq<char>,
    value: Seq<char>,
) -> Result<StoreView, RejectionView> {
    match io_store_type(args, is_async, key, value) {
        Err(e) => Err(e),
        Ok(ty) => match io_store_create(args, is_async, ident) {
            Err(e) => Err(e),
            Ok(create) => Ok(StoreView { ty, create }),
        },
    }
}

/// The plan of an expansion, or the first thing that stands against it.
pub open spec fn io_plan(args: IOMacroArgs, item: FnItemView) -> Result<
    IoPlanView,
    RejectionView,
> {
    if has_receiver(item.arguments) {
        Err(because(Reason::Method))
    } else if args.with_cached_flag && !names_return(item.output) {
        Err(io_flag_rejection(item.output))
    } else {
        match io_value_type(item.output) {
            Err(e) => Err(e),
            Ok(value) => match cache_name(opt(args.name), item.ident) {
                Err(e) => Err(e),
                Ok(cache) => match key_of(
                    opt(args.key),
                    opt(args.convert),
                    args.cache_type is Some,
                    item.arguments,
                ) {
                    Err(e) => Err(e),
                    Ok(key) => match io_store(args, item.is_async, item.ident, key.ty, value) {
                        Err(e) => Err(e),
                        Ok(store) => match closure_of(args.map_error@) {
                            Err(e) => Err(because_of(Reason::MapErrorSyntax, e)),
                            Ok(map_error) => match prime_name(item.ident) {
                                Err(e) => Err(e),
                                Ok(prime) => Ok(
                                    IoPlanView {
                                        names: names_of(cache, prime, item.ident),
                                        key,
                                        store,
                                        map_error,
                                    },
                                ),
                            },
                        },
                    },
                },
            },
        }
    }
}

/// Makes the store of the function `ident`.
pub fn make_io_store(
    args: &IOMacroArgs,
    is_async: bool,
    ident: &str,
    key: &str,
    value: &str,
) -> (r: Result<Store, Rejection>)
    ensures
        outcome(r) == io_store(*args, is_async, ident@, key@, value@),
{
    let ty = match make_io_store_type(args, is_async, key, value) {
        Err(e) => return Err(e),
        Ok(ty) => ty,
    };
    match make_io_store_create(args, is_async, ident) {
        Err(e) => Err(e),
        Ok(create) => Ok(Store { ty, create }),
    }
}

/// Plans an expansion.
pub fn plan_io(args: &IOMacroArgs, item: &FnItem) -> (r: Result<IoPlan, Rejection>)
    ensures
        outcome(r) == io_plan(*args, item@),
        r is Ok ==> !has_receiver(item@.arguments),
{
    if takes_self(&item.arguments) {
        return Err(reject(Reason::Method));
    }
    if check_with_cache_flag(args.with_cached_flag, &item.output) {
        return Err(io_flag_error(&item.output));
    }
    let value = match find_io_value_type(&item.output) {
        Err(e) => return Err(e),
        Ok(value) => value,
    };
    let cache = match make_cache_ident(&args.name, item.ident.as_str()) {
        Err(e) => return Err(e),
        Ok(cache) => cache,
    };
    let key = match make_cache_key_type(
        &args.key,
        &args.convert,
        &args.cache_type,
        &item.arguments,
    ) {
        Err(e) => return Err(e),
        Ok(key) => key,
    };
    let store = match make_io_store(
        args,
        item.is_async,
        item.ident.as_str(),
        key.ty.as_str(),
        value.as_str(),
    ) {
        Err(e) => return Err(e),
        Ok(store) => store,
    };
    let map_error = match parse_closure(args.map_error.as_str()) {
        Err(e) => return Err(reject_with(Reason::MapErrorSyntax, e)),
        Ok(map_error) => map_error,
    };
    let prime = match make_prime_ident(item.ident.as_str()) {
        Err(e) => return Err(e),
        Ok(prime) => prime,
    };
    Ok(IoPlan { names: make_names(cache, prime, item.ident.as_str()), key, store, map_error })
}

// ---------------------------------------------------------------------------
// The text
// ---------------------------------------------------------------------------
/// The static that holds the cache.
pub open spec fn io_static(args: IOMacroArgs, item: FnItemView, plan: IoPlanView) -> Seq<char> {
    if in_memory(args) {
        locked_static(item, plan.names.cache, plan.store)
    } else if item.is_async {
        "::cached::lazy_static::lazy_static! { "@ + item.visibility + " static ref "@
            + plan.names.cache + ": ::cached::async_once::AsyncOnce< "@ + plan.store.ty
            + " > = ::cached::async_once::AsyncOnce::new(async move { "@ + plan.store.create
            + " }); }"@
    } else {
        item.visibility + " static "@ + plan.names.cache + ": ::cached::once_cell::sync::Lazy< "@
            + plan.store.ty + " > = ::cached::once_cell::sync::Lazy::new(|| "@ + plan.store.create
            + " );"@
    }
}

/// What both functions begin with.
pub open spec fn io_opening(args: IOMacroArgs, is_async: bool, plan: IoPlanView) -> Seq<char> {
    if in_memory(args) {
        locked_opening(plan.key)
    } else {
        (if is_async {
            "use cached::IOCachedAsync; let key = "@
        } else {
            "use cached::IOCached; let key = "@
        }) + plan.key.convert + " ;"@
    }
}

/// The end of a call of the store: the error is mapped and given back. A store in
/// memory gives none.
pub open spec fn mapped(args: IOMacroArgs, is_async: bool, map_error: Seq<char>) -> Seq<char> {
    if in_memory(args) {
        ""@
    } else {
        (if is_async {
            ".await.map_err( "@
        } else {
            ".map_err( "@
        }) + map_error + " )?"@
    }
}

/// Gives the cached `result` back, with its flag set where that is asked for.
pub open spec fn io_return_block(with_cached_flag: bool) -> Seq<char> {
    if with_cached_flag {
        "let mut r = ::cached::Return::new(result.clone()); r.was_cached = true; return Ok(r)"@
    } else {
        "return Ok(result.clone())"@
    }
}

/// The value of the `result` that is cached.
pub open spec fn io_cached_value(with_cached_flag: bool) -> Seq<char> {
    if with_cached_flag {
        "cache.cache_set(key, result.value.clone())"@
    } else {
        "cache.cache_set(key, result.clone())"@
    }
}

/// The texts of the steps of both functions.
pub open spec fn io_texts(args: IOMacroArgs, item: FnItemView, plan: IoPlanView) -> StepTextsView {
    let end = mapped(args, item.is_async, plan.map_error);
    StepTextsView {
        lock: lock_text(item.is_async, plan.names.cache),
        read_lock: ""@,
        borrow: "let cache = &"@ + plan.names.cache + (if item.is_async {
            ".get().await;"@
        } else {
            ";"@
        }),
        lookup: "if let Some(result) = cache.cache_get(&key)"@ + end + " { "@ + io_return_block(
            args.with_cached_flag,
        ) + " }"@,
        call: call_text(item),
        store: set_block(Caching::OkOnly, io_cached_value(args.with_cached_flag) + end + ";"@),
    }
}

/// The steps of the function: a store in memory is behind a lock, any other is not.
pub open spec fn io_body(args: IOMacroArgs) -> Seq<Step> {
    if in_memory(args) {
        cached_steps(false)
    } else {
        io_steps()
    }
}

/// The steps of the function that primes the cache.
pub open spec fn io_prime_body(args: IOMacroArgs) -> Seq<Step> {
    if in_memory(args) {
        prime_steps()
    } else {
        io_prime_steps()
    }
}

/// The expansion that follows a plan.
pub open spec fn io_expansion(args: IOMacroArgs, item: FnItemView, plan: IoPlanView) -> Seq<char> {
    let texts = io_texts(args, item, plan);
    expansion(
        item,
        plan.names,
        io_static(args, item, plan),
        io_opening(args, item.is_async, plan),
        body_text(io_body(args), texts),
        body_text(io_prime_body(args), texts),
    )
}

/// Whether the store is one in memory.
fn is_in_memory(args: &IOMacroArgs) -> (r: bool)
    ensures
        r == in_memory(*args),
{
    !args.redis && args.cache_type.is_none() && args.time.is_some()
}

/// Writes the static that holds the cache.
fn write_static(args: &IOMacroArgs, item: &FnItem, plan: &IoPlan) -> (r: String)
    ensures
        r@ == io_static(*args, item@, plan@),
{
    if is_in_memory(args) {
        write_locked_static(item, plan.names.cache.as_str(), &plan.store)
    } else if item.is_async {
        "::cached::lazy_static::lazy_static! { ".to_owned().concat(
            item.visibility.as_str(),
        ).concat(" static ref ").concat(plan.names.cache.as_str()).concat(
            ": ::cached::async_once::AsyncOnce< ",
        ).concat(plan.store.ty.as_str()).concat(
            " > = ::cached::async_once::AsyncOnce::new(async move { ",
        ).concat(plan.store.create.as_str()).concat(" }); }")
    } else {
        item.visibility.clone().concat(" static ").concat(plan.names.cache.as_str()).concat(
            ": ::cached::once_cell::sync::Lazy< ",
        ).concat(plan.store.ty.as_str()).concat(
            " > = ::cached::once_cell::sync::Lazy::new(|| ",
        ).concat(plan.store.create.as_str()).concat(" );")
    }
}

/// Writes what both functions begin with.
fn write_opening(args: &IOMacroArgs, is_async: bool, plan: &IoPlan) -> (r: String)
    ensures
        r@ == io_opening(*args, is_async, plan@),
{
    if is_in_memory(args) {
        write_locked_opening(&plan.key)
    } else {
        (if is_async {
            "use cached::IOCachedAsync; let key = "
        } else {
            "use cached::IOCached; let key = "
        }).to_owned().concat(plan.key.convert.as_str()).concat(" ;")
    }
}

/// Writes the end of a call of the store.
fn write_mapped(args: &IOMacroArgs, is_async: bool, map_error: &str) -> (r: String)
    ensures
        r@ == mapped(*args, is_async, map_error@),
{
    if is_in_memory(args) {
        "".to_owned()
    } else {
        (if is_async {
            ".await.map_err( "
        } else {
            ".map_err( "
        }).to_owned().concat(map_error).concat(" )?")
    }
}

/// Writes the texts of the steps.
fn write_texts(args: &IOMacroArgs, item: &FnItem, plan: &IoPlan) -> (r: StepTexts)
    requires
        !has_receiver(item@.arguments),
    ensures
        r@ == io_texts(*args, item@, plan@),
{
    let end = write_mapped(args, item.is_async, plan.map_error.as_str());
    let back = if args.with_cached_flag {
        "let mut r = ::cached::Return::new(result.clone()); r.was_cached = true; return Ok(r)"
    } else {
        "return Ok(result.clone())"
    };
    let set = (if args.with_cached_flag {
        "cache.cache_set(key, result.value.clone())"
    } else {
        "cache.cache_set(key, result.clone())"
    }).to_owned().concat(end.as_str()).concat(";");
    StepTexts {
        lock: write_lock(item.is_async, plan.names.cache.as_str()),
        read_lock: "".to_owned(),
        borrow: "let cache = &".to_owned().concat(plan.names.cache.as_str()).concat(
            if item.is_async {
                ".get().await;"
            } else {
                ";"
            },
        ),
        lookup: "if let Some(result) = cache.cache_get(&key)".to_owned().concat(
            end.as_str(),
        ).concat(" { ").concat(back).concat(" }"),
        call: write_call(item),
        store: write_set(Caching::OkOnly, set.as_str()),
    }
}

/// Writes the expansion that follows a plan.
pub fn write_io(args: &IOMacroArgs, item: &FnItem, plan: &IoPlan) -> (r: String)
    requires
        !has_receiver(item@.arguments),
    ensures
        r@ == io_expansion(*args, item@, plan@),
{
    let texts = write_texts(args, item, plan);
    let cache = write_static(args, item, plan);
    let opening = write_opening(args, item.is_async, plan);
    let memory = is_in_memory(args);
    let steps = if memory {
        lay_out_cached(false)
    } else {
        lay_out_io()
    };
    let prime = if memory {
        lay_out_prime()
    } else {
        lay_out_io_prime()
    };
    let body = write_body(&steps, &texts);
    let prime_body = write_body(&prime, &texts);
    write_expansion(
        item,
        &plan.names,
        cache.as_str(),
        opening.as_str(),
        body.as_str(),
        prime_body.as_str(),
    )
}

/// What the attribute makes of a function.
pub open spec fn io_outcome(args: IOMacroArgs, item: FnItemView) -> Result<
    Seq<char>,
    RejectionView,
> {
    match io_plan(args, item) {
        Err(e) => Err(e),
        Ok(plan) => Ok(io_expansion(args, item, plan)),
    }
}

/// Expands the attribute on a function.
pub fn expand_io_cached(args: &IOMacroArgs, item: &FnItem) -> (r: Result<String, Rejection>)
    ensures
        outcome(r) == io_outcome(*args, item@),
{
    match plan_io(args, item) {
        Err(e) => Err(e),
        Ok(plan) => Ok(write_io(args, item, &plan)),
    }
}

/// What the attribute makes of the text of a function.
pub open spec fn io_cached_text(args: IOMacroArgs, input: Seq<char>) -> Result<
    Seq<char>,
    RejectionView,
> {
    match read_item(input) {
        Err(e) => Err(e),
        Ok(item) => io_outcome(args, item),
    }
}

/// Expands the attribute on the text of a function: the text of the cache, of
/// the cached function and of the function that primes the cache.
pub fn io_cached(args: &IOMacroArgs, input: &str) -> (r: Result<String, Rejection>)
    ensures
        outcome(r) == io_cached_text(*args, input@),
{
    match parse_fn_item(input) {
        Err(e) => Err(e),
        Ok(item) => expand_io_cached(args, &item),
    }
}

} // verus!
