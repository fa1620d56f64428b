//! The `once` attribute: a cache of one value.

use crate::args::OnceMacroArgs;
use crate::caching::{
    caching_of, choose_caching, return_block, set_block, write_return, write_set,
};
use crate::expansion::{
    call_text, expansion, make_names, names_of, write_call, write_expansion, Names, NamesView,
};
use crate::helpers::{
    cache_name, check_with_cache_flag, find_value_type, flag_rejection, has_receiver,
    make_cache_ident, make_prime_ident, names_return, prime_name, takes_self, value_type,
    with_cache_flag_error,
};
use crate::item::{parse_fn_item, read_item, FnItem, FnItemView};
use crate::keyed::{built_in_store, write_built_in_store, Store, StoreKind, StoreView};
use crate::rejection::{because, outcome, reject, Reason, Rejection, RejectionView};
use crate::steps::{
    body_text, lay_out_once, lay_out_prime, once_steps, prime_steps, write_body, StepTexts,
    StepTextsView,
};
use crate::text::opt;
use vstd::prelude::*;
use vstd::string::*;

verus! {

// ---------------------------------------------------------------------------
// The plan
// ---------------------------------------------------------------------------
/// What an expansion is written from, beside the arguments and the function.
#[derive(Debug, Clone, PartialEq, Eq)]
pub struct OncePlan {
    pub names: Names,
    /// The type of the cached value.
    pub value: String,
}

/// The view of a [`OncePlan`].
pub struct OncePlanView {
    pub names: NamesView,
    pub value: Seq<char>,
}

impl View for OncePlan {
    type V = OncePlanView;

    open spec fn view(&self) -> OncePlanView {
        OncePlanView { names: self.names@, value: self.value@ }
    }
}

/// The plan of an expansion, or the first thing that stands against it.
pub open spec fn once_plan(args: OnceMacroArgs, item: FnItemView) -> Result<
    OncePlanView,
    RejectionView,
> {
    if has_receiver(item.arguments) {
        Err(because(Reason::Method))
    } else if args.with_cached_flag && !names_return(item.output) {
        Err(flag_rejection(item.output))
    } else {
        match value_type(args.result, args.option, item.output) {
            Err(e) => Err(e),
            Ok(value) => match cache_name(opt(args.name), item.ident) {
                Err(e) => Err(e),
                Ok(cache) => match prime_name(item.ident) {
                    Err(e) => Err(e),
                    Ok(prime) => Ok(
                        OncePlanView { names: names_of(cache, prime, item.ident), value },
                    ),
                },
            },
        }
    }
}

/// Plans an expansion.
pub fn plan_once(args: &OnceMacroArgs, item: &FnItem) -> (r: Result<OncePlan, Rejection>)
    ensures
        outcome(r) == once_plan(*args, item@),
        r is Ok ==> !has_receiver(item@.arguments),
{
    if takes_self(&item.arguments) {
        return Err(reject(Reason::Method));
    }
    if check_with_cache_flag(args.with_cached_flag, &item.output) {
        return Err(with_cache_flag_error(&item.output));
    }
    let value = match find_value_type(args.result, args.option, &item.output) {
        Err(e) => return Err(e),
        Ok(value) => value,
    };
    let cache = match make_cache_ident(&args.name, item.ident.as_str()) {
        Err(e) => return Err(e),
        Ok(cache) => cache,
    };
    let prime = match make_prime_ident(item.ident.as_str()) {
        Err(e) => return Err(e),
        Ok(prime) => prime,
    };
    Ok(OncePlan { names: make_names(cache, prime, item.ident.as_str()), value })
}

// ---------------------------------------------------------------------------
// The text
// ---------------------------------------------------------------------------
/// The store of one value: an `Option`, or where the value has a lifespan, a timed
/// store with one key.
pub open spec fn once_store(time: Option<u64>, value: Seq<char>) -> StoreView {
    match time {
        None => StoreView { ty: "Option< "@ + value + " >"@, create: "None"@ },
        Some(time) => built_in_store(StoreKind::Timed { time, refresh: false }, "()"@, value),
    }
}

/// The static that holds the cache.
pub open spec fn once_static(
    args: OnceMacroArgs,
    item: FnItemView,
    plan: OncePlanView,
) -> Seq<char> {
    let store = once_store(args.time, plan.value);
    if item.is_async {
        item.visibility + " static "@ + plan.names.cache
            + ": ::cached::once_cell::sync::Lazy<::cached::async_sync::RwLock< "@ + store.ty
            + " >> = ::cached::once_cell::sync::Lazy::new(|| ::cached::async_sync::RwLock::new( "@
            + store.create + " ));"@
    } else {
        item.visibility + " static "@ + plan.names.cache
            + ": ::cached::once_cell::sync::Lazy<std::sync::RwLock< "@ + store.ty
            + " >> = ::cached::once_cell::sync::Lazy::new(|| std::sync::RwLock::new( "@
            + store.create + " ));"@
    }
}

/// What both functions begin with.
pub open spec fn once_opening(time: Option<u64>) -> Seq<char> {
    match time {
        None => "let now = ::cached::instant::Instant::now();"@,
        Some(_) => "use cached::Cached;"@,
    }
}

/// The condition under which there is a cached `result`.
pub open spec fn once_condition(time: Option<u64>) -> Seq<char> {
    match time {
        None => "if let Some(result) = &*cached { "@,
        Some(_) => "if let Some(result) = cached.cache_get(&()) { "@,
    }
}

/// The write into the cache.
pub open spec fn once_write(time: Option<u64>) -> Seq<char> {
    match time {
        None => "*cached = Some(result.clone());"@,
        Some(_) => "cached.cache_set((), result.clone());"@,
    }
}

/// The texts of the steps of both functions.
pub open spec fn once_texts(
    args: OnceMacroArgs,
    item: FnItemView,
    plan: OncePlanView,
) -> StepTextsView {
    let caching = caching_of(args.result, args.option);
    StepTextsView {
        lock: "let mut cached = "@ + plan.names.cache + (if item.is_async {
            ".write().await;"@
        } else {
            ".write().unwrap();"@
        }),
        read_lock: "let mut cached = "@ + plan.names.cache + (if item.is_async {
            ".read().await;"@
        } else {
            ".read().unwrap();"@
        }),
        borrow: ""@,
        lookup: once_condition(args.time) + return_block(caching, args.with_cached_flag) + " }"@,
        call: call_text(item),
        store: set_block(caching, once_write(args.time)),
    }
}

/// The expansion that follows a plan.
pub open spec fn once_expansion(
    args: OnceMacroArgs,
    item: FnItemView,
    plan: OncePlanView,
) -> Seq<char> {
    let texts = once_texts(args, item, plan);
    expansion(
        item,
        plan.names,
        once_static(args, item, plan),
        once_opening(args.time),
        body_text(once_steps(args.sync_writes, args.time is Some), texts),
        body_text(prime_steps(), texts),
    )
}

/// Writes the store of one value.
pub fn write_once_store(time: Option<u64>, value: &str) -> (r: Store)
    ensures
        r@ == once_store(time, value@),
{
    match time {
        None => Store {
            ty: "Option< ".to_owned().concat(value).concat(" >"),
            create: "None".to_owned(),
        },
        Some(time) => write_built_in_store(StoreKind::Timed { time, refresh: false }, "()", value),
    }
}

/// Writes the static that holds the cache.
fn write_static(args: &OnceMacroArgs, item: &FnItem, plan: &OncePlan) -> (r: String)
    ensures
        r@ == once_static(*args, item@, plan@),
{
    let store = write_once_store(args.time, plan.value.as_str());
    let head = item.visibility.clone().concat(" static ").concat(plan.names.cache.as_str());
    if item.is_async {
        head.concat(": ::cached::once_cell::sync::Lazy<::cached::async_sync::RwLock< ").concat(
            store.ty.as_str(),
        ).concat(
            " >> = ::cached::once_cell::sync::Lazy::new(|| ::cached::async_sync::RwLock::new( ",
        ).concat(store.create.as_str()).concat(" ));")
    } else {
        head.concat(": ::cached::once_cell::sync::Lazy<std::sync::RwLock< ").concat(
            store.ty.as_str(),
        ).concat(
            " >> = ::cached::once_cell::sync::Lazy::new(|| std::sync::RwLock::new( ",
        ).concat(store.create.as_str()).concat(" ));")
    }
}

/// Writes the texts of the steps.
fn write_texts(args: &OnceMacroArgs, item: &FnItem, plan: &OncePlan) -> (r: StepTexts)
    requires
        !has_receiver(item@.arguments),
    ensures
        r@ == once_texts(*args, item@, plan@),
{
    let caching = choose_caching(args.result, args.option);
    let condition = match args.time {
        None => "if let Some(result) = &*cached { ",
        Some(_) => "if let Some(result) = cached.cache_get(&()) { ",
    };
    let write = match args.time {
        None => "*cached = Some(result.clone());",
        Some(_) => "cached.cache_set((), result.clone());",
    };
    StepTexts {
        lock: "let mut cached = ".to_owned().concat(plan.names.cache.as_str()).concat(
            if item.is_async {
                ".write().await;"
            } else {
                ".write().unwrap();"
            },
        ),
        read_lock: "let mut cached = ".to_owned().concat(plan.names.cache.as_str()).concat(
            if item.is_async {
                ".read().await;"
            } else {
                ".read().unwrap();"
            },
        ),
        borrow: "".to_owned(),
        lookup: condition.to_owned().concat(
            write_return(caching, args.with_cached_flag).as_str(),
        ).concat(" }"),
        call: write_call(item),
        store: write_set(caching, write),
    }
}

/// Writes the expansion that follows a plan.
pub fn write_once(args: &OnceMacroArgs, item: &FnItem, plan: &OncePlan) -> (r: String)
    requires
        !has_receiver(item@.arguments),
    ensures
        r@ == once_expansion(*args, item@, plan@),
{
    let texts = write_texts(args, item, plan);
    let cache = write_static(args, item, plan);
    let opening = match args.time {
        None => "let now = ::cached::instant::Instant::now();",
        Some(_) => "use cached::Cached;",
    };
    let body = write_body(&lay_out_once(args.sync_writes, args.time.is_some()), &texts);
    let prime_body = write_body(&lay_out_prime(), &texts);
    write_expansion(item, &plan.names, cache.as_str(), opening, body.as_str(), prime_body.as_str())
}

/// What the attribute makes of a function.
pub open spec fn once_outcome(args: OnceMacroArgs, item: FnItemView) -> Result<
    Seq<char>,
    RejectionView,
> {
    match once_plan(args, item) {
        Err(e) => Err(e),
        Ok(plan) => Ok(once_expansion(args, item, plan)),
    }
}

/// Expands the attribute on a function.
pub fn expand_once(args: &OnceMacroArgs, item: &FnItem) -> (r: Result<String, Rejection>)
    ensures
        outcome(r) == once_outcome(*args, item@),
{
    match plan_once(args, item) {
        Err(e) => Err(e),
        Ok(plan) => Ok(write_once(args, item, &plan)),
    }
}

/// What the attribute makes of the text of a function.
pub open spec fn once_text(args: OnceMacroArgs, input: Seq<char>) -> Result<
    Seq<char>,
    RejectionView,
> {
    match read_item(input) {
        Err(e) => Err(e),
        Ok(item) => once_outcome(args, item),
    }
}

/// Expands the attribute on the text of a function: the text of the cache, of
/// the cached function and of the function that primes the cache.
pub fn once(args: &OnceMacroArgs, input: &str) -> (r: Result<String, Rejection>)
    ensures
        outcome(r) == once_text(*args, input@),
{
    match parse_fn_item(input) {
        Err(e) => Err(e),
        Ok(item) => expand_once(args, &item),
    }
}

} // verus!
