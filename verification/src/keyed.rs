//! The `cached` attribute: a cache of many keys.

use crate::args::MacroArgs;
use crate::caching::{
    caching_of, choose_caching, return_block, set_block, write_return, write_set,
};
use crate::expansion::{
    call_text, expansion, make_names, names_of, write_call, write_expansion, Names, NamesView,
};
use crate::helpers::{
    cache_name, check_with_cache_flag, find_value_type, flag_rejection, has_receiver, key_of,
    make_cache_ident, make_cache_key_type, make_prime_ident, names_return, prime_name, takes_self,
    value_type, with_cache_flag_error, Key, KeyView,
};
use crate::item::{parse_fn_item, read_item, FnItem, FnItemView};
use crate::outside::{block_of, parse_block, parse_type, type_of};
use crate::rejection::{
    because, because_of, outcome, reject, reject_with, Reason, Rejection, RejectionView,
};
use crate::steps::{
    body_text, cached_steps, lay_out_cached, lay_out_prime, prime_steps, write_body, StepTexts,
    StepTextsView,
};
use crate::text::{decimal, decimal_text, opt, truth, truth_text};
use vstd::prelude::*;
use vstd::string::*;

verus! {

// ---------------------------------------------------------------------------
// The store
// ---------------------------------------------------------------------------
/// The kinds of stores.
#[derive(Debug, Clone, Copy, PartialEq, Eq, Structural)]
pub enum StoreKind {
    /// Without bounds.
    Unbound,
    /// With a greatest size.
    Sized { size: usize },
    /// With a lifespan of the entries.
    Timed { time: u64, refresh: bool },
    /// With both.
    TimedSized { size: usize, time: u64, refresh: bool },
    /// As the `type` and `create` arguments say.
    Custom,
}

/// The store that the arguments ask for. A size and a lifespan go together, a
/// type goes with its construction, and nothing else goes with anything.
pub open spec fn store_kind(args: MacroArgs) -> Result<StoreKind, RejectionView> {
    let plain = args.cache_type is None && args.cache_create is None;
    if args.unbound {
        if args.size is None && args.time is None && plain {
            Ok(StoreKind::Unbound)
        } else {
            Err(because(Reason::StoreConflict))
        }
    } else if plain {
        match (args.size, args.time) {
            (None, None) => Ok(StoreKind::Unbound),
            (Some(size), None) => Ok(StoreKind::Sized { size }),
            (None, Some(time)) => Ok(StoreKind::Timed { time, refresh: args.time_refresh }),
            (Some(size), Some(time)) => Ok(
                StoreKind::TimedSized { size, time, refresh: args.time_refresh },
            ),
        }
    } else if args.size is Some || args.time is Some {
        Err(because(Reason::StoreConflict))
    } else if args.cache_create is None {
        Err(because(Reason::TypeWithoutCreate))
    } else if args.cache_type is None {
        Err(because(Reason::CreateWithoutType))
    } else {
        Ok(StoreKind::Custom)
    }
}

/// Decides which store the arguments ask for.
pub fn choose_store(args: &MacroArgs) -> (r: Result<StoreKind, Rejection>)
    ensures
        match r {
            Ok(kind) => store_kind(*args) == Ok::<StoreKind, RejectionView>(kind),
            Err(e) => store_kind(*args) == Err::<StoreKind, RejectionView>(e@),
        },
{
    match (args.unbound, args.size, args.time, &args.cache_type, &args.cache_create) {
        (true, None, None, None, None) => Ok(StoreKind::Unbound),
        (false, Some(size), None, None, None) => Ok(StoreKind::Sized { size }),
        (false, None, Some(time), None, None) => Ok(
            StoreKind::Timed { time, refresh: args.time_refresh },
        ),
        (false, Some(size), Some(time), None, None) => Ok(
            StoreKind::TimedSized { size, time, refresh: args.time_refresh },
        ),
        (false, None, None, None, None) => Ok(StoreKind::Unbound),
        (false, None, None, Some(_), Some(_)) => Ok(StoreKind::Custom),
        (false, None, None, Some(_), None) => Err(reject(Reason::TypeWithoutCreate)),
        (false, None, None, None, Some(_)) => Err(reject(Reason::CreateWithoutType)),
        _ => Err(reject(Reason::StoreConflict)),
    }
}

/// A store: its type, and the expression that makes it.
#[derive(Debug, Clone, PartialEq, Eq)]
pub struct Store {
    pub ty: String,
    pub create: String,
}

/// The view of a [`Store`].
pub struct StoreView {
    pub ty: Seq<char>,
    pub create: Seq<char>,
}

impl View for Store {
    type V = StoreView;

    open spec fn view(&self) -> StoreView {
        StoreView { ty: self.ty@, create: self.create@ }
    }
}

/// A store type of two parameters.
pub open spec fn store_type(name: Seq<char>, key: Seq<char>, value: Seq<char>) -> Seq<char> {
    name + "< "@ + key + " , "@ + value + " >"@
}

/// Writes a store type of two parameters.
pub fn write_store_type(name: &str, key: &str, value: &str) -> (r: String)
    ensures
        r@ == store_type(name@, key@, value@),
{
    name.to_owned().concat("< ").concat(key).concat(" , ").concat(value).concat(" >")
}

/// The store of a kind that is not custom, for keys and values of these types.
pub open spec fn built_in_store(kind: StoreKind, key: Seq<char>, value: Seq<char>) -> StoreView {
    match kind {
        StoreKind::Sized { size } => StoreView {
            ty: store_type("cached::SizedCache"@, key, value),
            create: "cached::SizedCache::with_size("@ + decimal(size as nat) + "usize)"@,
        },
        StoreKind::Timed { time, refresh } => StoreView {
            ty: store_type("cached::TimedCache"@, key, value),
            create: "cached::TimedCache::with_lifespan_and_refresh("@ + decimal(time as nat)
                + "u64, "@ + truth(refresh) + ")"@,
        },
        StoreKind::TimedSized { size, time, refresh } => StoreView {
            ty: store_type("cached::TimedSizedCache"@, key, value),
            create: "cached::TimedSizedCache::with_size_and_lifespan_and_refresh("@ + decimal(
                size as nat,
            ) + "usize, "@ + decimal(time as nat) + "u64, "@ + truth(refresh) + ")"@,
        },
        _ => StoreView {
            ty: store_type("cached::UnboundCache"@, key, value),
            create: "cached::UnboundCache::new()"@,
        },
    }
}

/// Writes the store of a kind that is not custom.
pub fn write_built_in_store(kind: StoreKind, key: &str, value: &str) -> (r: Store)
    ensures
        r@ == built_in_store(kind, key@, value@),
{
    match kind {
        StoreKind::Sized { size } => Store {
            ty: write_store_type("cached::SizedCache", key, value),
            create: "cached::SizedCache::with_size(".to_owned().concat(
                decimal_text(size as u64).as_str(),
            ).concat("usize)"),
        },
        StoreKind::Timed { time, refresh } => Store {
            ty: write_store_type("cached::TimedCache", key, value),
            create: "cached::TimedCache::with_lifespan_and_refresh(".to_owned().concat(
                decimal_text(time).as_str(),
            ).concat("u64, ").concat(truth_text(refresh)).concat(")"),
        },
        StoreKind::TimedSized { size, time, refresh } => Store {
            ty: write_store_type("cached::TimedSizedCache", key, value),
            create:
                "cached::TimedSizedCache::with_size_and_lifespan_and_refresh(".to_owned().concat(
                decimal_text(size as u64).as_str(),
            ).concat("usize, ").concat(decimal_text(time).as_str()).concat("u64, ").concat(
                truth_text(refresh),
            ).concat(")"),
        },
        _ => Store {
            ty: write_store_type("cached::UnboundCache", key, value),
            create: "cached::UnboundCache::new()".to_owned(),
        },
    }
}

/// A store as the texts of a type and of a block say.
pub open spec fn custom_store(ty: Seq<char>, create: Seq<char>) -> Result<StoreView, RejectionView> {
    match type_of(ty) {
        Err(e) => Err(because_of(Reason::CacheTypeSyntax, e)),
        Ok(ty) => match block_of(create) {
            Err(e) => Err(because_of(Reason::CreateSyntax, e)),
            Ok(create) => Ok(StoreView { ty: ty.text, create }),
        },
    }
}

/// Reads a store from the texts of a type and of a block.
pub fn parse_store(ty: &str, create: &str) -> (r: Result<Store, Rejection>)
    ensures
        outcome(r) == custom_store(ty@, create@),
{
    match parse_type(ty) {
        Err(e) => Err(reject_with(Reason::CacheTypeSyntax, e)),
        Ok(ty) => match parse_block(create) {
            Err(e) => Err(reject_with(Reason::CreateSyntax, e)),
            Ok(create) => Ok(Store { ty: ty.text, create }),
        },
    }
}

/// The store of the arguments, for keys and values of these types.
pub open spec fn store_of(args: MacroArgs, key: Seq<char>, value: Seq<char>) -> Result<
    StoreView,
    RejectionView,
> {
    match store_kind(args) {
        Err(e) => Err(e),
        Ok(StoreKind::Custom) => custom_store(args.cache_type->0@, args.cache_create->0@),
        Ok(kind) => Ok(built_in_store(kind, key, value)),
    }
}

/// Makes the store of the arguments.
pub fn make_store(args: &MacroArgs, key: &str, value: &str) -> (r: Result<Store, Rejection>)
    ensures
        outcome(r) == store_of(*args, key@, value@),
{
    match choose_store(args) {
        Err(e) => Err(e),
        Ok(StoreKind::Custom) => parse_store(
            args.cache_type.as_ref().unwrap().as_str(),
            args.cache_create.as_ref().unwrap().as_str(),
        ),
        Ok(kind) => Ok(write_built_in_store(kind, key, value)),
    }
}

// ---------------------------------------------------------------------------
// The plan: what has to be found out before anything is written
// ---------------------------------------------------------------------------
/// What an expansion is written from, beside the arguments and the function.
#[derive(Debug, Clone, PartialEq, Eq)]
pub struct CachedPlan {
    pub names: Names,
    pub key: Key,
    pub store: Store,
}

/// The view of a [`CachedPlan`].
pub struct CachedPlanView {
    pub names: NamesView,
    pub key: KeyView,
    pub store: StoreView,
}

impl View for CachedPlan {
    type V = CachedPlanView;

    open spec fn view(&self) -> CachedPlanView {
        CachedPlanView { names: self.names@, key: self.key@, store: self.store@ }
    }
}

/// The plan of an expansion, or the first thing that stands against it.
pub open spec fn cached_plan(args: MacroArgs, item: FnItemView) -> Result<
    CachedPlanView,
    RejectionView,
> {
    if has_receiver(item.arguments) {
        Err(because(Reason::Method))
    } else if args.with_cached_flag && !names_return(item.output) {
        Err(flag_rejection(item.output))
    } else {
        match value_type(args.result, args.option, item.output) {
            Err(e) => Err(e),
            Ok(value) => match cache_name(opt(args.name), item.ident) {
                Err(e) => Err(e),
                Ok(cache) => match key_of(
                    opt(args.key),
                    opt(args.convert),
                    args.cache_type is Some,
                    item.arguments,
                ) {
                    Err(e) => Err(e),
                    Ok(key) => match store_of(args, key.ty, value) {
                        Err(e) => Err(e),
                        Ok(store) => match prime_name(item.ident) {
                            Err(e) => Err(e),
                            Ok(prime) => Ok(
                                CachedPlanView {
                                    names: names_of(cache, prime, item.ident),
                                    key,
                                    store,
                                },
                            ),
                        },
                    },
                },
            },
        }
    }
}

/// Plans an expansion.
pub fn plan_cached(args: &MacroArgs, item: &FnItem) -> (r: Result<CachedPlan, Rejection>)
    ensures
        outcome(r) == cached_plan(*args, item@),
        r is Ok ==> !has_receiver(item@.arguments),
{
    if takes_self(&item.arguments) {
        return Err(reject(Reason::Method));
    }
    if check_with_cache_flag(args.with_cached_flag, &item.output) {
        return Err(with_cache_flag_error(&item.output));
    }
    let value = match find_value_type(args.result, args.option, &item.output) {
        Err(e) => return Err(e),
        Ok(value) => value,
    };
    let cache = match make_cache_ident(&args.name, item.ident.as_str()) {
        Err(e) => return Err(e),
        Ok(cache) => cache,
    };
    let key = match make_cache_key_type(
        &args.key,
        &args.convert,
        &args.cache_type,
        &item.arguments,
    ) {
        Err(e) => return Err(e),
        Ok(key) => key,
    };
    let store = match make_store(args, key.ty.as_str(), value.as_str()) {
        Err(e) => return Err(e),
        Ok(store) => store,
    };
    let prime = match make_prime_ident(item.ident.as_str()) {
        Err(e) => return Err(e),
        Ok(prime) => prime,
    };
    Ok(CachedPlan { names: make_names(cache, prime, item.ident.as_str()), key, store })
}

// ---------------------------------------------------------------------------
// The text
// ---------------------------------------------------------------------------
/// The static that holds a store behind a lock.
pub open spec fn locked_static(item: FnItemView, cache: Seq<char>, store: StoreView) -> Seq<char> {
    if item.is_async {
        item.visibility + " static "@ + cache
            + ": ::cached::once_cell::sync::Lazy<::cached::async_sync::Mutex< "@ + store.ty
            + " >> = ::cached::once_cell::sync::Lazy::new(|| ::cached::async_sync::Mutex::new( "@
            + store.create + " ));"@
    } else {
        item.visibility + " static "@ + cache
            + ": ::cached::once_cell::sync::Lazy<std::sync::Mutex< "@ + store.ty
            + " >> = ::cached::once_cell::sync::Lazy::new(|| std::sync::Mutex::new( "@
            + store.create + " ));"@
    }
}

/// What both functions begin with, where the store is behind a lock.
pub open spec fn locked_opening(key: KeyView) -> Seq<char> {
    "use cached::Cached; let key = "@ + key.convert + " ;"@
}

/// The text that takes the lock.
pub open spec fn lock_text(is_async: bool, cache: Seq<char>) -> Seq<char> {
    "let mut cache = "@ + cache + (if is_async {
        ".lock().await;"@
    } else {
        ".lock().unwrap();"@
    })
}

/// The texts of the steps of both functions.
pub open spec fn cached_texts(
    args: MacroArgs,
    item: FnItemView,
    plan: CachedPlanView,
) -> StepTextsView {
    let caching = caching_of(args.result, args.option);
    StepTextsView {
        lock: lock_text(item.is_async, plan.names.cache),
        read_lock: ""@,
        borrow: ""@,
        lookup: "if let Some(result) = cache.cache_get(&key) { "@ + return_block(
            caching,
            args.with_cached_flag,
        ) + " }"@,
        call: call_text(item),
        store: set_block(caching, "cache.cache_set(key, result.clone());"@),
    }
}

/// The expansion that follows a plan.
pub open spec fn cached_expansion(
    args: MacroArgs,
    item: FnItemView,
    plan: CachedPlanView,
) -> Seq<char> {
    let texts = cached_texts(args, item, plan);
    expansion(
        item,
        plan.names,
        locked_static(item, plan.names.cache, plan.store),
        locked_opening(plan.key),
        body_text(cached_steps(args.sync_writes), texts),
        body_text(prime_steps(), texts),
    )
}

/// Writes the static that holds a store behind a lock.
pub fn write_locked_static(item: &FnItem, cache: &str, store: &Store) -> (r: String)
    ensures
        r@ == locked_static(item@, cache@, store@),
{
    let head = item.visibility.clone().concat(" static ").concat(cache);
    if item.is_async {
        head.concat(": ::cached::once_cell::sync::Lazy<::cached::async_sync::Mutex< ").concat(
            store.ty.as_str(),
        ).concat(
            " >> = ::cached::once_cell::sync::Lazy::new(|| ::cached::async_sync::Mutex::new( ",
        ).concat(store.create.as_str()).concat(" ));")
    } else {
        head.concat(": ::cached::once_cell::sync::Lazy<std::sync::Mutex< ").concat(
            store.ty.as_str(),
        ).concat(
            " >> = ::cached::once_cell::sync::Lazy::new(|| std::sync::Mutex::new( ",
        ).concat(store.create.as_str()).concat(" ));")
    }
}

/// Writes what both functions begin with, where the store is behind a lock.
pub fn write_locked_opening(key: &Key) -> (r: String)
    ensures
        r@ == locked_opening(key@),
{
    "use cached::Cached; let key = ".to_owned().concat(key.convert.as_str()).concat(" ;")
}

/// Writes the text that takes the lock.
pub fn write_lock(is_async: bool, cache: &str) -> (r: String)
    ensures
        r@ == lock_text(is_async, cache@),
{
    "let mut cache = ".to_owned().concat(cache).concat(
        if is_async {
            ".lock().await;"
        } else {
            ".lock().unwrap();"
        },
    )
}

/// Writes the texts of the steps.
fn write_texts(args: &MacroArgs, item: &FnItem, plan: &CachedPlan) -> (r: StepTexts)
    requires
        !has_receiver(item@.arguments),
    ensures
        r@ == cached_texts(*args, item@, plan@),
{
    let caching = choose_caching(args.result, args.option);
    StepTexts {
        lock: write_lock(item.is_async, plan.names.cache.as_str()),
        read_lock: "".to_owned(),
        borrow: "".to_owned(),
        lookup: "if let Some(result) = cache.cache_get(&key) { ".to_owned().concat(
            write_return(caching, args.with_cached_flag).as_str(),
        ).concat(" }"),
        call: write_call(item),
        store: write_set(caching, "cache.cache_set(key, result.clone());"),
    }
}

/// Writes the expansion that follows a plan.
pub fn write_cached(args: &MacroArgs, item: &FnItem, plan: &CachedPlan) -> (r: String)
    requires
        !has_receiver(item@.arguments),
    ensures
        r@ == cached_expansion(*args, item@, plan@),
{
    let texts = write_texts(args, item, plan);
    let cache = write_locked_static(item, plan.names.cache.as_str(), &plan.store);
    let opening = write_locked_opening(&plan.key);
    let body = write_body(&lay_out_cached(args.sync_writes), &texts);
    let prime_body = write_body(&lay_out_prime(), &texts);
    write_expansion(
        item,
        &plan.names,
        cache.as_str(),
        opening.as_str(),
        body.as_str(),
        prime_body.as_str(),
    )
}

/// What the attribute makes of a function.
pub open spec fn cached_outcome(args: MacroArgs, item: FnItemView) -> Result<
    Seq<char>,
    RejectionView,
> {
    match cached_plan(args, item) {
        Err(e) => Err(e),
        Ok(plan) => Ok(cached_expansion(args, item, plan)),
    }
}

/// Expands the attribute on a function.
pub fn expand_cached(args: &MacroArgs, item: &FnItem) -> (r: Result<String, Rejection>)
    ensures
        outcome(r) == cached_outcome(*args, item@),
{
    match plan_cached(args, item) {
        Err(e) => Err(e),
        Ok(plan) => Ok(write_cached(args, item, &plan)),
    }
}

/// What the attribute makes of the text of a function.
pub open spec fn cached_text(args: MacroArgs, input: Seq<char>) -> Result<
    Seq<char>,
    RejectionView,
> {
    match read_item(input) {
        Err(e) => Err(e),
        Ok(item) => cached_outcome(args, item),
    }
}

/// Expands the attribute on the text of a function: the text of the cache, of
/// the cached function and of the function that primes the cache.
pub fn cached(args: &MacroArgs, input: &str) -> (r: Result<String, Rejection>)
    ensures
        outcome(r) == cached_text(*args, input@),
{
    match parse_fn_item(input) {
        Err(e) => Err(e),
        Ok(item) => expand_cached(args, &item),
    }
}

} // verus!
