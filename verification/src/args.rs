//! The arguments of the three attributes.

use vstd::prelude::*;

verus! {

/// The arguments of `cached`.
#[derive(Debug, Clone, PartialEq, Eq)]
pub struct MacroArgs {
    /// The name of the cache; the function's in upper case where it is not given.
    pub name: Option<String>,
    /// Ask for a store without bounds.
    pub unbound: bool,
    /// The most entries that the store keeps.
    pub size: Option<usize>,
    /// The lifespan of an entry in seconds.
    pub time: Option<u64>,
    /// Whether a hit renews the lifespan.
    pub time_refresh: bool,
    /// The type of the keys; asks for `convert`.
    pub key: Option<String>,
    /// The block that makes a key of the arguments; asks for `key` or `cache_type`.
    pub convert: Option<String>,
    /// Cache only the `Ok` values of a function that returns a `Result`.
    pub result: bool,
    /// Cache only the `Some` values of a function that returns an `Option`.
    pub option: bool,
    /// Hold the lock from the lookup to the write.
    pub sync_writes: bool,
    /// Set the `was_cached` flag of the values that come from the cache.
    pub with_cached_flag: bool,
    /// The type of the store; asks for `cache_create`.
    pub cache_type: Option<String>,
    /// The block that makes the store; asks for `cache_type`.
    pub cache_create: Option<String>,
}

impl Default for MacroArgs {
    /// The arguments of an attribute that gives none.
    fn default() -> (r: MacroArgs)
        ensures
            r == (MacroArgs {
                name: None,
                unbound: false,
                size: None,
                time: None,
                time_refresh: false,
                key: None,
                convert: None,
                result: false,
                option: false,
                sync_writes: false,
                with_cached_flag: false,
                cache_type: None,
                cache_create: None,
            }),
    {
        MacroArgs {
            name: None,
            unbound: false,
            size: None,
            time: None,
            time_refresh: false,
            key: None,
            convert: None,
            result: false,
            option: false,
            sync_writes: false,
            with_cached_flag: false,
            cache_type: None,
            cache_create: None,
        }
    }
}

/// The arguments of `once`.
#[derive(Debug, Clone, PartialEq, Eq)]
pub struct OnceMacroArgs {
    /// The name of the cache; the function's in upper case where it is not given.
    pub name: Option<String>,
    /// The lifespan of the value in seconds; makes the store a timed one.
    pub time: Option<u64>,
    /// Run the function under the lock that the write takes.
    pub sync_writes: bool,
    /// Cache only the `Ok` values of a function that returns a `Result`.
    pub result: bool,
    /// Cache only the `Some` values of a function that returns an `Option`.
    pub option: bool,
    /// Set the `was_cached` flag of the values that come from the cache.
    pub with_cached_flag: bool,
}

impl Default for OnceMacroArgs {
    /// The arguments of an attribute that gives none.
    fn default() -> (r: OnceMacroArgs)
        ensures
            r == (OnceMacroArgs {
                name: None,
                time: None,
                sync_writes: false,
                result: false,
                option: false,
                with_cached_flag: false,
            }),
    {
        OnceMacroArgs {
            name: None,
            time: None,
            sync_writes: false,
            result: false,
            option: false,
            with_cached_flag: false,
        }
    }
}

/// The arguments of `io_cached`.
#[derive(Debug, Clone, PartialEq, Eq)]
pub struct IOMacroArgs {
    /// The closure that maps an error of the store to the function's error.
    pub map_error: String,
    /// Default to a Redis store.
    pub redis: bool,
    /// The block that makes the prefix of the keys in a Redis store; made of the
    /// function's name in upper case where it is not given.
    pub cache_prefix_block: Option<String>,
    /// The name of the cache; the function's in upper case where it is not given.
    pub name: Option<String>,
    /// The lifespan of an entry in seconds; makes the store a timed one in memory
    /// where neither Redis nor a type is asked for.
    pub time: Option<u64>,
    /// Whether a hit renews the lifespan.
    pub time_refresh: Option<bool>,
    /// The type of the keys; asks for `convert`.
    pub key: Option<String>,
    /// The block that makes a key of the arguments; asks for `key` or `cache_type`.
    pub convert: Option<String>,
    /// Set the `was_cached` flag of the values that come from the cache.
    pub with_cached_flag: bool,
    /// The type of the store.
    pub cache_type: Option<String>,
    /// The block that makes the store.
    pub cache_create: Option<String>,
}

} // verus!
