//! What the steps of a body do when the expansion runs, and what follows of the
//! functions that are made of them.
//!
//! Nothing here is executable. A cache is a map from keys to entries, a call of
//! the function brings its key, the answer that its body would give, the time and
//! what the store answers, and a body is run step by step: the steps are those
//! whose texts stand in the expansion, one after the other (see
//! [`crate::steps::body_text`]), and what they do depends on the same parts of the
//! arguments as their texts (see [`law_texts_follow_setup`]).
//!
//! A store gives back what was put into it, until its lifespan is over, if it has
//! one. It may also drop entries of its own accord: a store with a greatest size
//! does, and one that `type` and `create` give, or one outside the program, may do so
//! for any reason and at any time. Which entries are dropped is part of a call, and
//! left open. Only a built-in store without a greatest size drops none (see
//! [`keeps_all`]).

use crate::args::{IOMacroArgs, MacroArgs, OnceMacroArgs};
use crate::caching::{caching_of, return_block, set_block, Caching};
use crate::io::{
    in_memory, io_body, io_cached_value, io_prime_body, io_return_block, io_texts, mapped,
    IoPlanView,
};
use crate::item::FnItemView;
use crate::keyed::{cached_texts, CachedPlanView};
use crate::single::{once_condition, once_texts, once_write, OncePlanView};
use crate::steps::{cached_steps, io_prime_steps, io_steps, once_steps, prime_steps, Step};
use vstd::prelude::*;

verus! {

// ---------------------------------------------------------------------------
// The machine
// ---------------------------------------------------------------------------
/// A value, with the flag that a `Return` carries.
pub struct Item {
    pub value: int,
    pub was_cached: bool,
}

/// What a function returns: something with a value in it, or a failure (an `Err`
/// or a `None`).
pub enum Answer {
    Value(Item),
    Failure(int),
}

/// What a cache holds under a key: an answer, and the time at which it was put
/// there or its lifespan renewed.
pub struct Entry {
    pub answer: Answer,
    pub created: int,
}

/// How a function is cached.
pub struct Setup {
    pub caching: Caching,
    /// The cached flag is asked for.
    pub with_flag: bool,
    /// Values are kept without their flag where the flag is asked for.
    pub bare: bool,
    /// The age at which an entry is of no use, in nanoseconds.
    pub lifespan: Option<int>,
    /// A hit renews the lifespan.
    pub refresh: bool,
    /// One entry serves all arguments.
    pub single: bool,
    /// The store can fail, and needs no lock.
    pub fallible: bool,
}

/// A call of the function.
pub struct Call {
    /// The key of the arguments.
    pub key: int,
    /// What the body of the function returns, if it is run.
    pub answer: Answer,
    /// The time of the lookup, in nanoseconds.
    pub now: int,
    /// The time of the write, if there is one.
    pub done: int,
    /// The keys whose entries the store has dropped by the time of the lookup.
    pub lost: Set<int>,
    /// The keys whose entries the store drops when the call writes.
    pub evicted: Set<int>,
    /// The mapped error, where reading the store fails.
    pub get_error: Option<int>,
    /// The mapped error, where writing to the store fails.
    pub set_error: Option<int>,
}

/// What a scope holds of the cache's lock.
pub enum Guard {
    Nothing,
    Shared,
    Exclusive,
}

/// A state of a running call.
pub struct State {
    pub cache: Map<int, Entry>,
    /// What each open scope holds, from the outermost to the innermost.
    pub scopes: Seq<Guard>,
    /// The call has asked for a lock that it holds itself.
    pub stuck: bool,
    /// How many times a lock was taken.
    pub locks: nat,
    /// The result of the body, once it has run.
    pub result: Option<Answer>,
    /// How many times the body was run.
    pub runs: nat,
    /// The body was run under the exclusive lock.
    pub run_exclusive: bool,
    /// The body was run while the call held no lock.
    pub run_free: bool,
    /// The cache was read without a lock.
    pub read_free: bool,
    /// The cache was written without the exclusive lock.
    pub write_free: bool,
    /// What the call has returned.
    pub returned: Option<Answer>,
}

/// A scope holds the lock.
pub open spec fn holds(scopes: Seq<Guard>) -> bool {
    exists|i: int| 0 <= i < scopes.len() && #[trigger] scopes[i] != Guard::Nothing
}

/// A scope holds the lock for writing.
pub open spec fn holds_exclusive(scopes: Seq<Guard>) -> bool {
    exists|i: int| 0 <= i < scopes.len() && #[trigger] scopes[i] == Guard::Exclusive
}

/// The state in which a call begins.
pub open spec fn begin(cache: Map<int, Entry>) -> State {
    State {
        cache,
        scopes: seq![Guard::Nothing],
        stuck: false,
        locks: 0,
        result: None,
        runs: 0,
        run_exclusive: false,
        run_free: false,
        read_free: false,
        write_free: false,
        returned: None,
    }
}

/// The call returns: all guards are dropped.
pub open spec fn leave(state: State, answer: Option<Answer>) -> State {
    State { scopes: Seq::empty(), returned: answer, ..state }
}

/// The key under which a call is cached.
pub open spec fn slot(setup: Setup, call: Call) -> int {
    if setup.single {
        0
    } else {
        call.key
    }
}

/// How old an entry is; one from the future is new.
pub open spec fn age(entry: Entry, now: int) -> int {
    if now < entry.created {
        0
    } else {
        now - entry.created
    }
}

/// The entry can serve a call at the time `now`.
pub open spec fn fresh(setup: Setup, entry: Entry, now: int) -> bool {
    match setup.lifespan {
        None => true,
        Some(lifespan) => age(entry, now) < lifespan,
    }
}

/// What the store has left for the lookup of a call.
pub open spec fn left(call: Call, cache: Map<int, Entry>) -> Map<int, Entry> {
    cache.remove_keys(call.lost)
}

/// The store still has something to serve the call with.
pub open spec fn served(setup: Setup, call: Call, cache: Map<int, Entry>) -> bool {
    left(call, cache).contains_key(slot(setup, call)) && fresh(
        setup,
        cache[slot(setup, call)],
        call.now,
    )
}

/// The answer as it is given back from the cache (see
/// [`crate::caching::return_block`] and [`crate::io::io_return_block`]).
pub open spec fn given_back(setup: Setup, answer: Answer) -> Answer {
    match answer {
        Answer::Value(item) => if setup.with_flag {
            Answer::Value(Item { value: item.value, was_cached: true })
        } else {
            answer
        },
        Answer::Failure(_) => answer,
    }
}

/// The answer as it is put into the cache (see [`crate::io::io_cached_value`]).
pub open spec fn kept(setup: Setup, answer: Answer) -> Answer {
    match answer {
        Answer::Value(item) => if setup.bare && setup.with_flag {
            Answer::Value(Item { value: item.value, was_cached: false })
        } else {
            answer
        },
        Answer::Failure(_) => answer,
    }
}

/// The answer is one to cache: any, or of a `Result` and an `Option` only what has
/// a value in it (see [`crate::caching::set_block`]).
pub open spec fn storable(setup: Setup, answer: Answer) -> bool {
    setup.caching == Caching::All || answer is Value
}

/// The cache after the answer of a call was offered to it.
pub open spec fn stored(setup: Setup, call: Call, cache: Map<int, Entry>) -> Map<int, Entry> {
    if storable(setup, call.answer) {
        cache.insert(
            slot(setup, call),
            Entry { answer: kept(setup, call.answer), created: call.done },
        ).remove_keys(call.evicted)
    } else {
        cache
    }
}

/// The cache after a hit.
pub open spec fn renewed(setup: Setup, call: Call, cache: Map<int, Entry>) -> Map<int, Entry> {
    if setup.refresh && setup.lifespan is Some {
        let entry = cache[slot(setup, call)];
        left(call, cache).insert(
            slot(setup, call),
            Entry { answer: entry.answer, created: call.now },
        )
    } else {
        left(call, cache)
    }
}

/// A lookup.
pub open spec fn look_up(setup: Setup, call: Call, state: State) -> State {
    let state = State {
        read_free: state.read_free || !(setup.fallible || holds(state.scopes)),
        ..state
    };
    if setup.fallible && call.get_error is Some {
        leave(state, Some(Answer::Failure(call.get_error->0)))
    } else if served(setup, call, state.cache) {
        let answer = given_back(setup, state.cache[slot(setup, call)].answer);
        leave(State { cache: renewed(setup, call, state.cache), ..state }, Some(answer))
    } else {
        State { cache: left(call, state.cache), ..state }
    }
}

/// A write.
pub open spec fn put(setup: Setup, call: Call, state: State) -> State {
    if !storable(setup, call.answer) {
        state
    } else if setup.fallible && call.set_error is Some {
        leave(state, Some(Answer::Failure(call.set_error->0)))
    } else {
        State {
            cache: stored(setup, call, state.cache),
            write_free: state.write_free || !(setup.fallible || holds_exclusive(state.scopes)),
            ..state
        }
    }
}

/// Taking the lock: whoever holds it already waits for ever.
pub open spec fn take(state: State, guard: Guard) -> State {
    if holds(state.scopes) {
        State { stuck: true, ..state }
    } else {
        State {
            scopes: state.scopes.drop_last().push(guard),
            locks: state.locks + 1,
            ..state
        }
    }
}

/// One step. A call that has returned, or waits for ever, does nothing more.
pub open spec fn step(step: Step, setup: Setup, call: Call, state: State) -> State {
    if state.returned is Some || state.stuck {
        state
    } else {
        match step {
            Step::Open => State { scopes: state.scopes.push(Guard::Nothing), ..state },
            Step::Close => State { scopes: state.scopes.drop_last(), ..state },
            Step::Lock => take(state, Guard::Exclusive),
            Step::ReadLock => take(state, Guard::Shared),
            Step::Borrow => state,
            Step::Lookup => look_up(setup, call, state),
            Step::Call => State {
                result: Some(call.answer),
                runs: state.runs + 1,
                run_exclusive: holds_exclusive(state.scopes),
                run_free: !holds(state.scopes),
                ..state
            },
            Step::Store => put(setup, call, state),
            Step::Finish => leave(state, state.result),
        }
    }
}

/// All steps of a body.
pub open spec fn run(steps: Seq<Step>, setup: Setup, call: Call, state: State) -> State
    decreases steps.len(),
{
    if steps.len() == 0 {
        state
    } else {
        step(steps.last(), setup, call, run(steps.drop_last(), setup, call, state))
    }
}

// ---------------------------------------------------------------------------
// The functions of an expansion
// ---------------------------------------------------------------------------
/// An attribute, with its arguments.
pub enum Macro {
    Cached(MacroArgs),
    Once(OnceMacroArgs),
    Io(IOMacroArgs),
}

/// A lifespan of so many seconds.
pub open spec fn lifespan_of(time: Option<u64>) -> Option<int> {
    match time {
        None => None,
        Some(seconds) => Some(seconds * 1_000_000_000),
    }
}

/// How an attribute caches.
pub open spec fn setup_of(m: Macro) -> Setup {
    match m {
        Macro::Cached(args) => Setup {
            caching: caching_of(args.result, args.option),
            with_flag: args.with_cached_flag,
            bare: false,
            lifespan: lifespan_of(args.time),
            refresh: args.time_refresh,
            single: false,
            fallible: false,
        },
        Macro::Once(args) => Setup {
            caching: caching_of(args.result, args.option),
            with_flag: args.with_cached_flag,
            bare: false,
            lifespan: lifespan_of(args.time),
            refresh: false,
            single: true,
            fallible: false,
        },
        Macro::Io(args) => Setup {
            caching: Caching::OkOnly,
            with_flag: args.with_cached_flag,
            bare: true,
            lifespan: lifespan_of(args.time),
            refresh: args.time_refresh == Some(true),
            single: false,
            fallible: !in_memory(args),
        },
    }
}

/// Writes are synchronized.
pub open spec fn synced(m: Macro) -> bool {
    match m {
        Macro::Cached(args) => args.sync_writes,
        Macro::Once(args) => args.sync_writes,
        Macro::Io(_) => false,
    }
}

/// The steps of the function, or of the one that primes the cache.
pub open spec fn steps_of(m: Macro, prime: bool) -> Seq<Step> {
    match m {
        Macro::Cached(args) => if prime {
            prime_steps()
        } else {
            cached_steps(args.sync_writes)
        },
        Macro::Once(args) => if prime {
            prime_steps()
        } else {
            once_steps(args.sync_writes, args.time is Some)
        },
        Macro::Io(args) => if prime {
            io_prime_body(args)
        } else {
            io_body(args)
        },
    }
}

/// The end of a call of the function, or of the one that primes the cache.
pub open spec fn end_of(m: Macro, prime: bool, call: Call, cache: Map<int, Entry>) -> State {
    run(steps_of(m, prime), setup_of(m), call, begin(cache))
}

/// The texts of the steps and their meaning depend on the same parts of the
/// arguments: which results are cached, whether the flag is set and kept, whether
/// there is a lifespan, and whether the store can fail.
pub proof fn law_texts_follow_setup(
    args: MacroArgs,
    plan: CachedPlanView,
    once: OnceMacroArgs,
    once_plan: OncePlanView,
    io: IOMacroArgs,
    io_plan: IoPlanView,
    item: FnItemView,
)
    ensures
        ({
            let setup = setup_of(Macro::Cached(args));
            let texts = cached_texts(args, item, plan);
            &&& texts.lookup == "if let Some(result) = cache.cache_get(&key) { "@ + return_block(
                setup.caching,
                setup.with_flag,
            ) + " }"@
            &&& texts.store == set_block(setup.caching, "cache.cache_set(key, result.clone());"@)
        }),
        ({
            let setup = setup_of(Macro::Once(once));
            let texts = once_texts(once, item, once_plan);
            &&& texts.lookup == once_condition(once.time) + return_block(
                setup.caching,
                setup.with_flag,
            ) + " }"@
            &&& texts.store == set_block(setup.caching, once_write(once.time))
            &&& setup.lifespan is Some <==> once.time is Some
        }),
        ({
            let setup = setup_of(Macro::Io(io));
            let texts = io_texts(io, item, io_plan);
            let end = mapped(io, item.is_async, io_plan.map_error);
            &&& texts.lookup == "if let Some(result) = cache.cache_get(&key)"@ + end + " { "@
                + io_return_block(setup.with_flag) + " }"@
            &&& texts.store == set_block(
                setup.caching,
                io_cached_value(setup.bare && setup.with_flag) + end + ";"@,
            )
            &&& !setup.fallible ==> end == ""@
        }),
{
}

/// What follows the last step of a longer body.
proof fn lemma_run_push(steps: Seq<Step>, last: Step, setup: Setup, call: Call, state: State)
    ensures
        run(steps.push(last), setup, call, state) == step(
            last,
            setup,
            call,
            run(steps, setup, call, state),
        ),
{
    assert(steps.push(last).drop_last() == steps);
}

/// The scopes of a body, and what they hold.
pub(crate) proof fn lemma_scopes()
    ensures
        !holds(seq![Guard::Nothing]),
        !holds(seq![Guard::Nothing, Guard::Nothing]),
        !holds(Seq::<Guard>::empty()),
        holds(seq![Guard::Exclusive]),
        holds_exclusive(seq![Guard::Exclusive]),
        holds(seq![Guard::Nothing, Guard::Exclusive]),
        holds_exclusive(seq![Guard::Nothing, Guard::Exclusive]),
        holds(seq![Guard::Nothing, Guard::Shared]),
        seq![Guard::Nothing].push(Guard::Nothing) == seq![Guard::Nothing, Guard::Nothing],
        seq![Guard::Nothing].drop_last().push(Guard::Exclusive) == seq![Guard::Exclusive],
        seq![Guard::Nothing, Guard::Nothing].drop_last().push(Guard::Exclusive) == seq![
            Guard::Nothing,
            Guard::Exclusive,
        ],
        seq![Guard::Nothing, Guard::Nothing].drop_last().push(Guard::Shared) == seq![
            Guard::Nothing,
            Guard::Shared,
        ],
        seq![Guard::Nothing, Guard::Exclusive].drop_last() == seq![Guard::Nothing],
        seq![Guard::Nothing, Guard::Shared].drop_last() == seq![Guard::Nothing],
        seq![Guard::Nothing, Guard::Nothing].drop_last() == seq![Guard::Nothing],
{
    assert(seq![Guard::Exclusive][0] == Guard::Exclusive);
    assert(seq![Guard::Nothing, Guard::Exclusive][1] == Guard::Exclusive);
    assert(seq![Guard::Nothing, Guard::Shared][1] == Guard::Shared);
    assert(seq![Guard::Nothing].push(Guard::Nothing) =~= seq![Guard::Nothing, Guard::Nothing]);
    assert(seq![Guard::Nothing].drop_last().push(Guard::Exclusive) =~= seq![Guard::Exclusive]);
    assert(seq![Guard::Nothing, Guard::Nothing].drop_last() =~= seq![Guard::Nothing]);
    assert(seq![Guard::Nothing, Guard::Exclusive].drop_last() =~= seq![Guard::Nothing]);
    assert(seq![Guard::Nothing, Guard::Shared].drop_last() =~= seq![Guard::Nothing]);
}

/// The state in which a call ends that was served from the cache, after it took
/// `locks` locks.
spec fn hit(setup: Setup, call: Call, cache: Map<int, Entry>, locks: nat) -> State {
    State {
        cache: renewed(setup, call, cache),
        scopes: Seq::empty(),
        locks,
        returned: Some(given_back(setup, cache[slot(setup, call)].answer)),
        ..begin(cache)
    }
}

/// The state in which a call ends that ran the body, after it took `locks` locks.
spec fn miss(
    setup: Setup,
    call: Call,
    cache: Map<int, Entry>,
    locks: nat,
    exclusive: bool,
) -> State {
    let refused = setup.fallible && storable(setup, call.answer) && call.set_error is Some;
    State {
        cache: if refused {
            cache
        } else {
            stored(setup, call, cache)
        },
        scopes: Seq::empty(),
        locks,
        result: Some(call.answer),
        runs: 1,
        run_exclusive: exclusive,
        run_free: !exclusive,
        returned: if refused {
            Some(Answer::Failure(call.set_error->0))
        } else {
            Some(call.answer)
        },
        ..begin(cache)
    }
}

/// The end of every call of a function with a cache of many keys behind a lock.
proof fn lemma_cached(sync: bool, setup: Setup, call: Call, cache: Map<int, Entry>)
    requires
        !setup.fallible,
    ensures
        run(cached_steps(sync), setup, call, begin(cache)) == if served(setup, call, cache) {
            hit(setup, call, cache, 1)
        } else {
            miss(
                setup,
                call,
                left(call, cache),
                if sync {
                    1
                } else {
                    2
                },
                sync,
            )
        },
{
    let b = begin(cache);
    lemma_scopes();
    if sync {
        let s1 = seq![Step::Lock];
        let s2 = s1.push(Step::Lookup);
        let s3 = s2.push(Step::Call);
        let s4 = s3.push(Step::Store);
        lemma_run_push(Seq::empty(), Step::Lock, setup, call, b);
        lemma_run_push(s1, Step::Lookup, setup, call, b);
        lemma_run_push(s2, Step::Call, setup, call, b);
        lemma_run_push(s3, Step::Store, setup, call, b);
        lemma_run_push(s4, Step::Finish, setup, call, b);
        assert(cached_steps(true) =~= s4.push(Step::Finish));
    } else {
        let s1 = seq![Step::Open];
        let s2 = s1.push(Step::Lock);
        let s3 = s2.push(Step::Lookup);
        let s4 = s3.push(Step::Close);
        let s5 = s4.push(Step::Call);
        let s6 = s5.push(Step::Lock);
        let s7 = s6.push(Step::Store);
        lemma_run_push(Seq::empty(), Step::Open, setup, call, b);
        lemma_run_push(s1, Step::Lock, setup, call, b);
        lemma_run_push(s2, Step::Lookup, setup, call, b);
        lemma_run_push(s3, Step::Close, setup, call, b);
        lemma_run_push(s4, Step::Call, setup, call, b);
        lemma_run_push(s5, Step::Lock, setup, call, b);
        lemma_run_push(s6, Step::Store, setup, call, b);
        lemma_run_push(s7, Step::Finish, setup, call, b);
        assert(cached_steps(false) =~= s7.push(Step::Finish));
    }
}

/// The end of every call of the function under `once`.
proof fn lemma_once(sync: bool, timed: bool, setup: Setup, call: Call, cache: Map<int, Entry>)
    requires
        !setup.fallible,
    ensures
        run(once_steps(sync, timed), setup, call, begin(cache)) == if served(setup, call, cache) {
            hit(setup, call, cache, 1)
        } else {
            miss(setup, call, left(call, cache), 2, sync)
        },
{
    let b = begin(cache);
    lemma_scopes();
    let look = if timed {
        Step::Lock
    } else {
        Step::ReadLock
    };
    let s1 = seq![Step::Open];
    let s2 = s1.push(look);
    let s3 = s2.push(Step::Lookup);
    let s4 = s3.push(Step::Close);
    lemma_run_push(Seq::empty(), Step::Open, setup, call, b);
    lemma_run_push(s1, look, setup, call, b);
    lemma_run_push(s2, Step::Lookup, setup, call, b);
    lemma_run_push(s3, Step::Close, setup, call, b);
    if sync {
        let s5 = s4.push(Step::Lock);
        let s6 = s5.push(Step::Call);
        let s7 = s6.push(Step::Store);
        lemma_run_push(s4, Step::Lock, setup, call, b);
        lemma_run_push(s5, Step::Call, setup, call, b);
        lemma_run_push(s6, Step::Store, setup, call, b);
        lemma_run_push(s7, Step::Finish, setup, call, b);
        assert(once_steps(true, timed) =~= s7.push(Step::Finish));
    } else {
        let s5 = s4.push(Step::Call);
        let s6 = s5.push(Step::Lock);
        let s7 = s6.push(Step::Store);
        lemma_run_push(s4, Step::Call, setup, call, b);
        lemma_run_push(s5, Step::Lock, setup, call, b);
        lemma_run_push(s6, Step::Store, setup, call, b);
        lemma_run_push(s7, Step::Finish, setup, call, b);
        assert(once_steps(false, timed) =~= s7.push(Step::Finish));
    }
}

/// The end of every call of a function that primes a cache behind a lock.
proof fn lemma_prime(setup: Setup, call: Call, cache: Map<int, Entry>)
    requires
        !setup.fallible,
    ensures
        run(prime_steps(), setup, call, begin(cache)) == miss(setup, call, cache, 1, true),
{
    let b = begin(cache);
    lemma_scopes();
    let s1 = seq![Step::Lock];
    let s2 = s1.push(Step::Call);
    let s3 = s2.push(Step::Store);
    lemma_run_push(Seq::empty(), Step::Lock, setup, call, b);
    lemma_run_push(s1, Step::Call, setup, call, b);
    lemma_run_push(s2, Step::Store, setup, call, b);
    lemma_run_push(s3, Step::Finish, setup, call, b);
    assert(prime_steps() =~= s3.push(Step::Finish));
}

/// The end of every call of a function whose store can fail.
proof fn lemma_io(setup: Setup, call: Call, cache: Map<int, Entry>)
    requires
        setup.fallible,
    ensures
        run(io_steps(), setup, call, begin(cache)) == if call.get_error is Some {
            failed_read(call, cache)
        } else if served(setup, call, cache) {
            hit(setup, call, cache, 0)
        } else {
            miss(setup, call, left(call, cache), 0, false)
        },
        run(io_prime_steps(), setup, call, begin(cache)) == miss(setup, call, cache, 0, false),
{
    let b = begin(cache);
    lemma_scopes();
    let s1 = seq![Step::Open];
    let s2 = s1.push(Step::Borrow);
    let s3 = s2.push(Step::Lookup);
    let s4 = s3.push(Step::Close);
    let s5 = s4.push(Step::Call);
    let s6 = s5.push(Step::Borrow);
    let s7 = s6.push(Step::Store);
    lemma_run_push(Seq::empty(), Step::Open, setup, call, b);
    lemma_run_push(s1, Step::Borrow, setup, call, b);
    lemma_run_push(s2, Step::Lookup, setup, call, b);
    lemma_run_push(s3, Step::Close, setup, call, b);
    lemma_run_push(s4, Step::Call, setup, call, b);
    lemma_run_push(s5, Step::Borrow, setup, call, b);
    lemma_run_push(s6, Step::Store, setup, call, b);
    lemma_run_push(s7, Step::Finish, setup, call, b);
    assert(io_steps() =~= s7.push(Step::Finish));
    let p1 = seq![Step::Call];
    let p2 = p1.push(Step::Borrow);
    let p3 = p2.push(Step::Store);
    lemma_run_push(Seq::empty(), Step::Call, setup, call, b);
    lemma_run_push(p1, Step::Borrow, setup, call, b);
    lemma_run_push(p2, Step::Store, setup, call, b);
    lemma_run_push(p3, Step::Finish, setup, call, b);
    assert(io_prime_steps() =~= p3.push(Step::Finish));
}

/// The state in which a call ends that could not read the store.
spec fn failed_read(call: Call, cache: Map<int, Entry>) -> State {
    State {
        scopes: Seq::empty(),
        returned: Some(Answer::Failure(call.get_error->0)),
        ..begin(cache)
    }
}

/// The store cannot be read for the call.
pub open spec fn unreadable(m: Macro, call: Call) -> bool {
    setup_of(m).fallible && call.get_error is Some
}

/// The store refuses what the call would write.
pub open spec fn unwritable(m: Macro, call: Call) -> bool {
    &&& setup_of(m).fallible
    &&& call.set_error is Some
    &&& storable(setup_of(m), call.answer)
}

/// The end of every call.
proof fn lemma_end(m: Macro, prime: bool, call: Call, cache: Map<int, Entry>)
    ensures
        ({
            let setup = setup_of(m);
            let sync = synced(m);
            let end = end_of(m, prime, call, cache);
            if prime {
                end == miss(
                    setup,
                    call,
                    cache,
                    if setup.fallible {
                        0
                    } else {
                        1
                    },
                    !setup.fallible,
                )
            } else if unreadable(m, call) {
                end == failed_read(call, cache)
            } else if served(setup, call, cache) {
                end == hit(
                    setup,
                    call,
                    cache,
                    if setup.fallible {
                        0
                    } else {
                        1
                    },
                )
            } else {
                end == miss(
                    setup,
                    call,
                    left(call, cache),
                    if setup.fallible {
                        0
                    } else if sync && m is Cached {
                        1
                    } else {
                        2
                    },
                    sync,
                )
            }
        }),
{
    let setup = setup_of(m);
    match m {
        Macro::Cached(args) => {
            lemma_cached(args.sync_writes, setup, call, cache);
            lemma_prime(setup, call, cache);
        },
        Macro::Once(args) => {
            lemma_once(args.sync_writes, args.time is Some, setup, call, cache);
            lemma_prime(setup, call, cache);
        },
        Macro::Io(args) => if in_memory(args) {
            lemma_cached(false, setup, call, cache);
            lemma_prime(setup, call, cache);
        } else {
            lemma_io(setup, call, cache);
        },
    }
}

// ---------------------------------------------------------------------------
// What holds of every call
// ---------------------------------------------------------------------------
/// A call that the cache can serve returns the cached answer and runs nothing. It
/// leaves what the store has left alone, but for a lifespan that it renews.
pub proof fn law_hit(m: Macro, call: Call, cache: Map<int, Entry>)
    requires
        served(setup_of(m), call, cache),
        !unreadable(m, call),
    ensures
        ({
            let setup = setup_of(m);
            let end = end_of(m, false, call, cache);
            &&& end.runs == 0
            &&& end.returned == Some(given_back(setup, cache[slot(setup, call)].answer))
            &&& end.cache == renewed(setup, call, cache)
            &&& !setup.refresh || setup.lifespan is None ==> end.cache == left(call, cache)
        }),
{
    lemma_end(m, false, call, cache);
}

/// A call that the cache cannot serve runs the function once, returns what it
/// returned, and offers that to the cache.
pub proof fn law_miss(m: Macro, call: Call, cache: Map<int, Entry>)
    requires
        !served(setup_of(m), call, cache),
        !unreadable(m, call),
        !unwritable(m, call),
    ensures
        ({
            let end = end_of(m, false, call, cache);
            &&& end.runs == 1
            &&& end.cache == stored(setup_of(m), call, left(call, cache))
            &&& end.returned == Some(call.answer)
        }),
{
    lemma_end(m, false, call, cache);
}

/// What the store has after the lookup; a priming call makes none.
pub open spec fn looked_up(prime: bool, call: Call, cache: Map<int, Entry>) -> Map<int, Entry> {
    if prime {
        cache
    } else {
        left(call, cache)
    }
}

/// Under `result` and `option`, and always under `io_cached`, a failure (an `Err`,
/// a `None`) is never cached: neither a call nor a priming call that runs the
/// function and ends in one changes what the store has.
pub proof fn law_failures_are_not_cached(m: Macro, prime: bool, call: Call, cache: Map<int, Entry>)
    requires
        call.answer is Failure,
        match m {
            Macro::Cached(args) => args.result || args.option,
            Macro::Once(args) => args.result || args.option,
            Macro::Io(_) => true,
        },
    ensures
        end_of(m, prime, call, cache).runs == 1 ==> end_of(m, prime, call, cache).cache
            == looked_up(prime, call, cache),
        end_of(m, prime, call, cache).runs == 0 ==> end_of(m, prime, call, cache).cache == cache
            || end_of(m, prime, call, cache).cache == renewed(setup_of(m), call, cache),
{
    lemma_end(m, prime, call, cache);
}

/// Without `result` and `option`, whatever the function returns is cached, a
/// failure too.
pub proof fn law_everything_is_cached(m: Macro, prime: bool, call: Call, cache: Map<int, Entry>)
    requires
        match m {
            Macro::Cached(args) => !args.result && !args.option,
            Macro::Once(args) => !args.result && !args.option,
            Macro::Io(_) => false,
        },
        end_of(m, prime, call, cache).runs == 1,
    ensures
        end_of(m, prime, call, cache).cache == looked_up(prime, call, cache).insert(
            slot(setup_of(m), call),
            Entry { answer: call.answer, created: call.done },
        ).remove_keys(call.evicted),
{
    lemma_end(m, prime, call, cache);
}

/// A priming call runs the function whatever the cache holds, returns what it
/// returned, and offers that to the cache.
pub proof fn law_prime(m: Macro, call: Call, cache: Map<int, Entry>)
    requires
        !unwritable(m, call),
    ensures
        ({
            let end = end_of(m, true, call, cache);
            &&& end.runs == 1
            &&& end.cache == stored(setup_of(m), call, cache)
            &&& end.returned == Some(call.answer)
        }),
{
    lemma_end(m, true, call, cache);
}

/// Where the cached flag is asked for, it is set on every value that comes from
/// the cache. An answer that the function has just made keeps the flag that the
/// function gave it, and without the flag asked for, so does a cached one.
pub proof fn law_cached_flag(m: Macro, call: Call, cache: Map<int, Entry>)
    requires
        !unreadable(m, call),
        !unwritable(m, call),
    ensures
        ({
            let setup = setup_of(m);
            let end = end_of(m, false, call, cache);
            &&& end.runs == 0 && setup.with_flag ==> (end.returned matches Some(
                Answer::Value(item),
            ) ==> item.was_cached)
            &&& end.runs == 0 && !setup.with_flag ==> end.returned == Some(
                cache[slot(setup, call)].answer,
            )
            &&& end.runs == 1 ==> end.returned == Some(call.answer)
            &&& end.runs == 0 || end.runs == 1
        }),
{
    lemma_end(m, false, call, cache);
}

/// The second call comes within the lifespan of what the first one wrote.
pub open spec fn in_time(m: Macro, first: Call, second: Call) -> bool {
    setup_of(m).lifespan matches Some(lifespan) ==> 0 < lifespan && second.now - first.done
        < lifespan
}

/// The store does not drop what the first call wrote before the second one looks.
pub open spec fn keeps(m: Macro, first: Call, second: Call) -> bool {
    &&& !first.evicted.contains(slot(setup_of(m), first))
    &&& !second.lost.contains(slot(setup_of(m), second))
}

/// The store drops nothing of its own accord: it is built in, in memory, and has no
/// greatest size.
pub open spec fn keeps_all(m: Macro) -> bool {
    match m {
        Macro::Cached(args) => args.size is None && args.cache_type is None,
        Macro::Once(_) => true,
        Macro::Io(args) => in_memory(args),
    }
}

/// The call drops entries only where the store does.
pub open spec fn possible(m: Macro, call: Call) -> bool {
    keeps_all(m) ==> call.lost.is_empty() && call.evicted.is_empty()
}

/// A store that drops nothing keeps what a call wrote, and has all that it had at
/// every lookup.
pub proof fn law_keeps_all(m: Macro, first: Call, second: Call, cache: Map<int, Entry>)
    requires
        keeps_all(m),
        possible(m, first),
        possible(m, second),
    ensures
        keeps(m, first, second),
        left(first, cache) == cache,
        storable(setup_of(m), first.answer) ==> stored(setup_of(m), first, cache) == cache.insert(
            slot(setup_of(m), first),
            Entry { answer: kept(setup_of(m), first.answer), created: first.done },
        ),
{
    assert(left(first, cache) =~= cache);
    let entry = Entry { answer: kept(setup_of(m), first.answer), created: first.done };
    let after = cache.insert(slot(setup_of(m), first), entry);
    assert(after.remove_keys(first.evicted) =~= after);
}

/// A call that has cached an answer, or a priming call, serves the next call of the
/// same key within the lifespan, as long as the store keeps the entry: it returns
/// that answer, and runs nothing. Under `once` every call has the same key, so that
/// one value serves all arguments.
pub proof fn law_cached_then_served(
    m: Macro,
    prime: bool,
    first: Call,
    second: Call,
    cache: Map<int, Entry>,
)
    requires
        end_of(m, prime, first, cache).runs == 1,
        storable(setup_of(m), first.answer),
        !unwritable(m, first),
        !unreadable(m, second),
        slot(setup_of(m), second) == slot(setup_of(m), first),
        in_time(m, first, second),
        keeps(m, first, second),
    ensures
        ({
            let end = end_of(m, false, second, end_of(m, prime, first, cache).cache);
            &&& end.runs == 0
            &&& end.returned == Some(given_back(setup_of(m), first.answer))
        }),
{
    lemma_end(m, prime, first, cache);
    lemma_end(m, false, second, end_of(m, prime, first, cache).cache);
}

/// Of a function under `once`, one value serves the calls with any arguments.
pub proof fn law_once_serves_all_arguments(
    args: OnceMacroArgs,
    first: Call,
    second: Call,
    cache: Map<int, Entry>,
)
    requires
        end_of(Macro::Once(args), false, first, cache).runs == 1,
        storable(setup_of(Macro::Once(args)), first.answer),
        in_time(Macro::Once(args), first, second),
        possible(Macro::Once(args), first),
        possible(Macro::Once(args), second),
    ensures
        ({
            let m = Macro::Once(args);
            let end = end_of(m, false, second, end_of(m, false, first, cache).cache);
            &&& end.runs == 0
            &&& end.returned == Some(given_back(setup_of(m), first.answer))
        }),
{
    law_keeps_all(Macro::Once(args), first, second, cache);
    law_cached_then_served(Macro::Once(args), false, first, second, cache);
}

/// An entry that has reached its lifespan is not served: the function is run, and
/// what it returns takes the entry's place if it is one to cache.
pub proof fn law_expires(m: Macro, call: Call, cache: Map<int, Entry>)
    requires
        setup_of(m).lifespan is Some,
        cache.contains_key(slot(setup_of(m), call)),
        call.now - cache[slot(setup_of(m), call)].created >= setup_of(m).lifespan->0,
        !unreadable(m, call),
        !unwritable(m, call),
    ensures
        ({
            let end = end_of(m, false, call, cache);
            &&& end.runs == 1
            &&& end.returned == Some(call.answer)
            &&& end.cache == stored(setup_of(m), call, left(call, cache))
        }),
{
    lemma_end(m, false, call, cache);
}

/// Where hits renew the lifespan, a call that was served makes the entry last for
/// another lifespan, as long as the store keeps it.
pub proof fn law_refresh(m: Macro, first: Call, second: Call, cache: Map<int, Entry>)
    requires
        setup_of(m).refresh,
        setup_of(m).lifespan matches Some(lifespan) && second.now - first.now < lifespan,
        slot(setup_of(m), second) == slot(setup_of(m), first),
        served(setup_of(m), first, cache),
        !second.lost.contains(slot(setup_of(m), second)),
        !unreadable(m, first),
        !unreadable(m, second),
    ensures
        end_of(m, false, second, end_of(m, false, first, cache).cache).runs == 0,
        end_of(m, false, second, end_of(m, false, first, cache).cache).returned == end_of(
            m,
            false,
            first,
            cache,
        ).returned,
{
    lemma_end(m, false, first, cache);
    lemma_end(m, false, second, end_of(m, false, first, cache).cache);
}

/// A call writes nothing under another key than its own: what the cache then holds
/// there it held before, and only what the store drops is gone.
pub proof fn law_other_keys_untouched(
    m: Macro,
    prime: bool,
    call: Call,
    cache: Map<int, Entry>,
    key: int,
)
    requires
        key != slot(setup_of(m), call),
    ensures
        ({
            let after = end_of(m, prime, call, cache).cache;
            &&& after.contains_key(key) ==> cache.contains_key(key) && after[key] == cache[key]
            &&& cache.contains_key(key) && !call.lost.contains(key) && !call.evicted.contains(key)
                ==> after.contains_key(key)
        }),
{
    lemma_end(m, prime, call, cache);
}

/// An error of the store is the call's answer, mapped. Where reading fails the
/// function is not run; where writing fails it has run once. Nothing is written
/// either way. What is not written cannot fail to be written.
pub proof fn law_store_errors(m: Macro, call: Call, cache: Map<int, Entry>)
    ensures
        unreadable(m, call) ==> {
            let end = end_of(m, false, call, cache);
            &&& end.returned == Some(Answer::Failure(call.get_error->0))
            &&& end.runs == 0
            &&& end.cache == cache
        },
        unwritable(m, call) && !unreadable(m, call) && !served(setup_of(m), call, cache) ==> {
            let end = end_of(m, false, call, cache);
            &&& end.returned == Some(Answer::Failure(call.set_error->0))
            &&& end.runs == 1
            &&& end.cache == left(call, cache)
        },
        unwritable(m, call) ==> {
            let end = end_of(m, true, call, cache);
            &&& end.returned == Some(Answer::Failure(call.set_error->0))
            &&& end.runs == 1
            &&& end.cache == cache
        },
        !storable(setup_of(m), call.answer) ==> end_of(m, true, call, cache).returned == Some(
            call.answer,
        ),
{
    lemma_end(m, false, call, cache);
    lemma_end(m, true, call, cache);
}

/// The end of a call that used the lock of the cache as it must: it never asked
/// for a lock that it held, never read without the lock or wrote without the
/// exclusive one, has returned, and holds no lock any more.
pub open spec fn orderly(end: State) -> bool {
    &&& !end.stuck
    &&& !end.read_free
    &&& !end.write_free
    &&& end.returned is Some
    &&& end.scopes == Seq::<Guard>::empty()
}

/// Every call ends, and keeps to the lock.
pub proof fn law_orderly(m: Macro, prime: bool, call: Call, cache: Map<int, Entry>)
    ensures
        orderly(end_of(m, prime, call, cache)),
{
    lemma_end(m, prime, call, cache);
}

/// Synchronized writes: a function that is run is run under the exclusive lock, and
/// so it is by a priming call wherever there is a lock. Under `cached` the lookup is
/// made under the same lock, which is taken once; under `once` the lookup has a lock
/// of its own before.
pub proof fn law_sync_writes(m: Macro, call: Call, cache: Map<int, Entry>)
    ensures
        synced(m) && end_of(m, false, call, cache).runs == 1 ==> end_of(
            m,
            false,
            call,
            cache,
        ).run_exclusive,
        synced(m) && m is Cached ==> end_of(m, false, call, cache).locks == 1,
        synced(m) && m is Once && end_of(m, false, call, cache).runs == 1 ==> end_of(
            m,
            false,
            call,
            cache,
        ).locks == 2,
        !setup_of(m).fallible ==> end_of(m, true, call, cache).run_exclusive,
{
    lemma_end(m, false, call, cache);
    lemma_end(m, true, call, cache);
}

/// Without synchronized writes the call holds no lock while the function runs,
/// and neither does a call whose store needs none: a function may call itself.
pub proof fn law_runs_unlocked(m: Macro, call: Call, cache: Map<int, Entry>)
    ensures
        !synced(m) && end_of(m, false, call, cache).runs == 1 ==> end_of(
            m,
            false,
            call,
            cache,
        ).run_free,
        setup_of(m).fallible ==> end_of(m, true, call, cache).run_free,
{
    lemma_end(m, false, call, cache);
    lemma_end(m, true, call, cache);
}

/// Whether writes are synchronized changes nothing of what a call returns, of
/// how often it runs the function, or of what it leaves in the cache.
pub proof fn law_sync_writes_same_result(
    args: MacroArgs,
    once: OnceMacroArgs,
    call: Call,
    cache: Map<int, Entry>,
)
    ensures
        ({
            let one = end_of(
                Macro::Cached(MacroArgs { sync_writes: true, ..args }),
                false,
                call,
                cache,
            );
            let other = end_of(
                Macro::Cached(MacroArgs { sync_writes: false, ..args }),
                false,
                call,
                cache,
            );
            one.returned == other.returned && one.runs == other.runs && one.cache == other.cache
        }),
        ({
            let one = end_of(
                Macro::Once(OnceMacroArgs { sync_writes: true, ..once }),
                false,
                call,
                cache,
            );
            let other = end_of(
                Macro::Once(OnceMacroArgs { sync_writes: false, ..once }),
                false,
                call,
                cache,
            );
            one.returned == other.returned && one.runs == other.runs && one.cache == other.cache
        }),
{
    lemma_end(Macro::Cached(MacroArgs { sync_writes: true, ..args }), false, call, cache);
    lemma_end(Macro::Cached(MacroArgs { sync_writes: false, ..args }), false, call, cache);
    lemma_end(Macro::Once(OnceMacroArgs { sync_writes: true, ..once }), false, call, cache);
    lemma_end(Macro::Once(OnceMacroArgs { sync_writes: false, ..once }), false, call, cache);
}

// ---------------------------------------------------------------------------
// What holds of every history
// ---------------------------------------------------------------------------
/// A call of the function, or a priming call.
pub struct Event {
    pub prime: bool,
    pub call: Call,
}

/// The cache after a history of calls, where it was empty at first.
pub open spec fn cache_after(m: Macro, history: Seq<Event>) -> Map<int, Entry>
    decreases history.len(),
{
    if history.len() == 0 {
        Map::empty()
    } else {
        let last = history.last();
        end_of(m, last.prime, last.call, cache_after(m, history.drop_last())).cache
    }
}

/// Whatever the history, an entry of the cache holds what the function returned to
/// one of the calls with that key, and that was one to cache.
pub proof fn law_entries_come_from_calls(m: Macro, history: Seq<Event>, key: int)
    requires
        cache_after(m, history).contains_key(key),
    ensures
        exists|i: int|
            0 <= i < history.len() && slot(setup_of(m), (#[trigger] history[i]).call) == key
                && storable(setup_of(m), history[i].call.answer) && cache_after(
                m,
                history,
            )[key].answer == kept(setup_of(m), history[i].call.answer),
    decreases history.len(),
{
    if history.len() > 0 {
        let setup = setup_of(m);
        let last = history.last();
        let rest = history.drop_last();
        let before = cache_after(m, rest);
        let after = cache_after(m, history);
        lemma_end(m, last.prime, last.call, before);
        if before.contains_key(key) && before[key].answer == after[key].answer {
            law_entries_come_from_calls(m, rest, key);
            let i = choose|i: int|
                0 <= i < rest.len() && slot(setup, (#[trigger] rest[i]).call) == key && storable(
                    setup,
                    rest[i].call.answer,
                ) && before[key].answer == kept(setup, rest[i].call.answer);
            assert(history[i] == rest[i]);
        } else {
            assert(history[history.len() - 1] == last);
        }
    }
}

} // verus!
