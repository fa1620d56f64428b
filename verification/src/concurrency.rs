//! Calls that run at the same time: what holds of every way in which the steps of
//! their bodies can come one after the other.
//!
//! Each thread makes one call. A thread that asks for a lock that others hold
//! waits. The run of a function's body has a beginning and an end, between which
//! other threads may go on.

use crate::args::MacroArgs;
use crate::meaning::{
    begin, fresh, given_back, holds, holds_exclusive, lemma_scopes, renewed, served, setup_of,
    slot, step, steps_of, storable, synced, Entry, Event, Guard, Macro, State,
};
use crate::steps::Step;
use vstd::prelude::*;

verus! {

// ---------------------------------------------------------------------------
// Worlds
// ---------------------------------------------------------------------------
/// A thread that makes one call.
pub struct Thread {
    pub event: Event,
    /// The index of the next step.
    pub next: int,
    /// The body of the function is running.
    pub running: bool,
    pub state: State,
}

/// All threads, and the cache that they share.
pub struct World {
    pub cache: Map<int, Entry>,
    pub threads: Seq<Thread>,
}

/// The world in which all calls begin.
pub open spec fn start(cache: Map<int, Entry>, events: Seq<Event>) -> World {
    World {
        cache,
        threads: Seq::new(
            events.len(),
            |i: int|
                Thread { event: events[i], next: 0, running: false, state: begin(cache) },
        ),
    }
}

/// A thread other than `i` holds the lock.
pub open spec fn held_by_other(w: World, i: int) -> bool {
    exists|j: int| 0 <= j < w.threads.len() && j != i && holds(#[trigger] w.threads[j].state.scopes)
}

/// A thread other than `i` holds the lock for writing.
pub open spec fn written_by_other(w: World, i: int) -> bool {
    exists|j: int|
        0 <= j < w.threads.len() && j != i && holds_exclusive(
            #[trigger] w.threads[j].state.scopes,
        )
}

/// The thread `i` has to wait before this step.
pub open spec fn waits(w: World, i: int, next: Step) -> bool {
    match next {
        Step::Lock => held_by_other(w, i),
        Step::ReadLock => written_by_other(w, i),
        _ => false,
    }
}

/// The call of a thread is not over, and this is its next step.
pub open spec fn is_at(m: Macro, t: Thread, next: Step) -> bool {
    let steps = steps_of(m, t.event.prime);
    &&& t.state.returned is None
    &&& 0 <= t.next < steps.len()
    &&& steps[t.next] == next
}

/// The thread `i` goes on, if it can.
pub open spec fn advance(m: Macro, w: World, i: int) -> World {
    if !(0 <= i < w.threads.len()) {
        w
    } else {
        let t = w.threads[i];
        let steps = steps_of(m, t.event.prime);
        if t.state.returned is Some || !(0 <= t.next < steps.len()) || waits(w, i, steps[t.next]) {
            w
        } else if steps[t.next] == Step::Call && !t.running {
            World { threads: w.threads.update(i, Thread { running: true, ..t }), ..w }
        } else {
            let after = step(
                steps[t.next],
                setup_of(m),
                t.event.call,
                State { cache: w.cache, ..t.state },
            );
            World {
                cache: after.cache,
                threads: w.threads.update(
                    i,
                    Thread { next: t.next + 1, running: false, state: after, ..t },
                ),
            }
        }
    }
}

/// The threads go on in the order of a schedule.
pub open spec fn play(m: Macro, w: World, schedule: Seq<int>) -> World
    decreases schedule.len(),
{
    if schedule.len() == 0 {
        w
    } else {
        advance(m, play(m, w, schedule.drop_last()), schedule.last())
    }
}

// ---------------------------------------------------------------------------
// What each thread holds at each step
// ---------------------------------------------------------------------------
/// The scopes of a call that is not over, after the first `n` steps.
spec fn held(steps: Seq<Step>, n: int) -> Seq<Guard>
    decreases n,
{
    if n <= 0 {
        seq![Guard::Nothing]
    } else {
        let before = held(steps, n - 1);
        match steps[n - 1] {
            Step::Open => before.push(Guard::Nothing),
            Step::Close => before.drop_last(),
            Step::Lock => before.drop_last().push(Guard::Exclusive),
            Step::ReadLock => before.drop_last().push(Guard::Shared),
            _ => before,
        }
    }
}

/// The step takes the lock.
spec fn is_lock(s: Step) -> bool {
    s == Step::Lock || s == Step::ReadLock
}

/// The steps take and use the lock in order: the lock is asked for only where it
/// is not held, gained only by asking, held by whoever looks up, held for writing
/// by whoever writes, and the last step gives the result of a run back.
spec fn in_order(steps: Seq<Step>, n: int) -> bool {
    &&& is_lock(steps[n]) ==> !holds(held(steps, n))
    &&& !is_lock(steps[n]) && holds(held(steps, n + 1)) ==> holds(held(steps, n))
    &&& !is_lock(steps[n]) && holds_exclusive(held(steps, n + 1)) ==> holds_exclusive(
        held(steps, n),
    )
    &&& steps[n] == Step::ReadLock ==> !holds_exclusive(held(steps, n + 1))
    &&& steps[n] == Step::Lookup ==> holds(held(steps, n))
    &&& steps[n] == Step::Store ==> holds_exclusive(held(steps, n))
    &&& steps[n] == Step::Finish <==> n == steps.len() - 1
    &&& holds_exclusive(held(steps, n)) ==> holds(held(steps, n))
}

/// Where the body is run in these steps.
spec fn call_index(m: Macro, prime: bool) -> int {
    if prime {
        1
    } else if m is Cached && synced(m) {
        2
    } else if synced(m) {
        5
    } else {
        4
    }
}

/// The steps of a function behind a lock are in order, and run the body once;
/// where writes are synchronized, and in a priming call, under the exclusive lock.
proof fn lemma_in_order(m: Macro, prime: bool, n: int)
    requires
        !setup_of(m).fallible,
        0 <= n < steps_of(m, prime).len(),
    ensures
        ({
            let steps = steps_of(m, prime);
            &&& in_order(steps, n)
            &&& steps[n] == Step::Call <==> n == call_index(m, prime)
            &&& call_index(m, prime) < steps.len() - 1
            &&& synced(m) || prime ==> holds_exclusive(held(steps, call_index(m, prime)))
        }),
{
    let steps = steps_of(m, prime);
    lemma_scopes();
    reveal_with_fuel(held, 9);
    assert(!holds_exclusive(seq![Guard::Nothing, Guard::Shared])) by {
        assert(seq![Guard::Nothing, Guard::Shared][0] == Guard::Nothing);
    }
    if prime {
        assert(steps.len() == 4);
        assert(held(steps, 1) == seq![Guard::Exclusive]);
    } else if m is Cached && synced(m) {
        assert(steps.len() == 5);
        assert(held(steps, 1) == seq![Guard::Exclusive]);
    } else {
        assert(steps.len() == 8);
        assert(held(steps, 1) == seq![Guard::Nothing, Guard::Nothing]);
        assert(held(steps, 4) == seq![Guard::Nothing]);
        assert(held(steps, 5) == seq![Guard::Nothing] || held(steps, 5) == seq![Guard::Exclusive]);
        assert(held(steps, 6) == seq![Guard::Exclusive]);
    }
}

// ---------------------------------------------------------------------------
// What holds in every world
// ---------------------------------------------------------------------------
/// A thread is where its steps have brought it.
spec fn thread_in_order(m: Macro, t: Thread) -> bool {
    let steps = steps_of(m, t.event.prime);
    &&& !t.state.stuck
    &&& t.next >= 0
    &&& t.state.returned is Some ==> t.state.scopes == Seq::<Guard>::empty()
    &&& t.state.returned is None ==> t.next < steps.len() && t.state.scopes == held(steps, t.next)
    &&& t.next > call_index(m, t.event.prime) ==> t.state.returned is Some || t.state.result is Some
    &&& t.running ==> is_at(m, t, Step::Call)
}

/// All threads are where their steps have brought them, and who holds the lock for
/// writing holds it alone.
spec fn world_in_order(m: Macro, w: World) -> bool {
    &&& forall|i: int|
        0 <= i < w.threads.len() ==> thread_in_order(m, #[trigger] w.threads[i])
    &&& forall|i: int, j: int|
        0 <= i < w.threads.len() && 0 <= j < w.threads.len() && i != j && holds_exclusive(
            (#[trigger] w.threads[i]).state.scopes,
        ) ==> !holds((#[trigger] w.threads[j]).state.scopes)
}

/// One step of a thread keeps it in order.
proof fn lemma_thread(m: Macro, w: World, i: int)
    requires
        !setup_of(m).fallible,
        0 <= i < w.threads.len(),
        thread_in_order(m, w.threads[i]),
    ensures
        ({
            let t = w.threads[i];
            let u = advance(m, w, i).threads[i];
            let steps = steps_of(m, t.event.prime);
            &&& thread_in_order(m, u)
            &&& u.event == t.event
            &&& holds(u.state.scopes) && !holds(t.state.scopes) ==> is_lock(steps[t.next])
                && !waits(w, i, steps[t.next]) && t.state.returned is None
            &&& holds_exclusive(u.state.scopes) && !holds_exclusive(t.state.scopes)
                ==> steps[t.next] == Step::Lock && !waits(w, i, steps[t.next]) && t.state.returned is None
        }),
{
    let t = w.threads[i];
    let steps = steps_of(m, t.event.prime);
    lemma_scopes();
    assert(!holds_exclusive(Seq::<Guard>::empty()));
    if t.state.returned is None {
        lemma_in_order(m, t.event.prime, t.next);
        assert(held(steps, t.next + 1) == match steps[t.next] {
            Step::Open => held(steps, t.next).push(Guard::Nothing),
            Step::Close => held(steps, t.next).drop_last(),
            Step::Lock => held(steps, t.next).drop_last().push(Guard::Exclusive),
            Step::ReadLock => held(steps, t.next).drop_last().push(Guard::Shared),
            _ => held(steps, t.next),
        });
    }
}

/// One step of a thread keeps the world in order.
proof fn lemma_advance(m: Macro, w: World, i: int)
    requires
        !setup_of(m).fallible,
        world_in_order(m, w),
    ensures
        world_in_order(m, advance(m, w, i)),
        advance(m, w, i).threads.len() == w.threads.len(),
        forall|j: int|
            0 <= j < w.threads.len() && j != i ==> #[trigger] advance(m, w, i).threads[j]
                == w.threads[j],
{
    if 0 <= i < w.threads.len() {
        let v = advance(m, w, i);
        let t = w.threads[i];
        let steps = steps_of(m, t.event.prime);
        lemma_thread(m, w, i);
        assert forall|j: int| 0 <= j < v.threads.len() implies thread_in_order(
            m,
            #[trigger] v.threads[j],
        ) by {
            if j != i {
                assert(v.threads[j] == w.threads[j]);
            }
        }
        assert forall|j: int, k: int|
            0 <= j < v.threads.len() && 0 <= k < v.threads.len() && j != k && holds_exclusive(
                (#[trigger] v.threads[j]).state.scopes,
            ) implies !holds((#[trigger] v.threads[k]).state.scopes) by {
            if j != i && k != i {
                assert(v.threads[j] == w.threads[j] && v.threads[k] == w.threads[k]);
            } else if j == i {
                assert(v.threads[k] == w.threads[k]);
                if holds(w.threads[k].state.scopes) {
                    assert(holds_exclusive(t.state.scopes) ==> false);
                    assert(held_by_other(w, i));
                }
            } else {
                assert(v.threads[j] == w.threads[j]);
                if holds(v.threads[i].state.scopes) {
                    assert(!holds(t.state.scopes));
                    assert(holds(w.threads[j].state.scopes)) by {
                        let g = choose|g: int|
                            0 <= g < w.threads[j].state.scopes.len()
                                && #[trigger] w.threads[j].state.scopes[g] == Guard::Exclusive;
                        assert(w.threads[j].state.scopes[g] != Guard::Nothing);
                    }
                    assert(held_by_other(w, i));
                    assert(written_by_other(w, i));
                }
            }
        }
    }
}

/// Every world that calls can come to is in order.
proof fn lemma_play(m: Macro, cache: Map<int, Entry>, events: Seq<Event>, schedule: Seq<int>)
    requires
        !setup_of(m).fallible,
    ensures
        world_in_order(m, play(m, start(cache, events), schedule)),
        play(m, start(cache, events), schedule).threads.len() == events.len(),
    decreases schedule.len(),
{
    if schedule.len() == 0 {
        lemma_scopes();
        let w = start(cache, events);
        assert(!holds_exclusive(seq![Guard::Nothing])) by {
            assert(seq![Guard::Nothing][0] == Guard::Nothing);
        }
        assert forall|i: int| 0 <= i < w.threads.len() implies thread_in_order(
            m,
            #[trigger] w.threads[i],
        ) by {
            lemma_in_order(m, events[i].prime, 0);
        }
    } else {
        lemma_play(m, cache, events, schedule.drop_last());
        lemma_advance(m, play(m, start(cache, events), schedule.drop_last()), schedule.last());
    }
}

/// Of calls and priming calls of a function whose writes are synchronized, no two
/// runs of the body overlap, and while one runs, no other call looks into the cache
/// or writes to it.
pub proof fn law_synced_runs_do_not_overlap(
    m: Macro,
    cache: Map<int, Entry>,
    events: Seq<Event>,
    schedule: Seq<int>,
    i: int,
    j: int,
)
    requires
        synced(m),
        0 <= i < events.len(),
        0 <= j < events.len(),
        i != j,
        play(m, start(cache, events), schedule).threads[i].running,
    ensures
        ({
            let other = play(m, start(cache, events), schedule).threads[j];
            &&& !other.running
            &&& !is_at(m, other, Step::Lookup)
            &&& !is_at(m, other, Step::Store)
        }),
{
    let w = play(m, start(cache, events), schedule);
    lemma_play(m, cache, events, schedule);
    let t = w.threads[i];
    let u = w.threads[j];
    assert(thread_in_order(m, t) && thread_in_order(m, u));
    lemma_in_order(m, t.event.prime, t.next);
    assert(holds_exclusive(t.state.scopes));
    if u.state.returned is None {
        lemma_in_order(m, u.event.prime, u.next);
    }
}

/// Calls do not wait for each other for ever: as long as the call of one thread is
/// not over, some thread can go on.
pub proof fn law_no_deadlock(
    m: Macro,
    cache: Map<int, Entry>,
    events: Seq<Event>,
    schedule: Seq<int>,
    i: int,
)
    requires
        !setup_of(m).fallible,
        0 <= i < events.len(),
        play(m, start(cache, events), schedule).threads[i].state.returned is None,
    ensures
        ({
            let w = play(m, start(cache, events), schedule);
            exists|j: int| 0 <= j < events.len() && #[trigger] advance(m, w, j) != w
        }),
{
    let w = play(m, start(cache, events), schedule);
    lemma_play(m, cache, events, schedule);
    lemma_scopes();
    let j = if held_by_other(w, i) {
        choose|j: int|
            0 <= j < w.threads.len() && j != i && holds(#[trigger] w.threads[j].state.scopes)
    } else {
        i
    };
    let t = w.threads[j];
    let steps = steps_of(m, t.event.prime);
    assert(thread_in_order(m, t));
    lemma_in_order(m, t.event.prime, t.next);
    if written_by_other(w, i) {
        let k = choose|k: int|
            0 <= k < w.threads.len() && k != i && holds_exclusive(
                #[trigger] w.threads[k].state.scopes,
            );
        let g = choose|g: int|
            0 <= g < w.threads[k].state.scopes.len() && #[trigger] w.threads[k].state.scopes[g]
                == Guard::Exclusive;
        assert(w.threads[k].state.scopes[g] != Guard::Nothing);
        assert(held_by_other(w, i));
    }
    assert(!waits(w, j, steps[t.next]));
    let v = advance(m, w, j);
    assert(v.threads[j].next != t.next || v.threads[j].running != t.running);
}

// ---------------------------------------------------------------------------
// Synchronized calls of one key
// ---------------------------------------------------------------------------
/// How many times the body was run in all.
pub open spec fn total_runs(threads: Seq<Thread>) -> nat
    decreases threads.len(),
{
    if threads.len() == 0 {
        0
    } else {
        total_runs(threads.drop_last()) + threads.last().state.runs
    }
}

/// All calls are over.
pub open spec fn all_returned(threads: Seq<Thread>) -> bool {
    forall|i: int| 0 <= i < threads.len() ==> (#[trigger] threads[i]).state.returned is Some
}

/// Where only one thread may have run the body, the runs are those of that thread.
proof fn lemma_total(threads: Seq<Thread>, x: int)
    requires
        forall|i: int|
            0 <= i < threads.len() && i != x ==> (#[trigger] threads[i]).state.runs == 0,
    ensures
        total_runs(threads) == if 0 <= x < threads.len() {
            threads[x].state.runs
        } else {
            0
        },
    decreases threads.len(),
{
    if threads.len() > 0 {
        let rest = threads.drop_last();
        assert forall|i: int| 0 <= i < rest.len() && i != x implies (#[trigger] rest[i]).state.runs
            == 0 by {
            assert(rest[i] == threads[i]);
        }
        lemma_total(rest, x);
        assert(threads.last() == threads[threads.len() - 1]);
    }
}

/// The calls are all of the function itself, of one key that is not cached, their
/// results are ones to cache, and the store does not drop the entry of that key.
pub open spec fn calls_of_one_key(
    m: Macro,
    cache: Map<int, Entry>,
    events: Seq<Event>,
    key: int,
) -> bool {
    &&& !cache.contains_key(key)
    &&& forall|i: int|
        0 <= i < events.len() ==> {
            let event = #[trigger] events[i];
            &&& !event.prime
            &&& event.call.key == key
            &&& storable(setup_of(m), event.call.answer)
            &&& !event.call.lost.contains(key)
            &&& !event.call.evicted.contains(key)
        }
}

/// Every call looks up within the lifespan of every write, if there is a lifespan,
/// and where hits renew it, of every lookup.
pub open spec fn calls_in_time(m: Macro, events: Seq<Event>) -> bool {
    forall|i: int, j: int|
        0 <= i < events.len() && 0 <= j < events.len() ==> {
            let one = (#[trigger] events[i]).call;
            let other = (#[trigger] events[j]).call;
            setup_of(m).lifespan matches Some(lifespan) ==> {
                &&& 0 < lifespan
                &&& other.now - one.done < lifespan
                &&& setup_of(m).refresh ==> other.now - one.now < lifespan
            }
        }
}

/// Nobody has run the body (no winner), or the winner has, once.
spec fn one_run(m: Macro, w: World, events: Seq<Event>, key: int, winner: Option<int>) -> bool {
    &&& w.threads.len() == events.len()
    &&& forall|i: int|
        0 <= i < events.len() ==> {
            let t = #[trigger] w.threads[i];
            &&& t.event == events[i]
            &&& winner != Some(i) ==> t.state.runs == 0
        }
    &&& match winner {
        None => {
            &&& !w.cache.contains_key(key)
            &&& forall|i: int|
                0 <= i < events.len() ==> {
                    let t = #[trigger] w.threads[i];
                    t.state.returned is None && t.next <= 2
                }
        },
        Some(x) => {
            let first = w.threads[x];
            let answer = events[x].call.answer;
            &&& 0 <= x < events.len()
            &&& first.state.runs == 1
            &&& first.next >= 3
            &&& first.state.result == Some(answer)
            &&& first.next == 3 ==> {
                &&& first.state.returned is None
                &&& !w.cache.contains_key(key)
                &&& forall|i: int|
                    0 <= i < events.len() && i != x ==> {
                        let t = #[trigger] w.threads[i];
                        t.state.returned is None && t.next <= 2
                    }
            }
            &&& first.next >= 4 ==> {
                &&& first.state.returned is Some ==> first.state.returned == Some(answer)
                &&& w.cache.contains_key(key)
                &&& w.cache[key].answer == answer
                &&& forall|i: int|
                    0 <= i < events.len() ==> fresh(
                        setup_of(m),
                        w.cache[key],
                        (#[trigger] events[i]).call.now,
                    )
                &&& forall|i: int|
                    0 <= i < events.len() && i != x ==> {
                        let t = #[trigger] w.threads[i];
                        &&& t.state.returned is None ==> t.next <= 1
                        &&& t.state.returned is Some ==> t.state.returned == Some(
                            given_back(setup_of(m), answer),
                        )
                    }
            }
        },
    }
}

/// One step of a thread adds no second run.
proof fn lemma_one_run(
    args: MacroArgs,
    w: World,
    events: Seq<Event>,
    key: int,
    winner: Option<int>,
    i: int,
) -> (next: Option<int>)
    requires
        args.sync_writes,
        calls_of_one_key(Macro::Cached(args), Map::empty(), events, key),
        calls_in_time(Macro::Cached(args), events),
        world_in_order(Macro::Cached(args), w),
        one_run(Macro::Cached(args), w, events, key, winner),
    ensures
        one_run(
            Macro::Cached(args),
            advance(Macro::Cached(args), w, i),
            events,
            key,
            next,
        ),
{
    let m = Macro::Cached(args);
    let v = advance(m, w, i);
    lemma_advance(m, w, i);
    if 0 <= i < w.threads.len() {
        let t = w.threads[i];
        let u = v.threads[i];
        let steps = steps_of(m, false);
        assert(steps =~= seq![Step::Lock, Step::Lookup, Step::Call, Step::Store, Step::Finish]);
        assert(events[i].call.key == key && !events[i].prime);
        assert(t.event == events[i]);
        assert(slot(setup_of(m), t.event.call) == key);
        lemma_scopes();
        reveal_with_fuel(held, 5);
        assert(thread_in_order(m, t));
        // Who is beyond the first step of a call that is not over holds the lock.
        assert forall|j: int|
            0 <= j < events.len() && (#[trigger] w.threads[j]).state.returned is None
                && w.threads[j].next >= 1 implies holds(w.threads[j].state.scopes)
            && holds_exclusive(w.threads[j].state.scopes) by {
            assert(thread_in_order(m, w.threads[j]));
            assert(!events[j].prime);
        }
        match winner {
            None => {
                if t.next == 2 && t.running {
                    assert(u.state.runs == 1 && u.next == 3);
                    Some(i)
                } else {
                    assert(!v.cache.contains_key(key));
                    assert(u.state.returned is None && u.next <= 2);
                    None
                }
            },
            Some(x) => {
                if w.threads[x].next == 3 {
                    assert(holds_exclusive(w.threads[x].state.scopes));
                    assert forall|j: int| 0 <= j < events.len() && j != x implies (
                    #[trigger] w.threads[j]).next <= 0 by {
                        assert(!holds(w.threads[j].state.scopes));
                    }
                    if i != x {
                        assert(t.next == 0);
                        assert(held_by_other(w, i));
                        assert(v == w);
                    }
                } else if i != x {
                    assert(v.threads[x] == w.threads[x]);
                    if t.state.returned is None && t.next == 1 {
                        assert(served(setup_of(m), t.event.call, w.cache));
                        assert(v.cache == renewed(setup_of(m), t.event.call, w.cache));
                    }
                }
                winner
            },
        }
    } else {
        winner
    }
}

/// Synchronized calls of one key that is not cached run the function once in all.
/// They may be any number, and come at the same time: the lock is held from the
/// lookup to the write. When all are over, one has run the function and returned
/// its result, and all others have returned that result from the cache. This holds
/// as long as the store keeps the entry: it does not drop it of its own accord, and
/// the calls come within its lifespan, if it has one.
pub proof fn law_synced_calls_run_once(
    args: MacroArgs,
    cache: Map<int, Entry>,
    events: Seq<Event>,
    key: int,
    schedule: Seq<int>,
)
    requires
        args.sync_writes,
        calls_of_one_key(Macro::Cached(args), cache, events, key),
        calls_in_time(Macro::Cached(args), events),
    ensures
        ({
            let m = Macro::Cached(args);
            let threads = play(m, start(cache, events), schedule).threads;
            &&& total_runs(threads) <= 1
            &&& all_returned(threads) && events.len() > 0 ==> {
                &&& total_runs(threads) == 1
                &&& exists|x: int|
                    0 <= x < events.len() && (#[trigger] threads[x]).state.runs == 1
                        && threads[x].state.returned == Some(events[x].call.answer) && (forall|
                        j: int,
                    |
                        0 <= j < events.len() && j != x ==> (#[trigger] threads[j]).state.runs == 0
                            && threads[j].state.returned == Some(
                            given_back(setup_of(m), events[x].call.answer),
                        ))
            }
        }),
{
    let m = Macro::Cached(args);
    let w = play(m, start(cache, events), schedule);
    let winner = lemma_winner(args, cache, events, key, schedule);
    match winner {
        None => {
            lemma_total(w.threads, -1);
            if events.len() > 0 {
                assert(w.threads[0].state.returned is None);
            }
        },
        Some(x) => {
            lemma_total(w.threads, x);
            if all_returned(w.threads) {
                assert(w.threads[x].state.returned is Some);
            }
        },
    }
}

/// Every world that synchronized calls of one key can come to has at most one run.
proof fn lemma_winner(
    args: MacroArgs,
    cache: Map<int, Entry>,
    events: Seq<Event>,
    key: int,
    schedule: Seq<int>,
) -> (winner: Option<int>)
    requires
        args.sync_writes,
        calls_of_one_key(Macro::Cached(args), cache, events, key),
        calls_in_time(Macro::Cached(args), events),
    ensures
        one_run(
            Macro::Cached(args),
            play(Macro::Cached(args), start(cache, events), schedule),
            events,
            key,
            winner,
        ),
    decreases schedule.len(),
{
    let m = Macro::Cached(args);
    if schedule.len() == 0 {
        None
    } else {
        let rest = schedule.drop_last();
        let before = lemma_winner(args, cache, events, key, rest);
        lemma_play(m, cache, events, rest);
        lemma_one_run(
            args,
            play(m, start(cache, events), rest),
            events,
            key,
            before,
            schedule.last(),
        )
    }
}

} // verus!
