use cached_proc_macro::steps::{
    lay_out_cached, lay_out_io, lay_out_io_prime, lay_out_once, lay_out_prime, write_body, Step,
    StepTexts,
};
use std::collections::BTreeMap;

/// How a function is cached.
#[derive(Clone, Copy)]
struct Setup {
    /// Failures are not cached.
    values_only: bool,
    with_flag: bool,
    lifespan: Option<u64>,
    refresh: bool,
    fallible: bool,
    /// The most entries that the store keeps.
    size: Option<usize>,
}

const PLAIN: Setup = Setup {
    values_only: false,
    with_flag: false,
    lifespan: None,
    refresh: false,
    fallible: false,
    size: None,
};
const RESULT: Setup = Setup { values_only: true, ..PLAIN };
const IO: Setup = Setup { fallible: true, ..RESULT };

/// A call: its key, what the body would answer, the time, and the errors of the
/// store.
#[derive(Clone, Copy)]
struct Call {
    key: u64,
    answer: Result<u64, u64>,
    now: u64,
    get_error: Option<u64>,
    set_error: Option<u64>,
}

fn call(key: u64, answer: Result<u64, u64>) -> Call {
    Call { key, answer, now: 0, get_error: None, set_error: None }
}

/// The cached answers, with the time of their making.
type Cache = BTreeMap<u64, (Result<u64, u64>, u64)>;

/// A thread that makes one call.
struct Thread {
    steps: Vec<Step>,
    call: Call,
    next: usize,
    running: bool,
    /// What each scope holds: the lock, for writing or not.
    scopes: Vec<Option<bool>>,
    /// What the call returned; a value with its flag.
    returned: Option<Result<(u64, bool), u64>>,
    runs: u32,
    run_locked: bool,
    locks: u32,
}

fn thread(steps: Vec<Step>, call: Call) -> Thread {
    Thread {
        steps,
        call,
        next: 0,
        running: false,
        scopes: vec![None],
        returned: None,
        runs: 0,
        run_locked: false,
        locks: 0,
    }
}

fn held(t: &Thread) -> Option<bool> {
    t.scopes.iter().flatten().next().copied()
}

/// Lets a thread go on; false where it waits or is done.
fn advance(threads: &mut Vec<Thread>, i: usize, setup: Setup, cache: &mut Cache) -> bool {
    let others: Vec<Option<bool>> =
        (0..threads.len()).filter(|j| *j != i).map(|j| held(&threads[j])).collect();
    let t = &mut threads[i];
    if t.returned.is_some() {
        return false;
    }
    let step = t.steps[t.next];
    let own = held(t);
    match step {
        Step::Lock if others.iter().any(|g| g.is_some()) => return false,
        Step::ReadLock if others.iter().any(|g| *g == Some(true)) => return false,
        Step::Call if !t.running => {
            t.running = true;
            return true;
        }
        _ => {}
    }
    t.next += 1;
    t.running = false;
    match step {
        Step::Open => t.scopes.push(None),
        Step::Close => {
            t.scopes.pop();
        }
        Step::Lock | Step::ReadLock => {
            assert_eq!(own, None, "the lock is taken twice");
            *t.scopes.last_mut().unwrap() = Some(step == Step::Lock);
            t.locks += 1;
        }
        Step::Borrow => {}
        Step::Lookup => {
            assert!(setup.fallible || own.is_some());
            if setup.fallible && t.call.get_error.is_some() {
                t.returned = Some(Err(t.call.get_error.unwrap()));
            } else if let Some((answer, created)) = cache.get(&t.call.key).copied() {
                if setup.lifespan.map_or(true, |l| t.call.now - created < l) {
                    t.returned = Some(answer.map(|value| (value, setup.with_flag)));
                    if setup.refresh {
                        cache.insert(t.call.key, (answer, t.call.now));
                    }
                }
            }
        }
        Step::Call => {
            t.runs += 1;
            t.run_locked = own == Some(true);
        }
        Step::Store => {
            assert!(setup.fallible || own == Some(true));
            if !setup.values_only || t.call.answer.is_ok() {
                if setup.fallible && t.call.set_error.is_some() {
                    t.returned = Some(Err(t.call.set_error.unwrap()));
                } else {
                    cache.insert(t.call.key, (t.call.answer, t.call.now));
                    while setup.size.map_or(false, |size| cache.len() > size) {
                        let oldest = cache.iter().min_by_key(|e| e.1 .1).map(|e| *e.0).unwrap();
                        cache.remove(&oldest);
                    }
                }
            }
        }
        Step::Finish => t.returned = Some(t.call.answer.map(|value| (value, false))),
    }
    if t.returned.is_some() {
        t.scopes.clear();
    }
    true
}

/// Runs a call by itself.
fn run(steps: Vec<Step>, setup: Setup, call: Call, cache: &mut Cache) -> Thread {
    let mut threads = vec![thread(steps, call)];
    while advance(&mut threads, 0, setup, cache) {}
    let t = threads.pop().unwrap();
    assert!(t.returned.is_some() && t.scopes.is_empty());
    t
}

/// Some ways in which `n` threads can take turns.
fn schedules(n: usize) -> Vec<Vec<usize>> {
    let mut r = Vec::new();
    for stride in 1..8 {
        for seed in 0..6 {
            r.push((0..200).map(|k| (k / stride + k * seed + (k * k) / 7) % n).collect());
        }
    }
    r
}

/// Every attribute's function, by its steps and a setup under which failures are
/// not cached.
fn functions() -> Vec<(Vec<Step>, Setup)> {
    vec![
        (lay_out_cached(false), RESULT),
        (lay_out_cached(true), RESULT),
        (lay_out_once(false, false), RESULT),
        (lay_out_once(true, false), RESULT),
        (lay_out_once(false, true), RESULT),
        (lay_out_once(true, true), RESULT),
        (lay_out_io(), IO),
    ]
}

#[test]
fn a_hit_runs_nothing() {
    for (steps, setup) in functions() {
        let mut cache = Cache::from([(1, (Ok(5), 0))]);
        let before = cache.clone();
        let end = run(steps, setup, call(1, Ok(6)), &mut cache);
        assert_eq!((end.returned, end.runs), (Some(Ok((5, false))), 0));
        assert_eq!(cache, before);
    }
}

#[test]
fn a_miss_runs_and_stores() {
    for (steps, setup) in functions() {
        let mut cache = Cache::from([(2, (Ok(5), 0))]);
        let end = run(steps, setup, call(1, Ok(6)), &mut cache);
        assert_eq!((end.returned, end.runs), (Some(Ok((6, false))), 1));
        assert_eq!(cache, Cache::from([(1, (Ok(6), 0)), (2, (Ok(5), 0))]));
    }
}

#[test]
fn failures_are_not_cached() {
    let mut all = functions();
    all.push((lay_out_prime(), RESULT));
    all.push((lay_out_io_prime(), IO));
    for (steps, setup) in all {
        let mut cache = Cache::new();
        let end = run(steps, setup, call(1, Err(9)), &mut cache);
        assert_eq!((end.returned, end.runs), (Some(Err(9)), 1));
        assert!(cache.is_empty());
    }
}

#[test]
fn everything_is_cached_without_result_and_option() {
    let mut cache = Cache::new();
    let end = run(lay_out_cached(false), PLAIN, call(1, Err(9)), &mut cache);
    assert_eq!((end.returned, end.runs), (Some(Err(9)), 1));
    assert_eq!(cache, Cache::from([(1, (Err(9), 0))]));
    let end = run(lay_out_cached(false), PLAIN, call(1, Ok(1)), &mut cache);
    assert_eq!((end.returned, end.runs), (Some(Err(9)), 0));
}

#[test]
fn priming_runs_whatever_is_cached() {
    let mut cache = Cache::from([(1, (Ok(5), 0))]);
    let end = run(lay_out_prime(), PLAIN, call(1, Ok(6)), &mut cache);
    assert_eq!((end.returned, end.runs), (Some(Ok((6, false))), 1));
    assert_eq!(cache, Cache::from([(1, (Ok(6), 0))]));
    let end = run(lay_out_io_prime(), IO, call(1, Ok(7)), &mut cache);
    assert_eq!((end.returned, end.runs), (Some(Ok((7, false))), 1));
    assert_eq!(cache, Cache::from([(1, (Ok(7), 0))]));
}

#[test]
fn cached_values_carry_the_flag() {
    let flagged = Setup { with_flag: true, ..PLAIN };
    let mut cache = Cache::new();
    let first = run(lay_out_cached(false), flagged, call(1, Ok(6)), &mut cache);
    assert_eq!(first.returned, Some(Ok((6, false))));
    let second = run(lay_out_cached(false), flagged, call(1, Ok(7)), &mut cache);
    assert_eq!(second.returned, Some(Ok((6, true))));
}

#[test]
fn primed_values_are_served() {
    let mut cache = Cache::new();
    run(lay_out_prime(), PLAIN, call(3, Ok(8)), &mut cache);
    let end = run(lay_out_cached(true), PLAIN, call(3, Ok(9)), &mut cache);
    assert_eq!((end.returned, end.runs), (Some(Ok((8, false))), 0));
    run(lay_out_io_prime(), IO, call(4, Ok(1)), &mut cache);
    let end = run(lay_out_io(), IO, call(4, Ok(2)), &mut cache);
    assert_eq!((end.returned, end.runs), (Some(Ok((1, false))), 0));
}

#[test]
fn old_values_are_made_anew() {
    let timed = Setup { lifespan: Some(10), ..PLAIN };
    let mut cache = Cache::from([(0, (Ok(5), 0))]);
    let end = run(lay_out_once(false, true), timed, Call { now: 9, ..call(0, Ok(6)) }, &mut cache);
    assert_eq!((end.returned, end.runs), (Some(Ok((5, false))), 0));
    let end = run(lay_out_once(false, true), timed, Call { now: 10, ..call(0, Ok(6)) }, &mut cache);
    assert_eq!((end.returned, end.runs), (Some(Ok((6, false))), 1));
    assert_eq!(cache, Cache::from([(0, (Ok(6), 10))]));
}

#[test]
fn hits_renew_the_lifespan() {
    let timed = Setup { lifespan: Some(10), refresh: true, ..PLAIN };
    let mut cache = Cache::from([(0, (Ok(5), 0))]);
    for now in [9, 18, 27] {
        let end = run(lay_out_cached(false), timed, Call { now, ..call(0, Ok(6)) }, &mut cache);
        assert_eq!((end.returned, end.runs), (Some(Ok((5, false))), 0));
    }
    let end = run(lay_out_cached(false), timed, Call { now: 37, ..call(0, Ok(6)) }, &mut cache);
    assert_eq!(end.runs, 1);
}

#[test]
fn dropped_values_are_made_anew() {
    let sized = Setup { size: Some(1), ..PLAIN };
    let mut cache = Cache::new();
    let mut runs = Vec::new();
    for (now, key) in [(0, 1), (1, 1), (2, 2), (3, 1)] {
        let call = Call { now, ..call(key, Ok(now)) };
        runs.push(run(lay_out_cached(false), sized, call, &mut cache).runs);
    }
    assert_eq!(runs, vec![1, 0, 1, 1]);
    assert_eq!(cache, Cache::from([(1, (Ok(3), 3))]));
}

#[test]
fn errors_of_the_store_are_answers() {
    let mut cache = Cache::new();
    let failing = Call { get_error: Some(4), ..call(1, Ok(6)) };
    let end = run(lay_out_io(), IO, failing, &mut cache);
    assert_eq!((end.returned, end.runs), (Some(Err(4)), 0));
    let failing = Call { set_error: Some(4), ..call(1, Ok(6)) };
    for steps in [lay_out_io(), lay_out_io_prime()] {
        let end = run(steps, IO, failing, &mut cache);
        assert_eq!((end.returned, end.runs), (Some(Err(4)), 1));
    }
    let end = run(lay_out_io_prime(), IO, Call { answer: Err(7), ..failing }, &mut cache);
    assert_eq!(end.returned, Some(Err(7)));
    assert!(cache.is_empty());
}

#[test]
fn synchronized_writes_run_under_the_lock() {
    let end = |steps, setup| {
        let t = run(steps, setup, call(1, Ok(6)), &mut Cache::new());
        (t.run_locked, t.locks)
    };
    assert_eq!(end(lay_out_cached(true), PLAIN), (true, 1));
    assert_eq!(end(lay_out_cached(false), PLAIN), (false, 2));
    for timed in [false, true] {
        assert_eq!(end(lay_out_once(true, timed), PLAIN), (true, 2));
        assert_eq!(end(lay_out_once(false, timed), PLAIN), (false, 2));
    }
    assert_eq!(end(lay_out_prime(), PLAIN), (true, 1));
    assert_eq!(end(lay_out_io(), IO), (false, 0));
}

#[test]
fn synchronizing_changes_no_result() {
    for answer in [Ok(6), Err(9)] {
        for (free, synced) in [
            (lay_out_cached(false), lay_out_cached(true)),
            (lay_out_once(false, false), lay_out_once(true, false)),
        ] {
            let mut one = Cache::from([(2, (Ok(5), 0))]);
            let mut other = one.clone();
            for key in [1, 2, 1] {
                let a = run(free.clone(), RESULT, call(key, answer), &mut one);
                let b = run(synced.clone(), RESULT, call(key, answer), &mut other);
                assert_eq!((a.returned, a.runs), (b.returned, b.runs));
            }
            assert_eq!(one, other);
        }
    }
}

#[test]
fn entries_come_from_calls() {
    let mut cache = Cache::new();
    for (key, answer) in [(1, Err(1)), (1, Ok(2)), (2, Ok(3)), (1, Ok(4)), (3, Err(5))] {
        run(lay_out_cached(false), RESULT, call(key, answer), &mut cache);
    }
    assert_eq!(cache, Cache::from([(1, (Ok(2), 0)), (2, (Ok(3), 0))]));
}

#[test]
fn synchronized_calls_of_one_key_run_once() {
    for schedule in schedules(4) {
        let mut cache = Cache::new();
        let mut threads: Vec<Thread> =
            (0..4).map(|i| thread(lay_out_cached(true), call(7, Ok(10 + i)))).collect();
        for i in schedule {
            advance(&mut threads, i, RESULT, &mut cache);
        }
        assert!(threads.iter().all(|t| t.returned.is_some()));
        assert_eq!(threads.iter().map(|t| t.runs).sum::<u32>(), 1);
        let first = threads.iter().find(|t| t.runs == 1).unwrap().call.answer.unwrap();
        assert!(threads.iter().all(|t| t.returned == Some(Ok((first, false)))));
    }
}

#[test]
fn synchronized_calls_within_the_lifespan_run_once() {
    for refresh in [false, true] {
        let timed = Setup { lifespan: Some(10), refresh, ..RESULT };
        for schedule in schedules(3) {
            let mut cache = Cache::new();
            let mut threads: Vec<Thread> = (0..3)
                .map(|i| thread(lay_out_cached(true), Call { now: 5, ..call(7, Ok(i)) }))
                .collect();
            for i in schedule {
                advance(&mut threads, i, timed, &mut cache);
            }
            assert_eq!(threads.iter().map(|t| t.runs).sum::<u32>(), 1);
        }
    }
}

#[test]
fn unsynchronized_calls_of_one_key_can_run_more_than_once() {
    let most = schedules(4).into_iter().map(|schedule| {
        let mut cache = Cache::new();
        let mut threads: Vec<Thread> =
            (0..4).map(|i| thread(lay_out_cached(false), call(7, Ok(10 + i)))).collect();
        for i in schedule {
            advance(&mut threads, i, RESULT, &mut cache);
        }
        threads.iter().map(|t| t.runs).sum::<u32>()
    });
    assert!(most.max().unwrap() > 1);
}

#[test]
fn synchronized_runs_do_not_overlap() {
    for timed in [false, true] {
        for schedule in schedules(4) {
            let mut cache = Cache::new();
            let mut threads: Vec<Thread> = vec![
                thread(lay_out_once(true, timed), call(0, Ok(1))),
                thread(lay_out_prime(), call(0, Ok(2))),
                thread(lay_out_once(true, timed), call(0, Err(3))),
                thread(lay_out_prime(), call(0, Ok(4))),
            ];
            for i in schedule {
                let reads = threads[i].returned.is_none()
                    && threads[i].steps[threads[i].next] == Step::Lookup;
                let others_run = (0..4).any(|j| j != i && threads[j].running);
                assert!(!(reads && others_run));
                advance(&mut threads, i, RESULT, &mut cache);
                assert!(threads.iter().filter(|t| t.running).count() <= 1);
            }
            assert!(threads.iter().all(|t| t.returned.is_some()));
        }
    }
}

#[test]
fn bodies_are_written_step_by_step() {
    let texts = StepTexts {
        lock: "L".to_string(),
        read_lock: "R".to_string(),
        borrow: "B".to_string(),
        lookup: "?".to_string(),
        call: "C".to_string(),
        store: "S".to_string(),
    };
    assert_eq!(write_body(&lay_out_cached(true), &texts), "L ? C S result ");
    assert_eq!(write_body(&lay_out_cached(false), &texts), "{ L ? } C L S result ");
    assert_eq!(write_body(&lay_out_once(true, false), &texts), "{ R ? } L C S result ");
    assert_eq!(write_body(&lay_out_once(false, false), &texts), "{ R ? } C L S result ");
    assert_eq!(write_body(&lay_out_once(true, true), &texts), "{ L ? } L C S result ");
    assert_eq!(write_body(&lay_out_once(false, true), &texts), "{ L ? } C L S result ");
    assert_eq!(write_body(&lay_out_io(), &texts), "{ B ? } C B S result ");
    assert_eq!(write_body(&lay_out_prime(), &texts), "L C S result ");
    assert_eq!(write_body(&lay_out_io_prime(), &texts), "C B S result ");
    assert_eq!(write_body(&vec![], &texts), "");
}
