//! The body of a cached function as a sequence of steps, and the text of each.

use vstd::prelude::*;
use vstd::string::*;

verus! {

/// A step of the body of a cached function.
#[derive(Debug, Clone, Copy, PartialEq, Eq, Structural)]
pub enum Step {
    /// Begin a block.
    Open,
    /// End the block; the guards that were taken in it are dropped.
    Close,
    /// Take the lock of the cache for writing.
    Lock,
    /// Take the lock of the cache for reading.
    ReadLock,
    /// Get at a cache that needs no lock.
    Borrow,
    /// Return the cached value, if there is one.
    Lookup,
    /// Run the function.
    Call,
    /// Put the result into the cache.
    Store,
    /// Give the result back.
    Finish,
}

/// The texts of the steps that differ from function to function.
#[derive(Debug, Clone, PartialEq, Eq)]
pub struct StepTexts {
    pub lock: String,
    pub read_lock: String,
    pub borrow: String,
    pub lookup: String,
    pub call: String,
    pub store: String,
}

/// The view of [`StepTexts`].
pub struct StepTextsView {
    pub lock: Seq<char>,
    pub read_lock: Seq<char>,
    pub borrow: Seq<char>,
    pub lookup: Seq<char>,
    pub call: Seq<char>,
    pub store: Seq<char>,
}

impl View for StepTexts {
    type V = StepTextsView;

    open spec fn view(&self) -> StepTextsView {
        StepTextsView {
            lock: self.lock@,
            read_lock: self.read_lock@,
            borrow: self.borrow@,
            lookup: self.lookup@,
            call: self.call@,
            store: self.store@,
        }
    }
}

/// The text of a step.
pub open spec fn step_text(step: Step, texts: StepTextsView) -> Seq<char> {
    match step {
        Step::Open => "{"@,
        Step::Close => "}"@,
        Step::Lock => texts.lock,
        Step::ReadLock => texts.read_lock,
        Step::Borrow => texts.borrow,
        Step::Lookup => texts.lookup,
        Step::Call => texts.call,
        Step::Store => texts.store,
        Step::Finish => "result"@,
    }
}

/// The text of a body: the texts of its steps, each followed by a space.
pub open spec fn body_text(steps: Seq<Step>, texts: StepTextsView) -> Seq<char>
    decreases steps.len(),
{
    if steps.len() == 0 {
        Seq::empty()
    } else {
        body_text(steps.drop_last(), texts) + step_text(steps.last(), texts) + " "@
    }
}

/// The body of a function with a cache of many keys. Where writes are
/// synchronized, one lock spans the lookup, the run and the write.
pub open spec fn cached_steps(sync_writes: bool) -> Seq<Step> {
    if sync_writes {
        seq![Step::Lock, Step::Lookup, Step::Call, Step::Store, Step::Finish]
    } else {
        seq![
            Step::Open,
            Step::Lock,
            Step::Lookup,
            Step::Close,
            Step::Call,
            Step::Lock,
            Step::Store,
            Step::Finish,
        ]
    }
}

/// The body of a function with a cache of one value. Where writes are
/// synchronized, the function runs under the lock that the write takes. A timed
/// store is changed by a lookup, which therefore takes the lock for writing.
pub open spec fn once_steps(sync_writes: bool, timed: bool) -> Seq<Step> {
    let look = if timed {
        Step::Lock
    } else {
        Step::ReadLock
    };
    if sync_writes {
        seq![
            Step::Open,
            look,
            Step::Lookup,
            Step::Close,
            Step::Lock,
            Step::Call,
            Step::Store,
            Step::Finish,
        ]
    } else {
        seq![
            Step::Open,
            look,
            Step::Lookup,
            Step::Close,
            Step::Call,
            Step::Lock,
            Step::Store,
            Step::Finish,
        ]
    }
}

/// The body of the function that primes a cache behind a lock.
pub open spec fn prime_steps() -> Seq<Step> {
    seq![Step::Lock, Step::Call, Step::Store, Step::Finish]
}

/// The body of a function whose cache needs no lock.
pub open spec fn io_steps() -> Seq<Step> {
    seq![
        Step::Open,
        Step::Borrow,
        Step::Lookup,
        Step::Close,
        Step::Call,
        Step::Borrow,
        Step::Store,
        Step::Finish,
    ]
}

/// The body of the function that primes a cache that needs no lock.
pub open spec fn io_prime_steps() -> Seq<Step> {
    seq![Step::Call, Step::Borrow, Step::Store, Step::Finish]
}

/// Writes a step.
fn write_step(step: Step, texts: &StepTexts) -> (r: &str)
    ensures
        r@ == step_text(step, texts@),
{
    match step {
        Step::Open => "{",
        Step::Close => "}",
        Step::Lock => texts.lock.as_str(),
        Step::ReadLock => texts.read_lock.as_str(),
        Step::Borrow => texts.borrow.as_str(),
        Step::Lookup => texts.lookup.as_str(),
        Step::Call => texts.call.as_str(),
        Step::Store => texts.store.as_str(),
        Step::Finish => "result",
    }
}

/// Writes a body.
pub fn write_body(steps: &Vec<Step>, texts: &StepTexts) -> (r: String)
    ensures
        r@ == body_text(steps@, texts@),
{
    let mut r = String::new();
    for i in 0..steps.len()
        invariant
            r@ == body_text(steps@.take(i as int), texts@),
    {
        assert(steps@.take(i + 1).drop_last() == steps@.take(i as int));
        r.append(write_step(steps[i], texts));
        r.append(" ");
    }
    assert(steps@.take(steps.len() as int) == steps@);
    r
}

/// Lays out the body of a function with a cache of many keys.
pub fn lay_out_cached(sync_writes: bool) -> (r: Vec<Step>)
    ensures
        r@ == cached_steps(sync_writes),
{
    if sync_writes {
        vec![Step::Lock, Step::Lookup, Step::Call, Step::Store, Step::Finish]
    } else {
        vec![
            Step::Open,
            Step::Lock,
            Step::Lookup,
            Step::Close,
            Step::Call,
            Step::Lock,
            Step::Store,
            Step::Finish,
        ]
    }
}

/// Lays out the body of a function with a cache of one value.
pub fn lay_out_once(sync_writes: bool, timed: bool) -> (r: Vec<Step>)
    ensures
        r@ == once_steps(sync_writes, timed),
{
    let look = if timed {
        Step::Lock
    } else {
        Step::ReadLock
    };
    if sync_writes {
        vec![
            Step::Open,
            look,
            Step::Lookup,
            Step::Close,
            Step::Lock,
            Step::Call,
            Step::Store,
            Step::Finish,
        ]
    } else {
        vec![
            Step::Open,
            look,
            Step::Lookup,
            Step::Close,
            Step::Call,
            Step::Lock,
            Step::Store,
            Step::Finish,
        ]
    }
}

/// Lays out the body of the function that primes a cache behind a lock.
pub fn lay_out_prime() -> (r: Vec<Step>)
    ensures
        r@ == prime_steps(),
{
    vec![Step::Lock, Step::Call, Step::Store, Step::Finish]
}

/// Lays out the body of a function whose cache needs no lock.
pub fn lay_out_io() -> (r: Vec<Step>)
    ensures
        r@ == io_steps(),
{
    vec![
        Step::Open,
        Step::Borrow,
        Step::Lookup,
        Step::Close,
        Step::Call,
        Step::Borrow,
        Step::Store,
        Step::Finish,
    ]
}

/// Lays out the body of the function that primes a cache that needs no lock.
pub fn lay_out_io_prime() -> (r: Vec<Step>)
    ensures
        r@ == io_prime_steps(),
{
    vec![Step::Call, Step::Borrow, Step::Store, Step::Finish]
}

} // verus!
