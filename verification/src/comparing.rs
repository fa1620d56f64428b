//! What the expansions have in common, whatever the arguments and the function.
//!
//! Each law here is about one promise: which arguments a key tells apart, what a
//! function does under its lock, which lines wait, what becomes of a store's error,
//! and what the priming function leaves out.

use crate::args::IOMacroArgs;
use crate::helpers::{argument_key, argument_names, argument_types, cloned};
use crate::io::io_outcome;
use crate::item::FnItemView;
use crate::meaning::{steps_of, Macro};
use crate::outside::closure_of;
use crate::reading::{
    arrow, assembled, begins, ends, io_fits, is_run, law_io_cached_writes,
    law_key_holds_every_argument, law_lines_are_the_steps, law_without_mut, listed, name_or_upper,
    only_timed, outcome_of, passes_all, plain_name, spell_all, spells, Pieces,
};
use crate::steps::Step;
use crate::syntax::ArgumentView;
use crate::text::join;
use vstd::prelude::*;

verus! {

// ---------------------------------------------------------------------------
// What a line does
// ---------------------------------------------------------------------------
/// The line has this text in it.
#[verifier::opaque]
pub open spec fn has(line: Seq<char>, text: Seq<char>) -> bool {
    exists|before: Seq<char>, after: Seq<char>| line == #[trigger] (before + text + after)
}

/// The line takes a lock.
#[verifier::opaque]
pub open spec fn locks(line: Seq<char>) -> bool {
    begins(line, "let mut cache"@)
}

/// The line looks into the cache, and returns what it finds.
#[verifier::opaque]
pub open spec fn looks(line: Seq<char>) -> bool {
    begins(line, "if let Some(result) = cache"@) || begins(line, "if let Some(result) = &*cache"@)
}

/// The line runs the function itself.
#[verifier::opaque]
pub open spec fn runs(line: Seq<char>) -> bool {
    begins(line, "fn inner( "@) || begins(line, "async fn inner( "@)
}

/// A text that begins with another begins with what that begins with.
proof fn lemma_begins_shorter(line: Seq<char>, text: Seq<char>, short: Seq<char>, rest: Seq<char>)
    requires
        begins(line, text),
        text == short + rest,
    ensures
        begins(line, short),
{
    let after = choose|after: Seq<char>| line == #[trigger] (text + after);
    assert(line =~= short + (rest + after));
}

/// A text does not begin in two ways that differ.
proof fn lemma_not_begins(line: Seq<char>, text: Seq<char>, other: Seq<char>, k: int)
    requires
        begins(line, text),
        0 <= k < text.len(),
        k < other.len(),
        text[k] != other[k],
    ensures
        !begins(line, other),
{
    let after = choose|after: Seq<char>| line == #[trigger] (text + after);
    assert(line[k] == text[k]);
    if begins(line, other) {
        let more = choose|more: Seq<char>| line == #[trigger] (other + more);
        assert(line[k] == other[k]);
    }
}

/// A text does not end in two ways that differ.
proof fn lemma_not_ends(line: Seq<char>, text: Seq<char>, other: Seq<char>, k: int)
    requires
        ends(line, text),
        0 < k <= text.len(),
        k <= other.len(),
        text[text.len() - k] != other[other.len() - k],
    ensures
        !ends(line, other),
{
    let before = choose|before: Seq<char>| line == #[trigger] (before + text);
    assert(line[line.len() - k] == text[text.len() - k]);
    if ends(line, other) {
        let more = choose|more: Seq<char>| line == #[trigger] (more + other);
        assert(line[line.len() - k] == other[other.len() - k]);
    }
}

/// What the line does is known.
spec fn is_kind(line: Seq<char>, lock: bool, look: bool, run: bool, close: bool) -> bool {
    &&& locks(line) == lock
    &&& looks(line) == look
    &&& runs(line) == run
    &&& (line == "}"@) == close
}

/// A line that begins with a character that none of these begins with does none of it.
proof fn lemma_other(line: Seq<char>, head: Seq<char>)
    requires
        begins(line, head),
        head.len() > 0,
    ensures
        head[0] != 'l' ==> !locks(line),
        head[0] != 'i' ==> !looks(line),
        head[0] != 'f' && head[0] != 'a' ==> !runs(line),
        head[0] != '}' ==> line != "}"@,
{
    reveal(locks);
    reveal(looks);
    reveal(runs);
    reveal_strlit("let mut cache");
    reveal_strlit("if let Some(result) = cache");
    reveal_strlit("if let Some(result) = &*cache");
    reveal_strlit("fn inner( ");
    reveal_strlit("async fn inner( ");
    reveal_strlit("}");
    if head[0] != 'l' {
        lemma_not_begins(line, head, "let mut cache"@, 0);
    }
    if head[0] != 'i' {
        lemma_not_begins(line, head, "if let Some(result) = cache"@, 0);
        lemma_not_begins(line, head, "if let Some(result) = &*cache"@, 0);
    }
    if head[0] != 'f' && head[0] != 'a' {
        lemma_not_begins(line, head, "fn inner( "@, 0);
        lemma_not_begins(line, head, "async fn inner( "@, 0);
    }
    let after = choose|after: Seq<char>| line == #[trigger] (head + after);
    assert(line[0] == head[0]);
}

proof fn lemma_itself(line: Seq<char>)
    ensures
        begins(line, line),
{
    assert(line =~= line + Seq::<char>::empty());
}

proof fn lemma_lock_kind(line: Seq<char>, head: Seq<char>)
    requires
        begins(line, head),
        head == "let mut cache = "@ || head == "let mut cached = "@,
    ensures
        is_kind(line, true, false, false, false),
{
    reveal(locks);
    reveal(looks);
    reveal(runs);
    reveal_strlit("let mut cache = ");
    reveal_strlit("let mut cached = ");
    reveal_strlit("let mut cache");
    let short = "let mut cache"@;
    let rest = head.subrange(short.len() as int, head.len() as int);
    assert(head =~= short + rest);
    lemma_begins_shorter(line, head, short, rest);
    lemma_other(line, head);
}

proof fn lemma_borrow_kind(line: Seq<char>)
    requires
        begins(line, "let cache = &"@),
    ensures
        is_kind(line, false, false, false, false),
{
    reveal(locks);
    reveal(looks);
    reveal(runs);
    reveal_strlit("let cache = &");
    reveal_strlit("let mut cache");
    lemma_other(line, "let cache = &"@);
    lemma_not_begins(line, "let cache = &"@, "let mut cache"@, 4);
}

proof fn lemma_look_kind(line: Seq<char>, head: Seq<char>)
    requires
        begins(line, head),
        head == "if let Some(result) = cache.cache_get(&key)"@ || head
            == "if let Some(result) = cached.cache_get(&()) { "@ || head
            == "if let Some(result) = &*cached { "@,
    ensures
        is_kind(line, false, true, false, false),
{
    reveal(locks);
    reveal(looks);
    reveal(runs);
    reveal_strlit("if let Some(result) = cache.cache_get(&key)");
    reveal_strlit("if let Some(result) = cached.cache_get(&()) { ");
    reveal_strlit("if let Some(result) = &*cached { ");
    reveal_strlit("if let Some(result) = cache");
    reveal_strlit("if let Some(result) = &*cache");
    let short = if head == "if let Some(result) = &*cached { "@ {
        "if let Some(result) = &*cache"@
    } else {
        "if let Some(result) = cache"@
    };
    let rest = head.subrange(short.len() as int, head.len() as int);
    assert(head =~= short + rest);
    lemma_begins_shorter(line, head, short, rest);
    lemma_other(line, head);
}

proof fn lemma_run_kind(line: Seq<char>)
    requires
        runs(line),
    ensures
        is_kind(line, false, false, true, false),
{
    reveal(locks);
    reveal(looks);
    reveal(runs);
    reveal_strlit("fn inner( ");
    reveal_strlit("async fn inner( ");
    if begins(line, "fn inner( "@) {
        lemma_other(line, "fn inner( "@);
    } else {
        lemma_other(line, "async fn inner( "@);
    }
}

proof fn lemma_store_kind(line: Seq<char>, head: Seq<char>)
    requires
        begins(line, head),
        head == "cache.cache_set(key, "@ || head == "cached.cache_set((), "@ || head
            == "*cached = Some("@ || head == "if let Ok(result) = &result { "@ || head
            == "if let Some(result) = &result { "@,
    ensures
        is_kind(line, false, false, false, false),
{
    reveal(locks);
    reveal(looks);
    reveal(runs);
    reveal_strlit("cache.cache_set(key, ");
    reveal_strlit("cached.cache_set((), ");
    reveal_strlit("*cached = Some(");
    reveal_strlit("if let Ok(result) = &result { ");
    reveal_strlit("if let Some(result) = &result { ");
    reveal_strlit("if let Some(result) = cache");
    reveal_strlit("if let Some(result) = &*cache");
    lemma_other(line, head);
    if head == "if let Ok(result) = &result { "@ {
        lemma_not_begins(line, head, "if let Some(result) = cache"@, 7);
        lemma_not_begins(line, head, "if let Some(result) = &*cache"@, 7);
    } else if head == "if let Some(result) = &result { "@ {
        lemma_not_begins(line, head, "if let Some(result) = cache"@, 22);
        lemma_not_begins(line, head, "if let Some(result) = &*cache"@, 23);
    }
}

proof fn lemma_bare_kind(line: Seq<char>)
    requires
        line == "{"@ || line == "}"@ || line == "result"@,
    ensures
        is_kind(line, false, false, false, line == "}"@),
{
    reveal_strlit("{");
    reveal_strlit("}");
    reveal_strlit("result");
    lemma_itself(line);
    lemma_other(line, line);
}

/// A line does what its step stands for, and nothing else.
proof fn lemma_kind(line: Seq<char>, step: Step, is_async: bool)
    requires
        spells(line, step, is_async),
    ensures
        is_kind(
            line,
            step is Lock || step is ReadLock,
            step is Lookup,
            step is Call,
            step is Close,
        ),
{
    reveal(spells);
    match step {
        Step::Open | Step::Close | Step::Finish => {
            lemma_bare_kind(line);
            reveal_strlit("{");
            reveal_strlit("}");
            reveal_strlit("result");
            assert("{"@[0] != "}"@[0]);
            assert("result"@.len() != "}"@.len());
        },
        Step::Lock | Step::ReadLock => if begins(line, "let mut cache = "@) {
            lemma_lock_kind(line, "let mut cache = "@);
        } else {
            lemma_lock_kind(line, "let mut cached = "@);
        },
        Step::Borrow => lemma_borrow_kind(line),
        Step::Lookup => if begins(line, "if let Some(result) = cache.cache_get(&key)"@) {
            lemma_look_kind(line, "if let Some(result) = cache.cache_get(&key)"@);
        } else if begins(line, "if let Some(result) = cached.cache_get(&()) { "@) {
            lemma_look_kind(line, "if let Some(result) = cached.cache_get(&()) { "@);
        } else {
            lemma_look_kind(line, "if let Some(result) = &*cached { "@);
        },
        Step::Call => {
            reveal(runs);
            lemma_run_kind(line);
        },
        Step::Store => if begins(line, "cache.cache_set(key, "@) {
            lemma_store_kind(line, "cache.cache_set(key, "@);
        } else if begins(line, "cached.cache_set((), "@) {
            lemma_store_kind(line, "cached.cache_set((), "@);
        } else if begins(line, "*cached = Some("@) {
            lemma_store_kind(line, "*cached = Some("@);
        } else if begins(line, "if let Ok(result) = &result { "@) {
            lemma_store_kind(line, "if let Ok(result) = &result { "@);
        } else {
            lemma_store_kind(line, "if let Some(result) = &result { "@);
        },
    }
}

// ---------------------------------------------------------------------------
// The lines of the functions
// ---------------------------------------------------------------------------
/// No brace closes between the two lines.
pub open spec fn stays_open(body: Seq<Seq<char>>, j: int, k: int) -> bool {
    forall|l: int| j < l < k ==> #[trigger] body[l] != "}"@
}

/// A lock is held at this line: one was taken before it, and no brace has closed since.
pub open spec fn held(body: Seq<Seq<char>>, k: int) -> bool {
    exists|j: int| 0 <= j < k && locks(body[j]) && #[trigger] stays_open(body, j, k)
}

/// The same, of the steps.
spec fn steps_stay_open(steps: Seq<Step>, j: int, k: int) -> bool {
    forall|l: int| j < l < k ==> !(#[trigger] steps[l] is Close)
}

spec fn held_step(steps: Seq<Step>, k: int) -> bool {
    exists|j: int|
        0 <= j < k && (steps[j] is Lock || steps[j] is ReadLock) && #[trigger] steps_stay_open(
            steps,
            j,
            k,
        )
}

proof fn lemma_kinds(body: Seq<Seq<char>>, steps: Seq<Step>, is_async: bool)
    requires
        spell_all(body, steps, is_async),
    ensures
        forall|i: int|
            0 <= i < body.len() ==> is_kind(
                #[trigger] body[i],
                steps[i] is Lock || steps[i] is ReadLock,
                steps[i] is Lookup,
                steps[i] is Call,
                steps[i] is Close,
            ),
{
    assert forall|i: int| 0 <= i < body.len() implies is_kind(
        #[trigger] body[i],
        steps[i] is Lock || steps[i] is ReadLock,
        steps[i] is Lookup,
        steps[i] is Call,
        steps[i] is Close,
    ) by {
        lemma_kind(body[i], steps[i], is_async);
    }
}

proof fn lemma_held(body: Seq<Seq<char>>, steps: Seq<Step>, is_async: bool, k: int)
    requires
        spell_all(body, steps, is_async),
        0 <= k < body.len(),
    ensures
        held(body, k) == held_step(steps, k),
{
    lemma_kinds(body, steps, is_async);
    assert forall|j: int| 0 <= j < k implies #[trigger] stays_open(body, j, k) == steps_stay_open(
        steps,
        j,
        k,
    ) && locks(body[j]) == (steps[j] is Lock || steps[j] is ReadLock) by {
        assert forall|l: int| j < l < k implies (body[l] == "}"@) == (
        #[trigger] steps[l] is Close) by {
            assert(is_kind(
                body[l],
                steps[l] is Lock || steps[l] is ReadLock,
                steps[l] is Lookup,
                steps[l] is Call,
                steps[l] is Close,
            ));
        }
        if steps_stay_open(steps, j, k) {
            assert forall|l: int| j < l < k implies #[trigger] body[l] != "}"@ by {
                assert(!(steps[l] is Close));
            }
        }
        if stays_open(body, j, k) {
            assert forall|l: int| j < l < k implies !(#[trigger] steps[l] is Close) by {
                assert(body[l] != "}"@);
            }
        }
    }
    if held(body, k) {
        let j = choose|j: int| 0 <= j < k && locks(body[j]) && #[trigger] stays_open(body, j, k);
        assert(steps_stay_open(steps, j, k));
    }
    if held_step(steps, k) {
        let j = choose|j: int|
            0 <= j < k && (steps[j] is Lock || steps[j] is ReadLock) && #[trigger] steps_stay_open(
                steps,
                j,
                k,
            );
        assert(stays_open(body, j, k));
    }
}

/// Writes are to be synchronized.
pub open spec fn asks_for_sync(m: Macro) -> bool {
    match m {
        Macro::Cached(args) => args.sync_writes,
        Macro::Once(args) => args.sync_writes,
        Macro::Io(_) => false,
    }
}

proof fn lemma_steps_held(m: Macro, k: int)
    requires
        0 <= k < steps_of(m, false).len(),
        steps_of(m, false)[k] is Call,
    ensures
        held_step(steps_of(m, false), k) == asks_for_sync(m),
{
    let steps = steps_of(m, false);
    if asks_for_sync(m) {
        let j: int = if m is Cached {
            0
        } else {
            4
        };
        assert(steps[j] is Lock);
        assert(steps_stay_open(steps, j, k));
    } else {
        assert(k == 4);
        assert(steps[3] is Close);
        assert forall|j: int|
            0 <= j < k && (steps[j] is Lock || steps[j] is ReadLock) implies !#[trigger]
        steps_stay_open(steps, j, k) by {
            assert(j < 3);
        }
    }
}

/// Where the steps of a function look, and where they run the function itself.
spec fn places(m: Macro) -> (int, int) {
    if m is Cached && asks_for_sync(m) {
        (1, 2)
    } else if asks_for_sync(m) {
        (2, 5)
    } else {
        (2, 4)
    }
}

proof fn lemma_places(m: Macro)
    ensures
        ({
            let steps = steps_of(m, false);
            let (look, run) = places(m);
            &&& 0 <= look < run < steps.len()
            &&& steps[look] is Lookup
            &&& steps[run] is Call
            &&& forall|i: int|
                0 <= i < steps.len() && i != run ==> !(#[trigger] steps[i] is Call)
            &&& forall|i: int|
                0 <= i < steps.len() && i != look ==> !(#[trigger] steps[i] is Lookup)
            &&& steps[look - 1] is Lock || steps[look - 1] is ReadLock || (m matches Macro::Io(args)
                && !only_timed(args))
        }),
{
}

/// The function of these lines looks in one place and runs itself in one place after
/// it, under a lock exactly where writes are to be synchronized. What stands behind a
/// lock is looked at under it.
pub open spec fn runs_in_turn(body: Seq<Seq<char>>, m: Macro, look: int, run: int) -> bool {
    &&& 0 <= look < run < body.len()
    &&& forall|i: int| 0 <= i < body.len() ==> looks(#[trigger] body[i]) == (i == look)
    &&& forall|i: int| 0 <= i < body.len() ==> runs(#[trigger] body[i]) == (i == run)
    &&& held(body, look) || (m matches Macro::Io(args) && !only_timed(args))
    &&& held(body, run) == asks_for_sync(m)
}

proof fn lemma_runs_in_turn(body: Seq<Seq<char>>, m: Macro, is_async: bool)
    requires
        spell_all(body, steps_of(m, false), is_async),
    ensures
        runs_in_turn(body, m, places(m).0, places(m).1),
{
    let steps = steps_of(m, false);
    let (look, run) = places(m);
    lemma_places(m);
    lemma_kinds(body, steps, is_async);
    lemma_held(body, steps, is_async, look);
    lemma_held(body, steps, is_async, run);
    lemma_steps_held(m, run);
    assert forall|i: int| 0 <= i < body.len() implies looks(#[trigger] body[i]) == (i == look) by {
        assert(is_kind(
            body[i],
            steps[i] is Lock || steps[i] is ReadLock,
            steps[i] is Lookup,
            steps[i] is Call,
            steps[i] is Close,
        ));
    }
    assert forall|i: int| 0 <= i < body.len() implies runs(#[trigger] body[i]) == (i == run) by {
        assert(is_kind(
            body[i],
            steps[i] is Lock || steps[i] is ReadLock,
            steps[i] is Lookup,
            steps[i] is Call,
            steps[i] is Close,
        ));
    }
    if !(m matches Macro::Io(args) && !only_timed(args)) {
        assert(steps[look - 1] is Lock || steps[look - 1] is ReadLock);
        assert(steps_stay_open(steps, look - 1, look));
    }
}

/// The pieces of a text whose lines are the steps.
proof fn lemma_lines(m: Macro, item: FnItemView) -> (p: Pieces)
    requires
        outcome_of(m, item) is Ok,
    ensures
        outcome_of(m, item)->Ok_0 == assembled(p),
        spell_all(p.body, steps_of(m, false), item.is_async),
        spell_all(p.prime_body, steps_of(m, true), item.is_async),
{
    law_lines_are_the_steps(m, item);
    choose|p: Pieces|
        outcome_of(m, item)->Ok_0 == #[trigger] assembled(p) && spell_all(
            p.body,
            steps_of(m, false),
            item.is_async,
        ) && spell_all(p.prime_body, steps_of(m, true), item.is_async)
}

/// The function is run under a lock exactly where writes are to be synchronized,
/// asynchronous or not: of two calls at a time, only then does one wait for the other
/// before it runs. Every call that finds nothing runs the function, after it has
/// looked.
pub proof fn law_runs_under_lock_if_synced(m: Macro, item: FnItemView)
    requires
        outcome_of(m, item) is Ok,
    ensures
        exists|p: Pieces, look: int, run: int|
            outcome_of(m, item)->Ok_0 == assembled(p) && #[trigger] runs_in_turn(
                p.body,
                m,
                look,
                run,
            ),
{
    let p = lemma_lines(m, item);
    lemma_runs_in_turn(p.body, m, item.is_async);
}

/// The lines run the function itself in one place, and never look.
pub open spec fn only_primes(body: Seq<Seq<char>>, run: int) -> bool {
    &&& 0 <= run < body.len()
    &&& forall|i: int| 0 <= i < body.len() ==> !looks(#[trigger] body[i])
    &&& forall|i: int| 0 <= i < body.len() ==> runs(#[trigger] body[i]) == (i == run)
}

proof fn lemma_only_primes(body: Seq<Seq<char>>, m: Macro, is_async: bool)
    requires
        spell_all(body, steps_of(m, true), is_async),
    ensures
        exists|run: int| #[trigger] only_primes(body, run),
{
    let steps = steps_of(m, true);
    let run: int = if steps[0] is Call {
        0
    } else {
        1
    };
    assert(steps.len() == 4);
    assert(forall|i: int| 0 <= i < 4 ==> !(#[trigger] steps[i] is Lookup));
    assert(forall|i: int| 0 <= i < 4 ==> (#[trigger] steps[i] is Call) == (i == run));
    lemma_kinds(body, steps, is_async);
    assert forall|i: int| 0 <= i < body.len() implies !looks(#[trigger] body[i]) && runs(body[i])
        == (i == run) by {
        assert(is_kind(
            body[i],
            steps[i] is Lock || steps[i] is ReadLock,
            steps[i] is Lookup,
            steps[i] is Call,
            steps[i] is Close,
        ));
    }
    assert(only_primes(body, run));
}

/// The priming function runs the function whatever is cached: it never looks, whichever
/// store is asked for.
pub proof fn law_priming_never_looks(m: Macro, item: FnItemView)
    requires
        outcome_of(m, item) is Ok,
    ensures
        exists|p: Pieces, run: int|
            outcome_of(m, item)->Ok_0 == assembled(p) && #[trigger] only_primes(p.prime_body, run),
{
    let p = lemma_lines(m, item);
    lemma_only_primes(p.prime_body, m, item.is_async);
}

/// Every line that takes a lock or runs the function waits for it in an asynchronous
/// function, and in no other.
pub open spec fn waits(body: Seq<Seq<char>>, is_async: bool) -> bool {
    forall|i: int|
        0 <= i < body.len() && (locks(#[trigger] body[i]) || runs(body[i])) ==> ends(
            body[i],
            ".await;"@,
        ) == is_async
}

/// What ends with a text ends with what that ends with.
proof fn lemma_ends_shorter(line: Seq<char>, text: Seq<char>, rest: Seq<char>, short: Seq<char>)
    requires
        ends(line, text),
        text == rest + short,
    ensures
        ends(line, short),
{
    let before = choose|before: Seq<char>| line == #[trigger] (before + text);
    assert(line =~= (before + rest) + short);
}

proof fn lemma_ends_await(line: Seq<char>, text: Seq<char>)
    requires
        ends(line, text),
        text == ".lock().await;"@ || text == ".write().await;"@ || text == ".read().await;"@ || text
            == " ).await;"@,
    ensures
        ends(line, ".await;"@),
{
    reveal_strlit(".lock().await;");
    reveal_strlit(".write().await;");
    reveal_strlit(".read().await;");
    reveal_strlit(" ).await;");
    reveal_strlit(".await;");
    let rest = text.take(text.len() - 7);
    assert(text =~= rest + ".await;"@);
    lemma_ends_shorter(line, text, rest, ".await;"@);
}

proof fn lemma_ends_at_once(line: Seq<char>, text: Seq<char>)
    requires
        ends(line, text),
        text == ".lock().unwrap();"@ || text == ".write().unwrap();"@ || text
            == ".read().unwrap();"@ || text == " );"@,
    ensures
        !ends(line, ".await;"@),
{
    reveal_strlit(".lock().unwrap();");
    reveal_strlit(".write().unwrap();");
    reveal_strlit(".read().unwrap();");
    reveal_strlit(" );");
    reveal_strlit(".await;");
    lemma_not_ends(line, text, ".await;"@, 2);
}

proof fn lemma_line_waits(line: Seq<char>, step: Step, is_async: bool)
    requires
        spells(line, step, is_async),
        step is Lock || step is ReadLock || step is Call,
    ensures
        ends(line, ".await;"@) == is_async,
{
    reveal(spells);
    if is_async {
        if ends(line, ".lock().await;"@) {
            lemma_ends_await(line, ".lock().await;"@);
        } else if ends(line, ".write().await;"@) {
            lemma_ends_await(line, ".write().await;"@);
        } else if ends(line, ".read().await;"@) {
            lemma_ends_await(line, ".read().await;"@);
        } else {
            lemma_ends_await(line, " ).await;"@);
        }
    } else {
        if ends(line, ".lock().unwrap();"@) {
            lemma_ends_at_once(line, ".lock().unwrap();"@);
        } else if ends(line, ".write().unwrap();"@) {
            lemma_ends_at_once(line, ".write().unwrap();"@);
        } else if ends(line, ".read().unwrap();"@) {
            lemma_ends_at_once(line, ".read().unwrap();"@);
        } else {
            lemma_ends_at_once(line, " );"@);
        }
    }
}

proof fn lemma_waits(body: Seq<Seq<char>>, steps: Seq<Step>, is_async: bool)
    requires
        spell_all(body, steps, is_async),
    ensures
        waits(body, is_async),
{
    lemma_kinds(body, steps, is_async);
    assert forall|i: int|
        0 <= i < body.len() && (locks(#[trigger] body[i]) || runs(body[i])) implies ends(
        body[i],
        ".await;"@,
    ) == is_async by {
        lemma_line_waits(body[i], steps[i], is_async);
    }
}

/// Every lock that is taken, for reading or for writing, in the function or in the
/// priming one, and every run of the function itself, is awaited exactly where the
/// function is asynchronous.
pub proof fn law_waits_if_async(m: Macro, item: FnItemView)
    requires
        outcome_of(m, item) is Ok,
    ensures
        exists|p: Pieces|
            outcome_of(m, item)->Ok_0 == #[trigger] assembled(p) && waits(p.body, item.is_async)
                && waits(p.prime_body, item.is_async),
{
    let p = lemma_lines(m, item);
    lemma_waits(p.body, steps_of(m, false), item.is_async);
    lemma_waits(p.prime_body, steps_of(m, true), item.is_async);
}

/// Under the same arguments any two functions take the same steps, asynchronous or
/// not, each written as its own kind of function writes it.
pub proof fn law_same_steps(m: Macro, item: FnItemView, other: FnItemView)
    requires
        outcome_of(m, item) is Ok,
        outcome_of(m, other) is Ok,
    ensures
        exists|p: Pieces, q: Pieces, steps: Seq<Step>, prime: Seq<Step>|
            {
                &&& outcome_of(m, item)->Ok_0 == assembled(p)
                &&& outcome_of(m, other)->Ok_0 == assembled(q)
                &&& #[trigger] spell_all(p.body, steps, item.is_async)
                &&& #[trigger] spell_all(q.body, steps, other.is_async)
                &&& #[trigger] spell_all(p.prime_body, prime, item.is_async)
                &&& #[trigger] spell_all(q.prime_body, prime, other.is_async)
            },
{
    let p = lemma_lines(m, item);
    let q = lemma_lines(m, other);
    assert(spell_all(p.body, steps_of(m, false), item.is_async));
    assert(spell_all(q.body, steps_of(m, false), other.is_async));
    assert(spell_all(p.prime_body, steps_of(m, true), item.is_async));
    assert(spell_all(q.prime_body, steps_of(m, true), other.is_async));
}

// ---------------------------------------------------------------------------
// The key
// ---------------------------------------------------------------------------
proof fn lemma_part_listed(parts: Seq<Seq<char>>, sep: Seq<char>, i: int)
    requires
        0 <= i < parts.len(),
    ensures
        has(listed(parts, sep), parts[i]),
    decreases parts.len(),
{
    reveal(has);
    let all = listed(parts, sep);
    let part = parts[i];
    let none = Seq::<char>::empty();
    if parts.len() == 1 {
        assert(all =~= none + part + none);
    } else if i == 0 {
        let after = sep + listed(parts.drop_first(), sep);
        assert(all =~= none + part + after);
    } else {
        let rest = parts.drop_first();
        lemma_part_listed(rest, sep, i - 1);
        assert(rest[i - 1] == part);
        let (before, after) = choose|before: Seq<char>, after: Seq<char>|
            listed(rest, sep) == #[trigger] (before + part + after);
        assert(all =~= (parts[0] + sep + before) + part + after);
    }
}

proof fn lemma_has_around(line: Seq<char>, text: Seq<char>, one: Seq<char>, other: Seq<char>)
    requires
        has(line, text),
    ensures
        has(one + line + other, text),
{
    reveal(has);
    let (before, after) = choose|before: Seq<char>, after: Seq<char>|
        line == #[trigger] (before + text + after);
    assert(one + line + other =~= (one + before) + text + (after + other));
}

/// Every argument goes into the key that is made of the arguments, the last as well as
/// the first: a clone of it into the key, and its type into the key's type.
pub proof fn law_every_argument_in_key(arguments: Seq<ArgumentView>, i: int)
    requires
        forall|j: int| 0 <= j < arguments.len() ==> !(#[trigger] arguments[j] is Receiver),
        0 <= i < arguments.len(),
    ensures
        has(argument_key(arguments).convert, plain_name(arguments[i]->pattern) + ".clone()"@),
        has(argument_key(arguments).ty, arguments[i]->ty),
{
    law_key_holds_every_argument(arguments);
    let key = argument_key(arguments);
    assert(arguments[i] is Typed);
    let parts = choose|parts: Seq<Seq<char>>|
        parts.len() == arguments.len() && (forall|i: int|
            0 <= i < arguments.len() ==> (arguments[i] matches ArgumentView::Typed {
                attributes,
                pattern,
                ty,
            } ==> #[trigger] parts[i] == plain_name(pattern) + ".clone()"@)) && key.convert == "( "@
            + #[trigger] listed(parts, " , "@) + " )"@;
    assert(parts[i] == plain_name(arguments[i]->pattern) + ".clone()"@);
    lemma_part_listed(parts, " , "@, i);
    lemma_has_around(listed(parts, " , "@), parts[i], "( "@, " )"@);
    let types = choose|parts: Seq<Seq<char>>|
        parts.len() == arguments.len() && (forall|i: int|
            0 <= i < arguments.len() ==> (arguments[i] matches ArgumentView::Typed {
                attributes,
                pattern,
                ty,
            } ==> #[trigger] parts[i] == ty)) && key.ty == "( "@ + #[trigger] listed(parts, " , "@)
            + " )"@;
    assert(types[i] == arguments[i]->ty);
    lemma_part_listed(types, " , "@, i);
    lemma_has_around(listed(types, " , "@), types[i], "( "@, " )"@);
}

/// One more argument makes the key longer by a clone of it, and the key's type by its
/// type: no number of arguments is too many.
pub proof fn law_one_more_argument(arguments: Seq<ArgumentView>, last: ArgumentView)
    requires
        arguments.len() > 0,
        last is Typed,
    ensures
        exists|held: Seq<char>, types: Seq<char>|
            {
                &&& argument_key(arguments).convert == #[trigger] ("( "@ + held + " )"@)
                &&& argument_key(arguments).ty == #[trigger] ("( "@ + types + " )"@)
                &&& argument_key(arguments.push(last)).convert == "( "@ + (held + " , "@ + (
                plain_name(last->pattern) + ".clone()"@)) + " )"@
                &&& argument_key(arguments.push(last)).ty == "( "@ + (types + " , "@ + last->ty)
                    + " )"@
            },
{
    law_without_mut(last->pattern);
    let more = arguments.push(last);
    let copy = plain_name(last->pattern) + ".clone()"@;
    let copies = cloned(argument_names(arguments));
    let types = argument_types(arguments);
    assert(cloned(argument_names(more)) =~= copies.push(copy));
    assert(argument_types(more) =~= types.push(last->ty));
    assert(copies.push(copy).drop_last() =~= copies);
    assert(types.push(last->ty).drop_last() =~= types);
    let held = join(copies, " , "@);
    let held_types = join(types, " , "@);
    assert(argument_key(arguments).convert == "( "@ + held + " )"@);
    assert(argument_key(arguments).ty == "( "@ + held_types + " )"@);
}

// ---------------------------------------------------------------------------
// The errors of a store
// ---------------------------------------------------------------------------
/// The end of a call of a store that can fail: its error goes to the closure, and what
/// that gives is returned. In an asynchronous function the answer is awaited first.
pub open spec fn error_to(closure: Seq<char>, is_async: bool) -> Seq<char> {
    (if is_async {
        ".await.map_err( "@
    } else {
        ".map_err( "@
    }) + closure + " )?"@
}

/// The line asks the store for something: it looks, or it writes.
#[verifier::opaque]
pub open spec fn asks(line: Seq<char>) -> bool {
    begins(line, "if let "@)
}

/// Every line that asks the store hands on its error, and the last but one does ask.
pub open spec fn maps_errors(body: Seq<Seq<char>>, closure: Seq<char>, is_async: bool) -> bool {
    &&& forall|i: int|
        0 <= i < body.len() && asks(#[trigger] body[i]) ==> has(
            body[i],
            error_to(closure, is_async),
        )
    &&& body.len() > 1
    &&& asks(body[body.len() - 2])
}

proof fn lemma_asks(line: Seq<char>, head: Seq<char>, end: Seq<char>, tail: Seq<char>)
    requires
        line == head + end + tail,
        begins(head, "if let "@),
    ensures
        asks(line),
        has(line, end),
{
    reveal(asks);
    reveal(has);
    let rest = choose|rest: Seq<char>| head == #[trigger] ("if let "@ + rest);
    assert(line =~= "if let "@ + (rest + end + tail));
}

proof fn lemma_asks_not(line: Seq<char>, head: Seq<char>)
    requires
        begins(line, head),
        head.len() > 0,
        head[0] != 'i',
    ensures
        !asks(line),
{
    reveal(asks);
    reveal_strlit("if let ");
    lemma_not_begins(line, head, "if let "@, 0);
}

proof fn lemma_run_asks_not(line: Seq<char>, item: FnItemView)
    requires
        is_run(line, item),
    ensures
        !asks(line),
{
    reveal(is_run);
    reveal_strlit("fn inner( ");
    reveal_strlit("async fn inner( ");
    let names = choose|names: Seq<Seq<char>>| #[trigger]
        passes_all(names, item.arguments) && line == (if item.is_async {
            "async fn inner( "@
        } else {
            "fn inner( "@
        }) + item.argument_list + " ) "@ + arrow(item) + " "@ + item.body
            + " ; let result = inner( "@ + listed(names, " , "@) + (if item.is_async {
            " ).await;"@
        } else {
            " );"@
        });
    let head = if item.is_async {
        "async fn inner( "@
    } else {
        "fn inner( "@
    };
    let rest = item.argument_list + " ) "@ + arrow(item) + " "@ + item.body
        + " ; let result = inner( "@ + listed(names, " , "@) + (if item.is_async {
        " ).await;"@
    } else {
        " );"@
    });
    assert(line =~= head + rest);
    lemma_asks_not(line, head);
}

proof fn lemma_bare_asks_not(name: Seq<char>, is_async: bool)
    ensures
        !asks("{"@),
        !asks("}"@),
        !asks("result"@),
        !asks("let cache = &"@ + name + (if is_async {
            ".get().await;"@
        } else {
            ";"@
        })),
{
    reveal_strlit("{");
    reveal_strlit("}");
    reveal_strlit("result");
    reveal_strlit("let cache = &");
    lemma_itself("{"@);
    lemma_itself("}"@);
    lemma_itself("result"@);
    lemma_asks_not("{"@, "{"@);
    lemma_asks_not("}"@, "}"@);
    lemma_asks_not("result"@, "result"@);
    let tail = if is_async {
        ".get().await;"@
    } else {
        ";"@
    };
    let line = "let cache = &"@ + name + tail;
    assert(line =~= "let cache = &"@ + (name + tail));
    lemma_asks_not(line, "let cache = &"@);
}

proof fn lemma_look_maps(end: Seq<char>, back: Seq<char>)
    ensures
        ({
            let line = "if let Some(result) = cache.cache_get(&key)"@ + end + " { "@ + back + " }"@;
            asks(line) && looks(line) && has(line, end)
        }),
{
    reveal(looks);
    let head = "if let Some(result) = cache.cache_get(&key)"@;
    let line = head + end + " { "@ + back + " }"@;
    let tail = " { "@ + back + " }"@;
    reveal_strlit("if let Some(result) = cache.cache_get(&key)");
    reveal_strlit("if let Some(result) = cache");
    reveal_strlit("if let ");
    assert(head =~= "if let "@ + head.subrange(7, head.len() as int));
    assert(line =~= head + end + tail);
    lemma_asks(line, head, end, tail);
    let short = "if let Some(result) = cache"@;
    let rest = head.subrange(short.len() as int, head.len() as int);
    assert(head =~= short + rest);
    assert(line =~= short + (rest + end + tail));
}

proof fn lemma_write_maps(set: Seq<char>, end: Seq<char>)
    ensures
        ({
            let line = "if let Ok(result) = &result { "@ + (set + end + ";"@) + " }"@;
            asks(line) && has(line, end)
        }),
{
    let head = "if let Ok(result) = &result { "@;
    let line = head + (set + end + ";"@) + " }"@;
    reveal_strlit("if let Ok(result) = &result { ");
    reveal_strlit("if let ");
    let rest = head.subrange(7, head.len() as int);
    assert(head =~= "if let "@ + rest);
    assert(head + set =~= "if let "@ + (rest + set));
    assert(line =~= (head + set) + end + (";"@ + " }"@));
    lemma_asks(line, head + set, end, ";"@ + " }"@);
}

proof fn lemma_maps_errors(
    args: IOMacroArgs,
    item: FnItemView,
    p: Pieces,
    key_type: Seq<char>,
    key: Seq<char>,
    value: Seq<char>,
    ty: Seq<char>,
    create: Seq<char>,
    closure: Seq<char>,
)
    requires
        io_fits(args, item, p, key_type, key, value, ty, create, closure),
        !only_timed(args),
    ensures
        maps_errors(p.body, closure, item.is_async),
        maps_errors(p.prime_body, closure, item.is_async),
        p.body.len() > 2,
        looks(p.body[2]),
{
    let end = error_to(closure, item.is_async);
    lemma_look_maps(
        end,
        if args.with_cached_flag {
            "let mut r = ::cached::Return::new(result.clone()); r.was_cached = true; return Ok(r)"@
        } else {
            "return Ok(result.clone())"@
        },
    );
    lemma_write_maps(
        if args.with_cached_flag {
            "cache.cache_set(key, result.value.clone())"@
        } else {
            "cache.cache_set(key, result.clone())"@
        },
        end,
    );
    lemma_bare_asks_not(name_or_upper(args.name, item), item.is_async);
    lemma_run_asks_not(p.body[4], item);
    lemma_run_asks_not(p.prime_body[0], item);
    assert forall|i: int| 0 <= i < p.body.len() && asks(#[trigger] p.body[i]) implies has(
        p.body[i],
        end,
    ) by {
        assert(i == 2 || i == 6);
    }
    assert forall|i: int| 0 <= i < p.prime_body.len() && asks(
        #[trigger] p.prime_body[i],
    ) implies has(p.prime_body[i], end) by {
        assert(i == 2);
    }
}

/// A store that can fail, Redis or any other that is given, never makes the function
/// panic: each lookup and each write, in the function and in the priming one, hands
/// the store's error to the closure of `map_error`, and returns what that gives.
pub proof fn law_store_errors_are_mapped(args: IOMacroArgs, item: FnItemView)
    requires
        io_outcome(args, item) is Ok,
        !only_timed(args),
    ensures
        exists|p: Pieces, closure: Seq<char>|
            {
                &&& closure_of(args.map_error@) == Ok::<Seq<char>, Seq<char>>(closure)
                &&& io_outcome(args, item)->Ok_0 == assembled(p)
                &&& #[trigger] maps_errors(p.body, closure, item.is_async)
                &&& maps_errors(p.prime_body, closure, item.is_async)
                &&& p.body.len() > 2
                &&& looks(p.body[2])
            },
{
    law_io_cached_writes(args, item);
    let (p, key_type, key, value, ty, create, closure) = choose|
        p: Pieces,
        key_type: Seq<char>,
        key: Seq<char>,
        value: Seq<char>,
        ty: Seq<char>,
        create: Seq<char>,
        closure: Seq<char>,
    |
        #[trigger] io_fits(args, item, p, key_type, key, value, ty, create, closure) && io_outcome(
            args,
            item,
        )->Ok_0 == assembled(p);
    lemma_maps_errors(args, item, p, key_type, key, value, ty, create, closure);
}

} // verus!
