//! Text as sequences of characters: what the expansions are made of.

use vstd::prelude::*;
use vstd::string::*;

verus! {

/// The views of all elements, in order.
pub open spec fn views<T: View>(items: Seq<T>) -> Seq<T::V> {
    Seq::new(items.len(), |i: int| items[i]@)
}

/// The view of an optional value.
pub open spec fn opt<T: View>(item: Option<T>) -> Option<T::V> {
    match item {
        Some(x) => Some(x@),
        None => None,
    }
}

/// `parts` one after the other, with `sep` between neighbours.
pub open spec fn join(parts: Seq<Seq<char>>, sep: Seq<char>) -> Seq<char>
    decreases parts.len(),
{
    if parts.len() == 0 {
        Seq::empty()
    } else if parts.len() == 1 {
        parts[0]
    } else {
        join(parts.drop_last(), sep) + sep + parts.last()
    }
}

/// `part` occurs somewhere in `text`.
pub open spec fn contains(text: Seq<char>, part: Seq<char>) -> bool {
    exists|i: int| #[trigger] occurs_at(text, part, i)
}

/// `part` occurs in `text` from the index `i` on.
pub open spec fn occurs_at(text: Seq<char>, part: Seq<char>, i: int) -> bool {
    &&& 0 <= i <= text.len() - part.len()
    &&& text.subrange(i, i + part.len()) == part
}

/// `text` ends with `part`.
pub open spec fn ends_with(text: Seq<char>, part: Seq<char>) -> bool {
    occurs_at(text, part, text.len() - part.len())
}

/// The decimal digit of a number below ten.
pub open spec fn digit(d: nat) -> char {
    "0123456789"@[d as int]
}

/// The decimal notation of a number, without leading zeros.
pub open spec fn decimal(n: nat) -> Seq<char>
    decreases n,
{
    if n < 10 {
        seq![digit(n)]
    } else {
        decimal(n / 10).push(digit(n % 10))
    }
}

/// The notation of a truth value.
pub open spec fn truth(b: bool) -> Seq<char> {
    if b {
        "true"@
    } else {
        "false"@
    }
}

/// Joins `parts` with `sep` between neighbours.
pub fn join_texts(parts: &Vec<String>, sep: &str) -> (r: String)
    ensures
        r@ == join(views(parts@), sep@),
{
    let mut r = String::new();
    for i in 0..parts.len()
        invariant
            r@ == join(views(parts@).take(i as int), sep@),
    {
        if i > 0 {
            r.append(sep);
        }
        r.append(parts[i].as_str());
        proof {
            let next = views(parts@).take(i + 1);
            assert(next.drop_last() == views(parts@).take(i as int));
            if i == 0 {
                assert(r@ == next[0]);
            }
        }
    }
    assert(views(parts@).take(parts.len() as int) == views(parts@));
    r
}

/// Whether `part` occurs in `text`.
pub fn text_contains(text: &str, part: &str) -> (r: bool)
    ensures
        r == contains(text@, part@),
{
    let n: usize = text.unicode_len();
    let m: usize = part.unicode_len();
    if m > n {
        return false;
    }
    let mut i: usize = 0;
    while i <= n - m
        invariant
            n == text@.len(),
            m == part@.len(),
            m <= n,
            i <= n - m + 1,
            forall|k: int| 0 <= k < i ==> !#[trigger] occurs_at(text@, part@, k),
        decreases n - i,
    {
        if matches_at(text, part, i) {
            assert(occurs_at(text@, part@, i as int));
            return true;
        }
        if i == n - m {
            return false;
        }
        i = i + 1;
    }
    false
}

/// Whether `part` occurs in `text` from the index `i` on.
fn matches_at(text: &str, part: &str, i: usize) -> (r: bool)
    requires
        i + part@.len() <= text@.len(),
        text@.len() <= usize::MAX,
    ensures
        r == occurs_at(text@, part@, i as int),
{
    let m: usize = part.unicode_len();
    let ghost window = text@.subrange(i as int, i + part@.len());
    let mut k: usize = 0;
    while k < m
        invariant
            k <= m,
            m == part@.len(),
            i + m <= text@.len(),
            text@.len() <= usize::MAX,
            window == text@.subrange(i as int, i + part@.len()),
            forall|j: int| 0 <= j < k ==> #[trigger] window[j] == part@[j],
        decreases m - k,
    {
        if text.get_char(i + k) != part.get_char(k) {
            assert(window[k as int] != part@[k as int]);
            return false;
        }
        k = k + 1;
    }
    assert(window == part@);
    true
}

/// What stands before `part` in `text`, where `text` ends with it.
pub fn strip_end(text: &str, part: &str) -> (r: Option<String>)
    ensures
        match r {
            Some(rest) => ends_with(text@, part@) && rest@ == text@.take(
                text@.len() - part@.len(),
            ),
            None => !ends_with(text@, part@),
        },
{
    let n: usize = text.unicode_len();
    let m: usize = part.unicode_len();
    if m <= n && matches_at(text, part, n - m) {
        Some(text.substring_char(0, n - m).to_owned())
    } else {
        None
    }
}

/// `text` without its spaces.
pub open spec fn spaceless(text: Seq<char>) -> Seq<char> {
    text.filter(|c: char| c != ' ')
}

/// Drops the spaces of `text`.
pub fn without_spaces(text: &str) -> (r: String)
    ensures
        r@ == spaceless(text@),
{
    let n: usize = text.unicode_len();
    let mut r = String::new();
    let mut i: usize = 0;
    let ghost keep = |c: char| c != ' ';
    proof {
        reveal(Seq::filter);
    }
    while i < n
        invariant
            i <= n,
            n == text@.len(),
            keep == (|c: char| c != ' '),
            r@ == text@.take(i as int).filter(keep),
        decreases n - i,
    {
        proof {
            reveal(Seq::filter);
            assert(text@.take(i + 1).drop_last() == text@.take(i as int));
        }
        if text.get_char(i) != ' ' {
            r.append(text.substring_char(i, i + 1));
            assert(text@.subrange(i as int, i + 1) == seq![text@[i as int]]);
        }
        i = i + 1;
    }
    assert(text@.take(n as int) == text@);
    r
}

/// Writes a number in decimal notation.
pub fn decimal_text(n: u64) -> (r: String)
    ensures
        r@ == decimal(n as nat),
    decreases n,
{
    proof {
        reveal_strlit("0123456789");
    }
    let digits = "0123456789";
    let d: usize = (n % 10) as usize;
    let last = digits.substring_char(d, d + 1);
    assert(digits@.subrange(d as int, d + 1) == seq![digits@[d as int]]);
    if n < 10 {
        last.to_owned()
    } else {
        let mut r = decimal_text(n / 10);
        r.append(last);
        r
    }
}

/// Writes a truth value.
pub fn truth_text(b: bool) -> (r: &'static str)
    ensures
        r@ == truth(b),
{
    if b {
        "true"
    } else {
        "false"
    }
}

} // verus!
