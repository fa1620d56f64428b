//! What an expansion says, read off its text.
//!
//! The laws here speak of the text that comes out and of what goes in: the
//! arguments of the attribute, the parts of the function, and what the outside
//! crates make of the texts among them.

use crate::args::{IOMacroArgs, MacroArgs, OnceMacroArgs};
use crate::caching::{caching_of, return_block, set_block, Caching};
use crate::expansion::{call_text, expansion, names_of, NamesView};
use crate::helpers::{
    argument_declaration, argument_declarations, argument_key, argument_name, argument_names,
    argument_type, argument_types, cloned, filled_attributes, has_receiver, idents, inner_type,
    names_return, output_clause, pattern_text, signature, value_type, without_mut,
};
use crate::io::{
    io_body, io_cached_value, io_expansion, io_opening, io_outcome, io_plan, io_prime_body,
    io_return_block, io_static, io_texts, io_value_type, mapped, IoPlanView,
};
use crate::item::FnItemView;
use crate::keyed::{
    cached_expansion, cached_outcome, cached_plan, cached_texts, locked_opening, locked_static,
    CachedPlanView,
};
use crate::meaning::{steps_of, Macro};
use crate::outside::{block_of, closure_of, literal, type_of, upper};
use crate::rejection::RejectionView;
use crate::single::{
    once_expansion, once_opening, once_outcome, once_plan, once_static, once_texts, OncePlanView,
};
use crate::steps::{
    body_text, cached_steps, once_steps, prime_steps, step_text, Step, StepTextsView,
};
use crate::syntax::{
    ArgumentView, AttributeView, PatternView, SegmentArgumentsView, SegmentView, TokenView,
};
use crate::text::{contains, decimal, ends_with, join, occurs_at};
use vstd::prelude::*;

verus! {

// ---------------------------------------------------------------------------
// Lists and lines
// ---------------------------------------------------------------------------
/// The parts in their order, each but the last followed by `sep`.
pub open spec fn listed(parts: Seq<Seq<char>>, sep: Seq<char>) -> Seq<char>
    decreases parts.len(),
{
    if parts.len() == 0 {
        Seq::empty()
    } else if parts.len() == 1 {
        parts[0]
    } else {
        parts[0] + sep + listed(parts.drop_first(), sep)
    }
}

/// The lines in their order, each followed by a space.
pub open spec fn lines(parts: Seq<Seq<char>>) -> Seq<char>
    decreases parts.len(),
{
    if parts.len() == 0 {
        Seq::empty()
    } else {
        parts[0] + " "@ + lines(parts.drop_first())
    }
}

proof fn lemma_listed_push(parts: Seq<Seq<char>>, last: Seq<char>, sep: Seq<char>)
    requires
        parts.len() > 0,
    ensures
        listed(parts.push(last), sep) == listed(parts, sep) + sep + last,
    decreases parts.len(),
{
    let all = parts.push(last);
    if parts.len() == 1 {
        assert(all.drop_first() =~= seq![last]);
        assert(listed(seq![last], sep) == last);
    } else {
        assert(all.drop_first() =~= parts.drop_first().push(last));
        lemma_listed_push(parts.drop_first(), last, sep);
        assert(parts[0] + sep + (listed(parts.drop_first(), sep) + sep + last) =~= parts[0] + sep
            + listed(parts.drop_first(), sep) + sep + last);
    }
}

/// Joined texts stand in their order with the separator between neighbours, and
/// nothing else does.
pub proof fn law_joined(parts: Seq<Seq<char>>, sep: Seq<char>)
    ensures
        join(parts, sep) == listed(parts, sep),
    decreases parts.len(),
{
    if parts.len() > 1 {
        law_joined(parts.drop_last(), sep);
        lemma_listed_push(parts.drop_last(), parts.last(), sep);
        assert(parts.drop_last().push(parts.last()) =~= parts);
    }
}

proof fn lemma_lines_push(parts: Seq<Seq<char>>, last: Seq<char>)
    ensures
        lines(parts.push(last)) == lines(parts) + last + " "@,
    decreases parts.len(),
{
    let all = parts.push(last);
    if parts.len() == 0 {
        assert(all.drop_first() =~= Seq::<Seq<char>>::empty());
        assert(lines(all.drop_first()) =~= Seq::<char>::empty());
        assert(lines(all) =~= last + " "@);
        assert(lines(parts) + last + " "@ =~= last + " "@);
    } else {
        assert(all.drop_first() =~= parts.drop_first().push(last));
        lemma_lines_push(parts.drop_first(), last);
        assert(parts[0] + " "@ + (lines(parts.drop_first()) + last + " "@) =~= parts[0] + " "@
            + lines(parts.drop_first()) + last + " "@);
    }
}

/// The line is the text of the step.
pub open spec fn is_line_of(line: Seq<char>, step: Step, texts: StepTextsView) -> bool {
    match step {
        Step::Open => line == "{"@,
        Step::Close => line == "}"@,
        Step::Lock => line == texts.lock,
        Step::ReadLock => line == texts.read_lock,
        Step::Borrow => line == texts.borrow,
        Step::Lookup => line == texts.lookup,
        Step::Call => line == texts.call,
        Step::Store => line == texts.store,
        Step::Finish => line == "result"@,
    }
}

/// A body is written step by step: as many lines as steps, each the text of the step
/// at its place.
pub proof fn law_body_is_its_steps(steps: Seq<Step>, texts: StepTextsView)
    ensures
        exists|parts: Seq<Seq<char>>|
            parts.len() == steps.len() && (forall|i: int|
                0 <= i < steps.len() ==> is_line_of(#[trigger] parts[i], steps[i], texts))
                && body_text(steps, texts) == #[trigger] lines(parts),
{
    lemma_body_lines(steps, texts);
    let parts = step_lines(steps, texts);
    assert(body_text(steps, texts) == lines(parts));
}

/// The texts of some steps, one by one.
spec fn step_lines(steps: Seq<Step>, texts: StepTextsView) -> Seq<Seq<char>> {
    Seq::new(steps.len(), |i: int| step_text(steps[i], texts))
}

proof fn lemma_body_lines(steps: Seq<Step>, texts: StepTextsView)
    ensures
        body_text(steps, texts) == lines(step_lines(steps, texts)),
    decreases steps.len(),
{
    if steps.len() == 0 {
        assert(step_lines(steps, texts) =~= Seq::<Seq<char>>::empty());
    } else {
        lemma_body_lines(steps.drop_last(), texts);
        let before = step_lines(steps.drop_last(), texts);
        assert(step_lines(steps, texts) =~= before.push(step_text(steps.last(), texts)));
        lemma_lines_push(before, step_text(steps.last(), texts));
    }
}

/// One text is found in another exactly where the other is some text, the one, and
/// some text; and at its end exactly where nothing follows it. What is left before it
/// is then what stood before it.
pub proof fn law_found(text: Seq<char>, part: Seq<char>)
    ensures
        contains(text, part) <==> exists|before: Seq<char>, after: Seq<char>|
            text == #[trigger] (before + part + after),
        ends_with(text, part) <==> exists|before: Seq<char>| text == #[trigger] (before + part),
        forall|before: Seq<char>|
            text == #[trigger] (before + part) ==> text.take(text.len() - part.len()) == before,
{
    if contains(text, part) {
        let i = choose|i: int| #[trigger] occurs_at(text, part, i);
        let before = text.subrange(0, i);
        let after = text.subrange(i + part.len(), text.len() as int);
        assert(text =~= before + part + after) by {
            assert(text.subrange(i, i + part.len()) == part);
            assert forall|j: int| 0 <= j < part.len() implies text[i + j] == part[j] by {
                assert(text.subrange(i, i + part.len())[j] == part[j]);
            }
        }
    }
    assert forall|before: Seq<char>, after: Seq<char>|
        text == #[trigger] (before + part + after) implies contains(text, part) by {
        let i = before.len() as int;
        assert(text.subrange(i, i + part.len()) =~= part);
        assert(occurs_at(text, part, i));
    }
    if ends_with(text, part) {
        let before = text.take(text.len() - part.len());
        let i = text.len() - part.len();
        assert(text =~= before + part) by {
            assert forall|j: int| 0 <= j < part.len() implies text[i + j] == part[j] by {
                assert(text.subrange(i, i + part.len())[j] == part[j]);
            }
        }
    }
    assert forall|before: Seq<char>| text == #[trigger] (before + part) implies ends_with(
        text,
        part,
    ) && text.take(text.len() - part.len()) == before by {
        assert(text.subrange(before.len() as int, text.len() as int) =~= part);
        assert(text.take(text.len() - part.len()) =~= before);
    }
}

/// The identifiers of tokens are those of their parts, in order; a token is one, or
/// has none.
pub proof fn law_idents(one: Seq<TokenView>, other: Seq<TokenView>, token: TokenView)
    ensures
        idents(one + other) == idents(one) + idents(other),
        idents(seq![token]) == match token {
            TokenView::Ident(name) => seq![name],
            _ => Seq::<Seq<char>>::empty(),
        },
    decreases other.len(),
{
    let none = Seq::<TokenView>::empty();
    assert(idents(none) =~= Seq::<Seq<char>>::empty());
    assert(seq![token].drop_last() =~= none);
    assert(idents(seq![token]) =~= match token {
        TokenView::Ident(name) => seq![name],
        _ => Seq::<Seq<char>>::empty(),
    });
    if other.len() == 0 {
        assert(one + other =~= one);
        assert(idents(one) + idents(other) =~= idents(one));
    } else {
        law_idents(one, other.drop_last(), token);
        assert((one + other).drop_last() =~= one + other.drop_last());
        assert((one + other).last() == other.last());
        assert(idents(one + other) =~= idents(one) + idents(other));
    }
}

/// The number that decimal digits stand for.
pub open spec fn number_of(digits: Seq<char>) -> int
    decreases digits.len(),
{
    if digits.len() == 0 {
        0
    } else {
        number_of(digits.drop_last()) * 10 + (digits.last() as int - '0' as int)
    }
}

/// The decimal notation of a number is made of digits, begins with a zero only
/// where it is one, and stands for the number.
pub proof fn law_decimal(n: nat)
    ensures
        decimal(n).len() > 0,
        forall|i: int| 0 <= i < decimal(n).len() ==> '0' <= #[trigger] decimal(n)[i] <= '9',
        decimal(n).len() > 1 ==> decimal(n)[0] != '0',
        number_of(decimal(n)) == n,
    decreases n,
{
    reveal_strlit("0123456789");
    if n < 10 {
        reveal_with_fuel(number_of, 2);
        assert(decimal(n).drop_last() =~= Seq::<char>::empty());
    } else {
        law_decimal(n / 10);
        let before = decimal(n / 10);
        assert(decimal(n).drop_last() =~= before);
        assert(decimal(n)[0] == before[0]);
        assert(before.len() == 1 ==> before[0] != '0') by {
            if before.len() == 1 {
                reveal_with_fuel(number_of, 2);
                assert(before.drop_last() =~= Seq::<char>::empty());
            }
        }
    }
}

// ---------------------------------------------------------------------------
// Arguments
// ---------------------------------------------------------------------------
/// How a pattern is written where its binding must not be mutable.
pub open spec fn plain_name(pattern: PatternView) -> Seq<char> {
    match pattern {
        PatternView::Other(text) => text,
        PatternView::Binding { by_ref, mutable, ident, subpattern } => (if by_ref {
            "ref "@
        } else {
            ""@
        }) + ident + (match subpattern {
            Some(inner) => " @ "@ + inner,
            None => ""@,
        }),
    }
}

/// A pattern without `mut` is the pattern but for that word, and is written so.
pub proof fn law_without_mut(pattern: PatternView)
    ensures
        pattern_text(without_mut(pattern)) == plain_name(pattern),
        pattern matches PatternView::Other(text) ==> without_mut(pattern) == pattern
            && pattern_text(pattern) == text,
        pattern matches PatternView::Binding { by_ref, mutable, ident, subpattern } ==> {
            &&& without_mut(pattern) is Binding
            &&& without_mut(pattern)->by_ref == by_ref
            &&& !without_mut(pattern)->mutable
            &&& without_mut(pattern)->ident == ident
            &&& without_mut(pattern)->subpattern == subpattern
            &&& !mutable ==> without_mut(pattern) == pattern
            &&& mutable && by_ref ==> pattern_text(pattern) == "ref mut "@ + plain_name(
                without_ref(pattern),
            )
            &&& mutable && !by_ref ==> pattern_text(pattern) == "mut "@ + plain_name(pattern)
        },
{
    if let PatternView::Binding { by_ref, mutable, ident, subpattern } = pattern {
        let tail = match subpattern {
            Some(inner) => " @ "@ + inner,
            None => ""@,
        };
        reveal_strlit("");
        assert(""@ =~= Seq::<char>::empty());
        assert("ref "@ + ""@ + ident + tail =~= "ref "@ + ident + tail);
        assert(""@ + ""@ + ident + tail =~= ""@ + ident + tail);
        assert(""@ + "mut "@ + ident + tail =~= "mut "@ + (""@ + ident + tail));
        reveal_strlit("ref mut ");
        reveal_strlit("ref ");
        reveal_strlit("mut ");
        assert("ref "@ + "mut "@ =~= "ref mut "@);
        assert("ref mut "@ + ident + tail =~= "ref mut "@ + (""@ + ident + tail));
    }
}

/// The pattern, without `ref`.
pub open spec fn without_ref(pattern: PatternView) -> PatternView {
    match pattern {
        PatternView::Other(text) => pattern,
        PatternView::Binding { by_ref, mutable, ident, subpattern } => PatternView::Binding {
            by_ref: false,
            mutable,
            ident,
            subpattern,
        },
    }
}

/// These are the arguments as a call passes them on: as many, and each by its name.
pub open spec fn passes_all(names: Seq<Seq<char>>, arguments: Seq<ArgumentView>) -> bool {
    &&& names.len() == arguments.len()
    &&& forall|i: int|
        0 <= i < arguments.len() ==> (arguments[i] matches ArgumentView::Typed {
            attributes,
            pattern,
            ty,
        } ==> #[trigger] names[i] == plain_name(pattern))
}

/// The expression is the tuple of clones of all arguments: it has as many
/// components, and each is a clone of the argument at its place.
pub open spec fn is_argument_tuple(key: Seq<char>, arguments: Seq<ArgumentView>) -> bool {
    exists|parts: Seq<Seq<char>>|
        parts.len() == arguments.len() && (forall|i: int|
            0 <= i < arguments.len() ==> (arguments[i] matches ArgumentView::Typed {
                attributes,
                pattern,
                ty,
            } ==> #[trigger] parts[i] == plain_name(pattern) + ".clone()"@)) && key == "( "@
            + #[trigger] listed(parts, " , "@) + " )"@
}

/// The type is the tuple of the types of all arguments: it has as many components,
/// and each is the type of the argument at its place.
pub open spec fn is_argument_tuple_type(key: Seq<char>, arguments: Seq<ArgumentView>) -> bool {
    exists|parts: Seq<Seq<char>>|
        parts.len() == arguments.len() && (forall|i: int|
            0 <= i < arguments.len() ==> (arguments[i] matches ArgumentView::Typed {
                attributes,
                pattern,
                ty,
            } ==> #[trigger] parts[i] == ty)) && key == "( "@ + #[trigger] listed(parts, " , "@)
            + " )"@
}

proof fn lemma_name(argument: ArgumentView)
    ensures
        argument matches ArgumentView::Typed { attributes, pattern, ty } ==> argument_name(argument)
            == plain_name(pattern),
{
    reveal_strlit("");
    if let ArgumentView::Typed { attributes, pattern, ty } = argument {
        if let PatternView::Binding { by_ref, mutable, ident, subpattern } = pattern {
            let head = if by_ref {
                "ref "@
            } else {
                ""@
            };
            assert(head + ""@ =~= head);
        }
    }
}

proof fn lemma_names(arguments: Seq<ArgumentView>)
    ensures
        passes_all(argument_names(arguments), arguments),
{
    assert forall|i: int|
        0 <= i < arguments.len() implies (arguments[i] matches ArgumentView::Typed {
        attributes,
        pattern,
        ty,
    } ==> #[trigger] argument_names(arguments)[i] == plain_name(pattern)) by {
        lemma_name(arguments[i]);
    }
}

/// The names, types and declarations of arguments are as many as the arguments, each
/// that of the argument at its place.
pub proof fn law_arguments_one_by_one(arguments: Seq<ArgumentView>)
    ensures
        passes_all(argument_names(arguments), arguments),
        argument_types(arguments).len() == arguments.len(),
        argument_declarations(arguments).len() == arguments.len(),
        forall|i: int|
            0 <= i < arguments.len() ==> (arguments[i] matches ArgumentView::Typed {
                attributes,
                pattern,
                ty,
            } ==> #[trigger] argument_types(arguments)[i] == ty),
        forall|i: int|
            0 <= i < arguments.len() ==> declares(
                #[trigger] argument_declarations(arguments)[i],
                arguments[i],
            ),
{
    lemma_names(arguments);
    let declared = argument_declarations(arguments);
    assert forall|i: int| 0 <= i < arguments.len() implies declares(
        #[trigger] declared[i],
        arguments[i],
    ) by {
        let argument = arguments[i];
        assert(declared[i] == argument_declaration(argument));
        lemma_name(argument);
        if let ArgumentView::Typed { attributes, pattern, ty } = argument {
            law_joined(attributes, " "@);
        }
    }
}

/// The key that is made of the arguments holds every one of them, at its place and
/// with its type.
pub proof fn law_key_holds_every_argument(arguments: Seq<ArgumentView>)
    ensures
        is_argument_tuple(argument_key(arguments).convert, arguments),
        is_argument_tuple_type(argument_key(arguments).ty, arguments),
{
    lemma_names(arguments);
    let copies = cloned(argument_names(arguments));
    law_joined(copies, " , "@);
    assert forall|i: int|
        0 <= i < arguments.len() implies (arguments[i] matches ArgumentView::Typed {
        attributes,
        pattern,
        ty,
    } ==> #[trigger] copies[i] == plain_name(pattern) + ".clone()"@) by {
        assert(argument_names(arguments)[i] == argument_name(arguments[i]));
        lemma_name(arguments[i]);
    }
    assert(argument_key(arguments).convert == "( "@ + listed(copies, " , "@) + " )"@);
    let types = argument_types(arguments);
    law_joined(types, " , "@);
    assert forall|i: int|
        0 <= i < arguments.len() implies (arguments[i] matches ArgumentView::Typed {
        attributes,
        pattern,
        ty,
    } ==> #[trigger] types[i] == ty) by {
        assert(types[i] == argument_type(arguments[i]));
    }
    assert(argument_key(arguments).ty == "( "@ + listed(types, " , "@) + " )"@);
}

// ---------------------------------------------------------------------------
// The frame
// ---------------------------------------------------------------------------
/// The pieces of an expansion, as they stand in its text.
pub struct Pieces {
    pub cache_doc: Seq<char>,
    pub cache: Seq<char>,
    pub attributes: Seq<Seq<char>>,
    pub visibility: Seq<char>,
    pub signature: Seq<char>,
    pub opening: Seq<char>,
    pub body: Seq<Seq<char>>,
    pub prime_doc: Seq<char>,
    pub prime_signature: Seq<char>,
    pub prime_body: Seq<Seq<char>>,
}

/// The text that is made of the pieces: the documented cache, the function, and the
/// documented function that primes the cache.
#[verifier::opaque]
pub open spec fn assembled(p: Pieces) -> Seq<char> {
    p.cache_doc + " "@ + p.cache + " "@ + listed(p.attributes, " "@) + " "@ + p.visibility + " "@
        + p.signature + " { "@ + p.opening + " "@ + lines(p.body) + "} "@ + p.prime_doc
        + " #[allow(dead_code)] "@ + p.visibility + " "@ + p.prime_signature + " { "@ + p.opening
        + " "@ + lines(p.prime_body) + "}"@
}

/// A doc attribute with this comment.
pub open spec fn documents(text: Seq<char>, comment: Seq<char>) -> bool {
    text == "#[doc = "@ + literal(comment) + "]"@
}

/// The attributes are the function's own, in their order, and then a doc comment with
/// the text of a string literal, under a heading of its own where the function has a doc
/// comment already.
pub open spec fn attributes_fit(
    attributes: Seq<Seq<char>>,
    own: Seq<AttributeView>,
    lit: Seq<char>,
) -> bool {
    let has_doc = exists|i: int| 0 <= i < own.len() && (#[trigger] own[i]).path == "doc"@;
    let n = own.len() as int;
    &&& forall|i: int| 0 <= i < n ==> #[trigger] attributes[i] == own[i].text
    &&& has_doc ==> attributes.len() == n + 3 && attributes[n] == "#[doc = \"\"]"@ && attributes[n
        + 1] == "#[doc = \"# Caching\"]"@
    &&& !has_doc ==> attributes.len() == n + 1
    &&& attributes.last() == "#[doc = "@ + lit + "]"@
}

/// The text declares an argument: its attributes, its name and its type. The dots of
/// a variadic function have no type.
pub open spec fn declares(text: Seq<char>, argument: ArgumentView) -> bool {
    argument matches ArgumentView::Typed { attributes, pattern, ty } ==> {
        let dots = ty == "..."@ && pattern == PatternView::Other("..."@);
        text == listed(attributes, " "@) + " "@ + plain_name(pattern) + (if dots {
            ""@
        } else {
            " : "@ + ty
        })
    }
}

/// The arrow and the return type, where there is one.
pub open spec fn arrow(item: FnItemView) -> Seq<char> {
    match item.output {
        Some(output) => "-> "@ + output.text,
        None => ""@,
    }
}

/// The text is the function's signature under the name `ident`: its qualifiers,
/// generics, return type and bounds, and each of its arguments, none mutable.
pub open spec fn is_signature(text: Seq<char>, item: FnItemView, ident: Seq<char>) -> bool {
    let n = item.arguments.len() as int;
    let listed_dots = n > 0 && (item.arguments[n - 1] matches ArgumentView::Typed {
        attributes,
        pattern,
        ty,
    } && ty == "..."@);
    let dots = if item.variadic.len() == 0 || listed_dots {
        ""@
    } else if n == 0 {
        item.variadic
    } else {
        " , "@ + item.variadic
    };
    exists|declared: Seq<Seq<char>>|
        declared.len() == n && (forall|i: int|
            0 <= i < n ==> declares(#[trigger] declared[i], item.arguments[i])) && text == (
        if item.is_const {
            "const "@
        } else {
            ""@
        }) + (if item.is_async {
            "async "@
        } else {
            ""@
        }) + (if item.is_unsafe {
            "unsafe "@
        } else {
            ""@
        }) + item.abi + " fn "@ + ident + " "@ + item.generics + " ( "@ + #[trigger] listed(
            declared,
            " , "@,
        ) + dots + " ) "@ + arrow(item) + " "@ + item.where_clause
}

/// The frame is that of the function, for a cache of this name.
#[verifier::opaque]
pub open spec fn frame_fits(p: Pieces, item: FnItemView, cache: Seq<char>) -> bool {
    &&& documents(p.cache_doc, "Cached static for the [`"@ + item.ident + "`] function."@)
    &&& documents(p.prime_doc, "Primes the cached function [`"@ + item.ident + "`]."@)
    &&& attributes_fit(
        p.attributes,
        item.attributes,
        literal("This is a cached function that uses the [`"@ + cache + "`] cached static."@),
    )
    &&& p.visibility == item.visibility
    &&& is_signature(p.signature, item, item.ident)
    &&& is_signature(p.prime_signature, item, item.ident + "_prime_cache"@)
}

/// The line declares the function itself under another name, with its arguments as
/// they were written and its own body, and runs it on all its arguments; an
/// asynchronous one is awaited.
#[verifier::opaque]
pub open spec fn is_run(line: Seq<char>, item: FnItemView) -> bool {
    exists|names: Seq<Seq<char>>| #[trigger]
        passes_all(names, item.arguments) && line == (if item.is_async {
            "async fn inner( "@
        } else {
            "fn inner( "@
        }) + item.argument_list + " ) "@ + arrow(item) + " "@ + item.body
            + " ; let result = inner( "@ + listed(names, " , "@) + (if item.is_async {
            " ).await;"@
        } else {
            " );"@
        })
}

/// A run of the function is its own body under another name, called with all its
/// arguments.
pub proof fn law_run(item: FnItemView)
    requires
        !has_receiver(item.arguments),
    ensures
        is_run(call_text(item), item),
{
    reveal(is_run);
    lemma_names(item.arguments);
    let names = argument_names(item.arguments);
    law_joined(names, " , "@);
    assert(passes_all(names, item.arguments));
}

/// The signature under any name is the function's own, but for the name and for
/// `mut` on its arguments.
pub proof fn law_signature(item: FnItemView, ident: Seq<char>)
    requires
        !has_receiver(item.arguments),
    ensures
        is_signature(signature(item, ident), item, ident),
{
    let declared = argument_declarations(item.arguments);
    law_joined(declared, " , "@);
    law_arguments_one_by_one(item.arguments);
    let n = item.arguments.len() as int;
    if n > 0 {
        assert(!(item.arguments[n - 1] is Receiver));
        assert(item.arguments.last() == item.arguments[n - 1]);
    }
}

/// The attributes of the cached function are its own, and then the doc comment.
pub proof fn law_attributes(own: Seq<AttributeView>, lit: Seq<char>)
    ensures
        attributes_fit(filled_attributes(own, lit), own, lit),
{
}

/// The pieces of an expansion that is laid out in steps.
spec fn pieces_of(
    item: FnItemView,
    cache_name: Seq<char>,
    cache: Seq<char>,
    opening: Seq<char>,
    steps: Seq<Step>,
    prime: Seq<Step>,
    texts: StepTextsView,
) -> Pieces {
    let prime_name = item.ident + "_prime_cache"@;
    let names = names_of(cache_name, prime_name, item.ident);
    Pieces {
        cache_doc: "#[doc = "@ + names.static_doc + "]"@,
        cache,
        attributes: filled_attributes(item.attributes, names.cached_doc),
        visibility: item.visibility,
        signature: signature(item, item.ident),
        opening,
        body: step_lines(steps, texts),
        prime_doc: "#[doc = "@ + names.prime_doc + "]"@,
        prime_signature: signature(item, prime_name),
        prime_body: step_lines(prime, texts),
    }
}

/// Whatever the names, the store and the bodies are, both functions stand in the same
/// frame: each has its doc comment, the visibility and the signature of the function,
/// under its own name, the same opening, and its own body.
pub proof fn law_frame(
    item: FnItemView,
    names: NamesView,
    cache: Seq<char>,
    opening: Seq<char>,
    body: Seq<char>,
    prime_body: Seq<char>,
)
    requires
        !has_receiver(item.arguments),
    ensures
        exists|attributes: Seq<Seq<char>>, head: Seq<char>, prime_head: Seq<char>|
            {
                &&& #[trigger] attributes_fit(attributes, item.attributes, names.cached_doc)
                &&& #[trigger] is_signature(head, item, item.ident)
                &&& #[trigger] is_signature(prime_head, item, names.prime)
                &&& expansion(item, names, cache, opening, body, prime_body) == "#[doc = "@
                    + names.static_doc + "]"@ + " "@ + cache + " "@ + listed(attributes, " "@)
                    + " "@ + item.visibility + " "@ + head + " { "@ + opening + " "@ + body + "} "@
                    + ("#[doc = "@ + names.prime_doc + "]"@) + " #[allow(dead_code)] "@
                    + item.visibility + " "@ + prime_head + " { "@ + opening + " "@ + prime_body
                    + "}"@
            },
{
    let attributes = filled_attributes(item.attributes, names.cached_doc);
    law_attributes(item.attributes, names.cached_doc);
    law_joined(attributes, " "@);
    law_signature(item, item.ident);
    law_signature(item, names.prime);
    assert(attributes_fit(attributes, item.attributes, names.cached_doc));
    assert(is_signature(signature(item, item.ident), item, item.ident));
    assert(is_signature(signature(item, names.prime), item, names.prime));
}

proof fn lemma_pieces(
    item: FnItemView,
    cache_name: Seq<char>,
    cache: Seq<char>,
    opening: Seq<char>,
    steps: Seq<Step>,
    prime: Seq<Step>,
    texts: StepTextsView,
)
    requires
        !has_receiver(item.arguments),
    ensures
        ({
            let p = pieces_of(item, cache_name, cache, opening, steps, prime, texts);
            &&& expansion(
                item,
                names_of(cache_name, item.ident + "_prime_cache"@, item.ident),
                cache,
                opening,
                body_text(steps, texts),
                body_text(prime, texts),
            ) == assembled(p)
            &&& frame_fits(p, item, cache_name)
        }),
{
    reveal(frame_fits);
    reveal(assembled);
    let prime_name = item.ident + "_prime_cache"@;
    let names = names_of(cache_name, prime_name, item.ident);
    lemma_body_lines(steps, texts);
    lemma_body_lines(prime, texts);
    law_joined(filled_attributes(item.attributes, names.cached_doc), " "@);
    law_signature(item, item.ident);
    law_signature(item, prime_name);
    law_attributes(item.attributes, names.cached_doc);
}

// ---------------------------------------------------------------------------
// What `cached` writes
// ---------------------------------------------------------------------------
/// The name of the cache.
pub open spec fn name_or_upper(name: Option<String>, item: FnItemView) -> Seq<char> {
    match name {
        Some(name) => name@,
        None => upper(item.ident),
    }
}

/// A value as the function returns it.
pub open spec fn as_returned(result: bool, option: bool, value: Seq<char>) -> Seq<char> {
    if result {
        "Ok("@ + value + ")"@
    } else if option {
        "Some("@ + value + ")"@
    } else {
        value
    }
}

/// What is done with the result if it is one to cache.
pub open spec fn if_cached(result: bool, option: bool, write: Seq<char>) -> Seq<char> {
    if result {
        "if let Ok(result) = &result { "@ + write + " }"@
    } else if option {
        "if let Some(result) = &result { "@ + write + " }"@
    } else {
        write
    }
}

/// The cached `result` is returned, its flag set where that is asked for.
pub open spec fn hands_back(result: bool, option: bool, flag: bool) -> Seq<char> {
    if flag {
        "let mut r = result.clone(); r.was_cached = true; return "@ + as_returned(
            result,
            option,
            "r"@,
        )
    } else {
        "return "@ + as_returned(result, option, "result.clone()"@)
    }
}

/// What is returned, and what is cached, goes by the two arguments alone: whatever the
/// write is, it is done for each result that is one to cache.
pub proof fn law_what_is_cached(result: bool, option: bool, flag: bool, write: Seq<char>)
    ensures
        return_block(caching_of(result, option), flag) == hands_back(result, option, flag),
        set_block(caching_of(result, option), write) == if_cached(result, option, write),
{
}

/// The value type: the whole return type, or under `result` and `option` what the
/// angle brackets of the last segment of its path begin with.
#[verifier::opaque]
pub open spec fn is_value_type(
    value: Seq<char>,
    result: bool,
    option: bool,
    item: FnItemView,
) -> bool {
    if result || option {
        &&& item.output matches Some(output)
        &&& output.path matches Some(path)
        &&& path.len() > 0
        &&& path[path.len() - 1].arguments matches SegmentArgumentsView::Angle(inner)
        &&& inner.len() > 0
        &&& value == inner[0]
    } else {
        value == (match item.output {
            Some(output) => output.text,
            None => "()"@,
        })
    }
}

/// The key: what `key` and `convert` say, or the tuple of all arguments.
#[verifier::opaque]
pub open spec fn is_key(
    ty: Seq<char>,
    expression: Seq<char>,
    key: Option<String>,
    convert: Option<String>,
    item: FnItemView,
) -> bool {
    match convert {
        Some(convert) => {
            &&& block_of(convert@) == Ok::<Seq<char>, Seq<char>>(expression)
            &&& key matches Some(key) ==> type_of(key@) is Ok && type_of(key@)->Ok_0.text == ty
            &&& key is None ==> ty == ""@
        },
        None => {
            &&& is_argument_tuple(expression, item.arguments)
            &&& is_argument_tuple_type(ty, item.arguments)
        },
    }
}

/// The store of `cached` for keys and values of these types.
#[verifier::opaque]
pub open spec fn is_store(
    ty: Seq<char>,
    create: Seq<char>,
    args: MacroArgs,
    key: Seq<char>,
    value: Seq<char>,
) -> bool {
    let of = |name: Seq<char>| name + "< "@ + key + " , "@ + value + " >"@;
    let refresh = if args.time_refresh {
        "true"@
    } else {
        "false"@
    };
    match (args.cache_type, args.size, args.time) {
        (Some(given), _, _) => {
            &&& type_of(given@) is Ok
            &&& ty == type_of(given@)->Ok_0.text
            &&& args.cache_create is Some
            &&& block_of(args.cache_create->0@) == Ok::<Seq<char>, Seq<char>>(create)
        },
        (None, None, None) => {
            &&& ty == of("cached::UnboundCache"@)
            &&& create == "cached::UnboundCache::new()"@
        },
        (None, Some(size), None) => {
            &&& ty == of("cached::SizedCache"@)
            &&& create == "cached::SizedCache::with_size("@ + decimal(size as nat) + "usize)"@
        },
        (None, None, Some(time)) => {
            &&& ty == of("cached::TimedCache"@)
            &&& create == "cached::TimedCache::with_lifespan_and_refresh("@ + decimal(time as nat)
                + "u64, "@ + refresh + ")"@
        },
        (None, Some(size), Some(time)) => {
            &&& ty == of("cached::TimedSizedCache"@)
            &&& create == "cached::TimedSizedCache::with_size_and_lifespan_and_refresh("@ + decimal(
                size as nat,
            ) + "usize, "@ + decimal(time as nat) + "u64, "@ + refresh + ")"@
        },
    }
}

/// The static is a lazy one that holds the store behind a mutex: an asynchronous
/// one for an asynchronous function, and the one of std for any other.
#[verifier::opaque]
pub open spec fn is_locked_static(
    text: Seq<char>,
    item: FnItemView,
    cache: Seq<char>,
    ty: Seq<char>,
    create: Seq<char>,
) -> bool {
    text == item.visibility + " static "@ + cache + (if item.is_async {
        ": ::cached::once_cell::sync::Lazy<::cached::async_sync::Mutex< "@
    } else {
        ": ::cached::once_cell::sync::Lazy<std::sync::Mutex< "@
    }) + ty + (if item.is_async {
        " >> = ::cached::once_cell::sync::Lazy::new(|| ::cached::async_sync::Mutex::new( "@
    } else {
        " >> = ::cached::once_cell::sync::Lazy::new(|| std::sync::Mutex::new( "@
    }) + create + " ));"@
}

/// What `cached` writes: the pieces fit the arguments and the function, for a key, a
/// value type and a store.
///
/// The static holds the store behind a mutex. Both functions begin with the key. With
/// synchronized writes the function takes the lock once, before the lookup, and holds
/// it to its end, over the run and the write. Without them the lock of the lookup ends
/// with its block, before the run, and the write takes it again. The priming function
/// takes the lock, runs and writes, and never looks. That the function is
/// asynchronous changes how a lock is waited for, and nothing else.
pub open spec fn cached_fits(
    args: MacroArgs,
    item: FnItemView,
    p: Pieces,
    key_type: Seq<char>,
    key: Seq<char>,
    value: Seq<char>,
    ty: Seq<char>,
    create: Seq<char>,
) -> bool {
    let name = name_or_upper(args.name, item);
    let lock = "let mut cache = "@ + name + (if item.is_async {
        ".lock().await;"@
    } else {
        ".lock().unwrap();"@
    });
    let look = "if let Some(result) = cache.cache_get(&key) { "@ + hands_back(
        args.result,
        args.option,
        args.with_cached_flag,
    ) + " }"@;
    let write = if_cached(args.result, args.option, "cache.cache_set(key, result.clone());"@);
    &&& frame_fits(p, item, name)
    &&& is_value_type(value, args.result, args.option, item)
    &&& is_key(key_type, key, args.key, args.convert, item)
    &&& is_store(ty, create, args, key_type, value)
    &&& is_locked_static(p.cache, item, name, ty, create)
    &&& p.opening == "use cached::Cached; let key = "@ + key + " ;"@
    &&& if args.sync_writes {
        &&& p.body.len() == 5
        &&& p.body[0] == lock
        &&& p.body[1] == look
        &&& is_run(p.body[2], item)
        &&& p.body[3] == write
        &&& p.body[4] == "result"@
    } else {
        &&& p.body.len() == 8
        &&& p.body[0] == "{"@
        &&& p.body[1] == lock
        &&& p.body[2] == look
        &&& p.body[3] == "}"@
        &&& is_run(p.body[4], item)
        &&& p.body[5] == lock
        &&& p.body[6] == write
        &&& p.body[7] == "result"@
    }
    &&& p.prime_body.len() == 4
    &&& p.prime_body[0] == lock
    &&& is_run(p.prime_body[1], item)
    &&& p.prime_body[2] == write
    &&& p.prime_body[3] == "result"@
}

/// What is planned for `cached` fits the arguments and the function.
proof fn lemma_cached_plan(args: MacroArgs, item: FnItemView)
    requires
        cached_plan(args, item) is Ok,
    ensures
        ({
            let plan = cached_plan(args, item)->Ok_0;
            let value = value_type(args.result, args.option, item.output)->Ok_0;
            let name = name_or_upper(args.name, item);
            &&& !has_receiver(item.arguments)
            &&& plan.names == names_of(name, item.ident + "_prime_cache"@, item.ident)
            &&& is_value_type(value, args.result, args.option, item)
            &&& is_key(plan.key.ty, plan.key.convert, args.key, args.convert, item)
            &&& is_store(plan.store.ty, plan.store.create, args, plan.key.ty, value)
        }),
{
    reveal(is_value_type);
    reveal(is_key);
    reveal(is_store);
    law_key_holds_every_argument(item.arguments);
}

/// Whatever the arguments and the function, the text that `cached` makes is put
/// together of pieces that fit them.
pub proof fn law_cached_writes(args: MacroArgs, item: FnItemView)
    requires
        cached_outcome(args, item) is Ok,
    ensures
        exists|
            p: Pieces,
            key_type: Seq<char>,
            key: Seq<char>,
            value: Seq<char>,
            ty: Seq<char>,
            create: Seq<char>,
        |
            #[trigger] cached_fits(args, item, p, key_type, key, value, ty, create)
                && cached_outcome(args, item)->Ok_0 == assembled(p),
{
    let plan = cached_plan(args, item)->Ok_0;
    let texts = cached_texts(args, item, plan);
    let name = name_or_upper(args.name, item);
    let steps = cached_steps(args.sync_writes);
    let cache = locked_static(item, name, plan.store);
    let opening = locked_opening(plan.key);
    let p = pieces_of(item, name, cache, opening, steps, prime_steps(), texts);
    let value = value_type(args.result, args.option, item.output)->Ok_0;
    lemma_cached_plan(args, item);
    lemma_pieces(item, name, cache, opening, steps, prime_steps(), texts);
    law_run(item);
    assert(is_locked_static(cache, item, name, plan.store.ty, plan.store.create)) by {
        reveal(is_locked_static);
    }
    assert(cached_fits(
        args,
        item,
        p,
        plan.key.ty,
        plan.key.convert,
        value,
        plan.store.ty,
        plan.store.create,
    ));
}

// ---------------------------------------------------------------------------
// What `once` writes
// ---------------------------------------------------------------------------
/// What `once` writes: the pieces fit the arguments and the function, for a value
/// type.
///
/// The static holds the value, or a timed store of one key, behind a read-write lock:
/// an asynchronous one for an asynchronous function, whose locks are all awaited, and
/// the one of std for any other, whose locks are all unwrapped. The lookup has a lock
/// of its own, for reading, or for writing where the store is timed, which ends before
/// the run. With synchronized writes the function runs under the lock that the write
/// takes. The priming function takes that lock, runs and writes, and never looks.
pub open spec fn once_fits(
    args: OnceMacroArgs,
    item: FnItemView,
    p: Pieces,
    value: Seq<char>,
) -> bool {
    let name = name_or_upper(args.name, item);
    let end = if item.is_async {
        ".await;"@
    } else {
        ".unwrap();"@
    };
    let look = (if args.time is Some {
        "if let Some(result) = cached.cache_get(&()) { "@
    } else {
        "if let Some(result) = &*cached { "@
    }) + hands_back(args.result, args.option, args.with_cached_flag) + " }"@;
    let write = if_cached(
        args.result,
        args.option,
        if args.time is Some {
            "cached.cache_set((), result.clone());"@
        } else {
            "*cached = Some(result.clone());"@
        },
    );
    let first = |line: Seq<char>|
        if args.time is Some {
            is_lock(line, name, ".write()"@, end)
        } else {
            is_lock(line, name, ".read()"@, end)
        };
    &&& frame_fits(p, item, name)
    &&& is_value_type(value, args.result, args.option, item)
    &&& is_once_static(p.cache, args, item, name, value)
    &&& p.opening == (if args.time is Some {
        "use cached::Cached;"@
    } else {
        "let now = ::cached::instant::Instant::now();"@
    })
    &&& p.body.len() == 8
    &&& p.body[0] == "{"@
    &&& first(p.body[1])
    &&& p.body[2] == look
    &&& p.body[3] == "}"@
    &&& args.sync_writes ==> is_lock(p.body[4], name, ".write()"@, end) && is_run(p.body[5], item)
    &&& !args.sync_writes ==> is_run(p.body[4], item) && is_lock(p.body[5], name, ".write()"@, end)
    &&& p.body[6] == write
    &&& p.body[7] == "result"@
    &&& p.prime_body.len() == 4
    &&& is_lock(p.prime_body[0], name, ".write()"@, end)
    &&& is_run(p.prime_body[1], item)
    &&& p.prime_body[2] == write
    &&& p.prime_body[3] == "result"@
}

/// The line takes the lock of the cache by this method, with this ending.
pub open spec fn is_lock(
    line: Seq<char>,
    cache: Seq<char>,
    method: Seq<char>,
    end: Seq<char>,
) -> bool {
    line == "let mut cached = "@ + cache + method + end
}

/// The static of `once`.
#[verifier::opaque]
pub open spec fn is_once_static(
    text: Seq<char>,
    args: OnceMacroArgs,
    item: FnItemView,
    cache: Seq<char>,
    value: Seq<char>,
) -> bool {
    let ty = match args.time {
        None => "Option< "@ + value + " >"@,
        Some(_) => "cached::TimedCache"@ + "< "@ + "()"@ + " , "@ + value + " >"@,
    };
    let create = match args.time {
        None => "None"@,
        Some(time) => "cached::TimedCache::with_lifespan_and_refresh("@ + decimal(time as nat)
            + "u64, "@ + "false"@ + ")"@,
    };
    text == item.visibility + " static "@ + cache + (if item.is_async {
        ": ::cached::once_cell::sync::Lazy<::cached::async_sync::RwLock< "@
    } else {
        ": ::cached::once_cell::sync::Lazy<std::sync::RwLock< "@
    }) + ty + (if item.is_async {
        " >> = ::cached::once_cell::sync::Lazy::new(|| ::cached::async_sync::RwLock::new( "@
    } else {
        " >> = ::cached::once_cell::sync::Lazy::new(|| std::sync::RwLock::new( "@
    }) + create + " ));"@
}

/// What is planned for `once` fits the arguments and the function.
proof fn lemma_once_plan(args: OnceMacroArgs, item: FnItemView)
    requires
        once_plan(args, item) is Ok,
    ensures
        ({
            let plan = once_plan(args, item)->Ok_0;
            let name = name_or_upper(args.name, item);
            &&& !has_receiver(item.arguments)
            &&& plan.names == names_of(name, item.ident + "_prime_cache"@, item.ident)
            &&& is_value_type(plan.value, args.result, args.option, item)
            &&& is_once_static(once_static(args, item, plan), args, item, name, plan.value)
        }),
{
    reveal(is_value_type);
    reveal(is_once_static);
}

/// The texts of the locks are made of a method and an ending.
proof fn lemma_once_locks(args: OnceMacroArgs, item: FnItemView, plan: OncePlanView)
    ensures
        ({
            let texts = once_texts(args, item, plan);
            let end = if item.is_async {
                ".await;"@
            } else {
                ".unwrap();"@
            };
            &&& is_lock(texts.lock, plan.names.cache, ".write()"@, end)
            &&& is_lock(texts.read_lock, plan.names.cache, ".read()"@, end)
        }),
{
    reveal_strlit(".await;");
    reveal_strlit(".unwrap();");
    reveal_strlit(".write()");
    reveal_strlit(".read()");
    reveal_strlit(".write().await;");
    reveal_strlit(".write().unwrap();");
    reveal_strlit(".read().await;");
    reveal_strlit(".read().unwrap();");
    assert(".write()"@ + ".await;"@ =~= ".write().await;"@);
    assert(".write()"@ + ".unwrap();"@ =~= ".write().unwrap();"@);
    assert(".read()"@ + ".await;"@ =~= ".read().await;"@);
    assert(".read()"@ + ".unwrap();"@ =~= ".read().unwrap();"@);
    let head = "let mut cached = "@ + plan.names.cache;
    let end = if item.is_async {
        ".await;"@
    } else {
        ".unwrap();"@
    };
    assert(head + ".write()"@ + end =~= head + (".write()"@ + end));
    assert(head + ".read()"@ + end =~= head + (".read()"@ + end));
}

/// Whatever the arguments and the function, the text that `once` makes is put
/// together of pieces that fit them.
pub proof fn law_once_writes(args: OnceMacroArgs, item: FnItemView)
    requires
        once_outcome(args, item) is Ok,
    ensures
        exists|p: Pieces, value: Seq<char>| #[trigger]
            once_fits(args, item, p, value) && once_outcome(args, item)->Ok_0 == assembled(p),
{
    let plan = once_plan(args, item)->Ok_0;
    let texts = once_texts(args, item, plan);
    let name = name_or_upper(args.name, item);
    let steps = once_steps(args.sync_writes, args.time is Some);
    let cache = once_static(args, item, plan);
    let opening = once_opening(args.time);
    let p = pieces_of(item, name, cache, opening, steps, prime_steps(), texts);
    lemma_once_plan(args, item);
    lemma_once_locks(args, item, plan);
    lemma_pieces(item, name, cache, opening, steps, prime_steps(), texts);
    law_run(item);
    assert(once_fits(args, item, p, plan.value));
}

// ---------------------------------------------------------------------------
// What `io_cached` writes
// ---------------------------------------------------------------------------
/// The identifier has `Return` in it.
pub open spec fn says_return(token: TokenView) -> bool {
    token matches TokenView::Ident(name) && exists|k: int|
        0 <= k && k + 6 <= name.len() && #[trigger] name.subrange(k, k + 6) == "Return"@
}

/// The return type has an identifier outside brackets with `Return` in it.
pub open spec fn returns_return(item: FnItemView) -> bool {
    item.output matches Some(output) && exists|i: int|
        0 <= i < output.tokens.len() && says_return(#[trigger] output.tokens[i])
}

/// One of the texts has `Return` in it.
spec fn some_return(parts: Seq<Seq<char>>) -> bool {
    exists|i: int| 0 <= i < parts.len() && contains(#[trigger] parts[i], "Return"@)
}

/// What is found in two texts with a double colon between them is found in one.
proof fn lemma_colons(one: Seq<char>, other: Seq<char>)
    ensures
        contains(one + "::"@ + other, "Return"@) <==> contains(one, "Return"@) || contains(
            other,
            "Return"@,
        ),
{
    reveal_strlit("Return");
    reveal_strlit("::");
    let word = "Return"@;
    let all = one + "::"@ + other;
    let n = one.len() as int;
    if contains(one, word) {
        let k = choose|k: int| #[trigger] occurs_at(one, word, k);
        assert(all.subrange(k, k + 6) =~= one.subrange(k, k + 6));
        assert(occurs_at(all, word, k));
    }
    if contains(other, word) {
        let k = choose|k: int| #[trigger] occurs_at(other, word, k);
        assert(all.subrange(n + 2 + k, n + 2 + k + 6) =~= other.subrange(k, k + 6));
        assert(occurs_at(all, word, n + 2 + k));
    }
    if contains(all, word) {
        let k = choose|k: int| #[trigger] occurs_at(all, word, k);
        let window = all.subrange(k, k + 6);
        assert(window == word);
        assert forall|j: int| 0 <= j < 6 implies #[trigger] all[k + j] != ':' by {
            assert(window[j] == word[j]);
        }
        if k + 6 <= n {
            assert(one.subrange(k, k + 6) =~= window);
            assert(occurs_at(one, word, k));
        } else if k >= n + 2 {
            assert(other.subrange(k - n - 2, k - n - 2 + 6) =~= window);
            assert(occurs_at(other, word, k - n - 2));
        } else if k <= n {
            assert(all[k + (n - k)] == ':');
        } else {
            assert(all[k + (n + 1 - k)] == ':');
        }
    }
}

proof fn lemma_joined_return(parts: Seq<Seq<char>>)
    ensures
        contains(join(parts, "::"@), "Return"@) <==> some_return(parts),
    decreases parts.len(),
{
    reveal_strlit("Return");
    if parts.len() == 0 {
        let none = Seq::<char>::empty();
        assert forall|k: int| !#[trigger] occurs_at(none, "Return"@, k) by {}
    } else if parts.len() == 1 {
        if contains(parts[0], "Return"@) {
            assert(some_return(parts));
        }
    } else {
        let rest = parts.drop_last();
        lemma_joined_return(rest);
        lemma_colons(join(rest, "::"@), parts.last());
        if some_return(parts) {
            let i = choose|i: int|
                0 <= i < parts.len() && contains(#[trigger] parts[i], "Return"@);
            if i < rest.len() {
                assert(rest[i] == parts[i]);
            }
        }
        if some_return(rest) {
            let i = choose|i: int| 0 <= i < rest.len() && contains(#[trigger] rest[i], "Return"@);
            assert(parts[i] == rest[i]);
        }
        if contains(parts.last(), "Return"@) {
            assert(contains(parts[parts.len() - 1], "Return"@));
        }
    }
}

proof fn lemma_says_return(token: TokenView)
    ensures
        token matches TokenView::Ident(name) ==> says_return(token) == contains(name, "Return"@),
{
    reveal_strlit("Return");
    if let TokenView::Ident(name) = token {
        if contains(name, "Return"@) {
            let k = choose|k: int| #[trigger] occurs_at(name, "Return"@, k);
            assert(name.subrange(k, k + 6) == "Return"@);
        }
        if says_return(token) {
            let k = choose|k: int|
                0 <= k && k + 6 <= name.len() && #[trigger] name.subrange(k, k + 6) == "Return"@;
            assert(occurs_at(name, "Return"@, k));
        }
    }
}

proof fn lemma_ident_return(tokens: Seq<TokenView>)
    ensures
        some_return(idents(tokens)) <==> exists|i: int|
            0 <= i < tokens.len() && says_return(#[trigger] tokens[i]),
    decreases tokens.len(),
{
    if tokens.len() > 0 {
        let rest = tokens.drop_last();
        let before = idents(rest);
        lemma_ident_return(rest);
        lemma_says_return(tokens.last());
        assert forall|i: int| 0 <= i < rest.len() implies rest[i] == #[trigger] tokens[i] by {}
        if exists|i: int| 0 <= i < tokens.len() && says_return(#[trigger] tokens[i]) {
            let i = choose|i: int| 0 <= i < tokens.len() && says_return(#[trigger] tokens[i]);
            if i < rest.len() {
                assert(says_return(rest[i]));
                let j = choose|j: int|
                    0 <= j < before.len() && contains(#[trigger] before[j], "Return"@);
                assert(idents(tokens)[j] == before[j]);
            } else {
                assert(idents(tokens).last() == tokens.last()->Ident_0);
                assert(contains(idents(tokens)[idents(tokens).len() - 1], "Return"@));
            }
        }
        if some_return(idents(tokens)) {
            let j = choose|j: int|
                0 <= j < idents(tokens).len() && contains(
                    #[trigger] idents(tokens)[j],
                    "Return"@,
                );
            if j < before.len() {
                assert(before[j] == idents(tokens)[j]);
                let i = choose|i: int| 0 <= i < rest.len() && says_return(#[trigger] rest[i]);
                assert(tokens[i] == rest[i]);
            } else {
                assert(says_return(tokens[tokens.len() - 1]));
            }
        }
    }
}

/// A return type counts as one that names `Return` exactly where one of its
/// identifiers, outside brackets, has `Return` in it.
pub proof fn law_names_return(item: FnItemView)
    ensures
        names_return(item.output) <==> returns_return(item),
{
    reveal_strlit("Return");
    reveal_strlit("");
    match item.output {
        None => {
            assert forall|k: int| !#[trigger] occurs_at(""@, "Return"@, k) by {}
        },
        Some(output) => {
            lemma_joined_return(idents(output.tokens));
            lemma_ident_return(output.tokens);
        },
    }
}

/// The type is what the angle brackets of the last segment of a path begin with.
pub open spec fn is_inner(inner: Seq<char>, path: Option<Seq<SegmentView>>) -> bool {
    &&& path matches Some(path)
    &&& path.len() > 0
    &&& path[path.len() - 1].arguments matches SegmentArgumentsView::Angle(held)
    &&& held.len() > 0
    &&& inner == held[0]
}

/// The value type of `io_cached`: the inner type of the return type, and where the
/// return type names `Return`, the inner type of that.
#[verifier::opaque]
pub open spec fn is_io_value_type(value: Seq<char>, item: FnItemView) -> bool {
    &&& item.output matches Some(output)
    &&& if returns_return(item) {
        exists|inner: Seq<char>| #[trigger]
            is_inner(inner, output.path) && type_of(inner) is Ok && is_inner(
                value,
                type_of(inner)->Ok_0.path,
            )
    } else {
        is_inner(value, output.path)
    }
}

/// Neither Redis nor a type is asked for, but a lifespan is.
pub open spec fn only_timed(args: IOMacroArgs) -> bool {
    !args.redis && args.cache_type is None && args.time is Some
}

/// The store of `io_cached` for keys and values of these types.
#[verifier::opaque]
pub open spec fn is_io_store(
    ty: Seq<char>,
    create: Seq<char>,
    args: IOMacroArgs,
    item: FnItemView,
    key: Seq<char>,
    value: Seq<char>,
) -> bool {
    let of = |name: Seq<char>| name + "< "@ + key + " , "@ + value + " >"@;
    let source = match args.cache_prefix_block {
        Some(given) => given@,
        None => " { \"cached::proc_macro::io_cached::"@ + upper(item.ident) + "\" }"@,
    };
    &&& match args.cache_type {
        Some(given) => type_of(given@) is Ok && ty == type_of(given@)->Ok_0.text,
        None => if only_timed(args) {
            ty == of("cached::TimedCache"@)
        } else if item.is_async {
            ty == of("cached::AsyncRedisCache"@)
        } else {
            ty == of("cached::RedisCache"@)
        },
    }
    &&& match args.cache_create {
        Some(given) => block_of(given@) == Ok::<Seq<char>, Seq<char>>(create),
        None => {
            &&& args.time matches Some(time)
            &&& if only_timed(args) {
                create == "cached::TimedCache::with_lifespan_and_refresh("@ + decimal(time as nat)
                    + "u64, "@ + (if args.time_refresh == Some(true) {
                    "true"@
                } else {
                    "false"@
                }) + ")"@
            } else {
                &&& block_of(source) is Ok
                &&& create == (if item.is_async {
                    "cached::AsyncRedisCache::new( "@
                } else {
                    "cached::RedisCache::new( "@
                }) + block_of(source)->Ok_0 + " , "@ + decimal(time as nat) + "u64)"@ + (
                match args.time_refresh {
                    Some(refresh) => ".set_refresh("@ + (if refresh {
                        "true"@
                    } else {
                        "false"@
                    }) + ")"@,
                    None => ""@,
                }) + (if item.is_async {
                    ".build().await.expect(\"error constructing AsyncRedisCache in #[io_cached] macro\")"@
                } else {
                    ".build().expect(\"error constructing RedisCache in #[io_cached] macro\")"@
                })
            }
        },
    }
}

/// The static of a store that needs no lock.
#[verifier::opaque]
pub open spec fn is_free_static(
    text: Seq<char>,
    item: FnItemView,
    cache: Seq<char>,
    ty: Seq<char>,
    create: Seq<char>,
) -> bool {
    if item.is_async {
        text == "::cached::lazy_static::lazy_static! { "@ + item.visibility + " static ref "@
            + cache + ": ::cached::async_once::AsyncOnce< "@ + ty
            + " > = ::cached::async_once::AsyncOnce::new(async move { "@ + create + " }); }"@
    } else {
        text == item.visibility + " static "@ + cache + ": ::cached::once_cell::sync::Lazy< "@ + ty
            + " > = ::cached::once_cell::sync::Lazy::new(|| "@ + create + " );"@
    }
}

/// What `io_cached` writes: the pieces fit the arguments and the function, for a key,
/// a value type, a store, and the closure that maps its errors.
///
/// Every call of a store that can fail, the lookup and the write, is awaited in an
/// asynchronous function, hands its error to the closure, and returns what that gives.
/// Only `Ok` results are written; with the cached flag their value without the flag.
/// A store in memory cannot fail, and is behind a lock that no run is made under. The
/// priming function runs and writes, and never looks.
pub open spec fn io_fits(
    args: IOMacroArgs,
    item: FnItemView,
    p: Pieces,
    key_type: Seq<char>,
    key: Seq<char>,
    value: Seq<char>,
    ty: Seq<char>,
    create: Seq<char>,
    closure: Seq<char>,
) -> bool {
    let name = name_or_upper(args.name, item);
    let end = if only_timed(args) {
        ""@
    } else {
        (if item.is_async {
            ".await.map_err( "@
        } else {
            ".map_err( "@
        }) + closure + " )?"@
    };
    let reach = if only_timed(args) {
        "let mut cache = "@ + name + (if item.is_async {
            ".lock().await;"@
        } else {
            ".lock().unwrap();"@
        })
    } else {
        "let cache = &"@ + name + (if item.is_async {
            ".get().await;"@
        } else {
            ";"@
        })
    };
    let look = "if let Some(result) = cache.cache_get(&key)"@ + end + " { "@ + (
    if args.with_cached_flag {
        "let mut r = ::cached::Return::new(result.clone()); r.was_cached = true; return Ok(r)"@
    } else {
        "return Ok(result.clone())"@
    }) + " }"@;
    let write = "if let Ok(result) = &result { "@ + ((if args.with_cached_flag {
        "cache.cache_set(key, result.value.clone())"@
    } else {
        "cache.cache_set(key, result.clone())"@
    }) + end + ";"@) + " }"@;
    &&& closure_of(args.map_error@) == Ok::<Seq<char>, Seq<char>>(closure)
    &&& frame_fits(p, item, name)
    &&& is_io_value_type(value, item)
    &&& is_key(key_type, key, args.key, args.convert, item)
    &&& is_io_store(ty, create, args, item, key_type, value)
    &&& only_timed(args) ==> is_locked_static(p.cache, item, name, ty, create)
    &&& !only_timed(args) ==> is_free_static(p.cache, item, name, ty, create)
    &&& p.opening == (if only_timed(args) {
        "use cached::Cached; let key = "@
    } else if item.is_async {
        "use cached::IOCachedAsync; let key = "@
    } else {
        "use cached::IOCached; let key = "@
    }) + key + " ;"@
    &&& p.body.len() == 8
    &&& p.body[0] == "{"@
    &&& p.body[1] == reach
    &&& p.body[2] == look
    &&& p.body[3] == "}"@
    &&& is_run(p.body[4], item)
    &&& p.body[5] == reach
    &&& p.body[6] == write
    &&& p.body[7] == "result"@
    &&& p.prime_body.len() == 4
    &&& only_timed(args) ==> p.prime_body[0] == reach && is_run(p.prime_body[1], item)
    &&& !only_timed(args) ==> is_run(p.prime_body[0], item) && p.prime_body[1] == reach
    &&& p.prime_body[2] == write
    &&& p.prime_body[3] == "result"@
}

/// What is planned for `io_cached` fits the arguments and the function.
proof fn lemma_io_plan(args: IOMacroArgs, item: FnItemView)
    requires
        io_plan(args, item) is Ok,
    ensures
        ({
            let plan = io_plan(args, item)->Ok_0;
            let value = io_value_type(item.output)->Ok_0;
            let name = name_or_upper(args.name, item);
            &&& !has_receiver(item.arguments)
            &&& plan.names == names_of(name, item.ident + "_prime_cache"@, item.ident)
            &&& is_io_value_type(value, item)
            &&& is_key(plan.key.ty, plan.key.convert, args.key, args.convert, item)
            &&& is_io_store(plan.store.ty, plan.store.create, args, item, plan.key.ty, value)
            &&& closure_of(args.map_error@) == Ok::<Seq<char>, Seq<char>>(plan.map_error)
        }),
{
    reveal(is_io_value_type);
    reveal(is_key);
    reveal(is_io_store);
    law_key_holds_every_argument(item.arguments);
    law_names_return(item);
    let inner = inner_type(item.output->0.path->0)->0;
    assert(is_inner(inner, item.output->0.path));
}

proof fn lemma_io_static(args: IOMacroArgs, item: FnItemView, plan: IoPlanView)
    ensures
        ({
            let text = io_static(args, item, plan);
            let name = plan.names.cache;
            &&& only_timed(args) ==> is_locked_static(
                text,
                item,
                name,
                plan.store.ty,
                plan.store.create,
            )
            &&& !only_timed(args) ==> is_free_static(
                text,
                item,
                name,
                plan.store.ty,
                plan.store.create,
            )
        }),
{
    reveal(is_locked_static);
    reveal(is_free_static);
}

/// Whatever the arguments and the function, the text that `io_cached` makes is put
/// together of pieces that fit them.
pub proof fn law_io_cached_writes(args: IOMacroArgs, item: FnItemView)
    requires
        io_outcome(args, item) is Ok,
    ensures
        exists|
            p: Pieces,
            key_type: Seq<char>,
            key: Seq<char>,
            value: Seq<char>,
            ty: Seq<char>,
            create: Seq<char>,
            closure: Seq<char>,
        |
            #[trigger] io_fits(args, item, p, key_type, key, value, ty, create, closure)
                && io_outcome(args, item)->Ok_0 == assembled(p),
{
    let plan = io_plan(args, item)->Ok_0;
    let texts = io_texts(args, item, plan);
    let name = name_or_upper(args.name, item);
    let steps = io_body(args);
    let prime = io_prime_body(args);
    let cache = io_static(args, item, plan);
    let opening = io_opening(args, item.is_async, plan);
    let p = pieces_of(item, name, cache, opening, steps, prime, texts);
    let value = io_value_type(item.output)->Ok_0;
    lemma_io_plan(args, item);
    lemma_io_static(args, item, plan);
    lemma_pieces(item, name, cache, opening, steps, prime, texts);
    law_run(item);
    assert(io_fits(
        args,
        item,
        p,
        plan.key.ty,
        plan.key.convert,
        value,
        plan.store.ty,
        plan.store.create,
        plan.map_error,
    ));
}

// ---------------------------------------------------------------------------
// The lines are the steps
// ---------------------------------------------------------------------------
/// The line begins with this text.
pub open spec fn begins(line: Seq<char>, text: Seq<char>) -> bool {
    exists|rest: Seq<char>| line == #[trigger] (text + rest)
}

/// The line ends with this text.
pub open spec fn ends(line: Seq<char>, text: Seq<char>) -> bool {
    exists|before: Seq<char>| line == #[trigger] (before + text)
}

/// The line does in Rust what the step stands for, in a function that is
/// asynchronous or not: a lock is awaited in one that is and unwrapped in one that is
/// not, and so is the run of the function itself.
#[verifier::opaque]
pub open spec fn spells(line: Seq<char>, step: Step, is_async: bool) -> bool {
    let (lock, write, read) = if is_async {
        (".lock().await;"@, ".write().await;"@, ".read().await;"@)
    } else {
        (".lock().unwrap();"@, ".write().unwrap();"@, ".read().unwrap();"@)
    };
    match step {
        Step::Open => line == "{"@,
        Step::Close => line == "}"@,
        Step::Lock => {
            ||| begins(line, "let mut cache = "@) && ends(line, lock)
            ||| begins(line, "let mut cached = "@) && ends(line, write)
        },
        Step::ReadLock => begins(line, "let mut cached = "@) && ends(line, read),
        Step::Borrow => begins(line, "let cache = &"@),
        Step::Lookup => {
            ||| begins(line, "if let Some(result) = cache.cache_get(&key)"@)
            ||| begins(line, "if let Some(result) = cached.cache_get(&()) { "@)
            ||| begins(line, "if let Some(result) = &*cached { "@)
        },
        Step::Call => if is_async {
            begins(line, "async fn inner( "@) && ends(line, " ).await;"@)
        } else {
            begins(line, "fn inner( "@) && ends(line, " );"@)
        },
        Step::Store => {
            ||| begins(line, "cache.cache_set(key, "@)
            ||| begins(line, "cached.cache_set((), "@)
            ||| begins(line, "*cached = Some("@)
            ||| begins(line, "if let Ok(result) = &result { "@)
            ||| begins(line, "if let Some(result) = &result { "@)
        },
        Step::Finish => line == "result"@,
    }
}

/// Each line does what the step at its place stands for, and there are no others.
pub open spec fn spell_all(body: Seq<Seq<char>>, steps: Seq<Step>, is_async: bool) -> bool {
    &&& body.len() == steps.len()
    &&& forall|i: int| 0 <= i < steps.len() ==> spells(
        #[trigger] body[i],
        steps[i],
        is_async,
    )
}

/// What an attribute makes of a function.
pub open spec fn outcome_of(m: Macro, item: FnItemView) -> Result<Seq<char>, RejectionView> {
    match m {
        Macro::Cached(args) => cached_outcome(args, item),
        Macro::Once(args) => once_outcome(args, item),
        Macro::Io(args) => io_outcome(args, item),
    }
}

proof fn lemma_begins(text: Seq<char>, one: Seq<char>, two: Seq<char>)
    ensures
        begins(text + one, text),
        begins(text + one + two, text),
        ends(text + one + two, two),
{
    assert(text + one + two =~= text + (one + two));
    assert(text + (one + two) == text + one + two);
}

proof fn lemma_begins_more(
    text: Seq<char>,
    one: Seq<char>,
    two: Seq<char>,
    three: Seq<char>,
    four: Seq<char>,
)
    ensures
        begins(text + one + two + three, text),
        begins(text + one + two + three + four, text),
{
    assert(text + one + two + three =~= text + (one + two + three));
    assert(text + one + two + three + four =~= text + (one + two + three + four));
}

proof fn lemma_run_begins(item: FnItemView)
    ensures
        item.is_async ==> begins(call_text(item), "async fn inner( "@) && ends(
            call_text(item),
            " ).await;"@,
        ),
        !item.is_async ==> begins(call_text(item), "fn inner( "@) && ends(call_text(item), " );"@),
{
    let head = if item.is_async {
        "async fn inner( "@
    } else {
        "fn inner( "@
    };
    let names = join(argument_names(item.arguments), " , "@);
    let tail = if item.is_async {
        " ).await;"@
    } else {
        " );"@
    };
    let arrow = output_clause(item.output);
    let middle = item.argument_list + " ) "@ + arrow + " "@ + item.body + " ; let result = inner( "@
        + names;
    assert(call_text(item) =~= head + (middle + tail));
    assert(call_text(item) =~= (head + middle) + tail);
}

/// What is written after a fixed beginning begins with it.
proof fn lemma_write_begins(write: Seq<char>, head: Seq<char>, rest: Seq<char>, caching: Caching)
    requires
        write == head + rest,
    ensures
        begins(set_block(caching, write), head) || begins(
            set_block(caching, write),
            "if let Ok(result) = &result { "@,
        ) || begins(set_block(caching, write), "if let Some(result) = &result { "@),
{
    lemma_begins("if let Ok(result) = &result { "@, write, " }"@);
    lemma_begins("if let Some(result) = &result { "@, write, " }"@);
}

proof fn lemma_cached_spells(args: MacroArgs, item: FnItemView, plan: CachedPlanView)
    ensures
        ({
            let texts = cached_texts(args, item, plan);
            &&& spells(texts.lock, Step::Lock, item.is_async)
            &&& spells(texts.lookup, Step::Lookup, item.is_async)
            &&& spells(texts.call, Step::Call, item.is_async)
            &&& spells(texts.store, Step::Store, item.is_async)
        }),
{
    reveal(spells);
    let caching = caching_of(args.result, args.option);
    let write = "cache.cache_set(key, result.clone());"@;
    reveal_strlit("cache.cache_set(key, result.clone());");
    reveal_strlit("cache.cache_set(key, ");
    reveal_strlit("result.clone());");
    assert(write =~= "cache.cache_set(key, "@ + "result.clone());"@);
    lemma_write_begins(write, "cache.cache_set(key, "@, "result.clone());"@, caching);
    lemma_begins("let mut cache = "@, plan.names.cache, ".lock().await;"@);
    lemma_begins("let mut cache = "@, plan.names.cache, ".lock().unwrap();"@);
    let back = return_block(caching, args.with_cached_flag);
    reveal_strlit("if let Some(result) = cache.cache_get(&key) { ");
    reveal_strlit("if let Some(result) = cache.cache_get(&key)");
    reveal_strlit(" { ");
    assert("if let Some(result) = cache.cache_get(&key) { "@
        =~= "if let Some(result) = cache.cache_get(&key)"@ + " { "@);
    lemma_begins_more(
        "if let Some(result) = cache.cache_get(&key)"@,
        " { "@,
        back,
        " }"@,
        ""@,
    );
    lemma_run_begins(item);
}

proof fn lemma_once_spells(args: OnceMacroArgs, item: FnItemView, plan: OncePlanView)
    ensures
        ({
            let texts = once_texts(args, item, plan);
            &&& spells(texts.lock, Step::Lock, item.is_async)
            &&& spells(texts.read_lock, Step::ReadLock, item.is_async)
            &&& spells(texts.lookup, Step::Lookup, item.is_async)
            &&& spells(texts.call, Step::Call, item.is_async)
            &&& spells(texts.store, Step::Store, item.is_async)
        }),
{
    reveal(spells);
    let caching = caching_of(args.result, args.option);
    let back = return_block(caching, args.with_cached_flag);
    lemma_begins("let mut cached = "@, plan.names.cache, ".write().await;"@);
    lemma_begins("let mut cached = "@, plan.names.cache, ".write().unwrap();"@);
    lemma_begins("let mut cached = "@, plan.names.cache, ".read().await;"@);
    lemma_begins("let mut cached = "@, plan.names.cache, ".read().unwrap();"@);
    lemma_begins("if let Some(result) = cached.cache_get(&()) { "@, back, " }"@);
    lemma_begins("if let Some(result) = &*cached { "@, back, " }"@);
    reveal_strlit("cached.cache_set((), result.clone());");
    reveal_strlit("cached.cache_set((), ");
    reveal_strlit("*cached = Some(result.clone());");
    reveal_strlit("*cached = Some(");
    reveal_strlit("result.clone());");
    assert("cached.cache_set((), result.clone());"@ =~= "cached.cache_set((), "@
        + "result.clone());"@);
    assert("*cached = Some(result.clone());"@ =~= "*cached = Some("@ + "result.clone());"@);
    lemma_write_begins(
        "cached.cache_set((), result.clone());"@,
        "cached.cache_set((), "@,
        "result.clone());"@,
        caching,
    );
    lemma_write_begins(
        "*cached = Some(result.clone());"@,
        "*cached = Some("@,
        "result.clone());"@,
        caching,
    );
    lemma_run_begins(item);
}

proof fn lemma_io_spells(args: IOMacroArgs, item: FnItemView, plan: IoPlanView)
    ensures
        ({
            let texts = io_texts(args, item, plan);
            &&& spells(texts.lock, Step::Lock, item.is_async)
            &&& spells(texts.borrow, Step::Borrow, item.is_async)
            &&& spells(texts.lookup, Step::Lookup, item.is_async)
            &&& spells(texts.call, Step::Call, item.is_async)
            &&& spells(texts.store, Step::Store, item.is_async)
        }),
{
    reveal(spells);
    let texts = io_texts(args, item, plan);
    let end = mapped(args, item.is_async, plan.map_error);
    lemma_begins("let mut cache = "@, plan.names.cache, ".lock().await;"@);
    lemma_begins("let mut cache = "@, plan.names.cache, ".lock().unwrap();"@);
    lemma_begins("let cache = &"@, plan.names.cache, ".get().await;"@);
    lemma_begins("let cache = &"@, plan.names.cache, ";"@);
    lemma_begins_more(
        "if let Some(result) = cache.cache_get(&key)"@,
        end,
        " { "@,
        io_return_block(args.with_cached_flag),
        " }"@,
    );
    let write = io_cached_value(args.with_cached_flag) + end + ";"@;
    lemma_begins("if let Ok(result) = &result { "@, write, " }"@);
    lemma_run_begins(item);
}

/// The texts of the steps that an attribute takes do what the steps stand for.
spec fn texts_spell(texts: StepTextsView, m: Macro, is_async: bool) -> bool {
    &&& spells(texts.lock, Step::Lock, is_async)
    &&& m is Once ==> spells(texts.read_lock, Step::ReadLock, is_async)
    &&& m is Io ==> spells(texts.borrow, Step::Borrow, is_async)
    &&& spells(texts.lookup, Step::Lookup, is_async)
    &&& spells(texts.call, Step::Call, is_async)
    &&& spells(texts.store, Step::Store, is_async)
}

/// Only `once` locks for reading, and only `io_cached` borrows its store.
spec fn steps_fit(steps: Seq<Step>, m: Macro) -> bool {
    &&& forall|i: int| 0 <= i < steps.len() && #[trigger] steps[i] is ReadLock ==> m is Once
    &&& forall|i: int| 0 <= i < steps.len() && #[trigger] steps[i] is Borrow ==> m is Io
}

proof fn lemma_steps_fit(m: Macro, prime: bool)
    ensures
        steps_fit(steps_of(m, prime), m),
{
}

/// Steps whose texts do what they stand for are spelled by their lines.
proof fn lemma_spell_all(steps: Seq<Step>, texts: StepTextsView, m: Macro, is_async: bool)
    requires
        texts_spell(texts, m, is_async),
        steps_fit(steps, m),
    ensures
        spell_all(step_lines(steps, texts), steps, is_async),
{
    assert(spells("{"@, Step::Open, is_async) && spells("}"@, Step::Close, is_async) && spells(
        "result"@,
        Step::Finish,
        is_async,
    )) by {
        reveal(spells);
    }
    let body = step_lines(steps, texts);
    assert forall|i: int| 0 <= i < steps.len() implies spells(
        #[trigger] body[i],
        steps[i],
        is_async,
    ) by {
        assert(body[i] == step_text(steps[i], texts));
        let step = steps[i];
    }
}

/// A text made of the steps of the attribute is laid out by them.
proof fn lemma_laid_out(
    text: Seq<char>,
    m: Macro,
    item: FnItemView,
    name: Seq<char>,
    cache: Seq<char>,
    opening: Seq<char>,
    steps: Seq<Step>,
    prime: Seq<Step>,
    texts: StepTextsView,
)
    requires
        text == assembled(pieces_of(item, name, cache, opening, steps, prime, texts)),
        steps == steps_of(m, false),
        prime == steps_of(m, true),
        steps_fit(steps, m),
        steps_fit(prime, m),
        texts_spell(texts, m, item.is_async),
    ensures
        is_laid_out(text, m, item.is_async),
{
    lemma_spell_all(steps, texts, m, item.is_async);
    lemma_spell_all(prime, texts, m, item.is_async);
}

/// What stands in the braces of the two functions, line by line, are the steps that
/// the laws on running functions speak of: those of the function itself in the
/// function, and the priming ones in the priming function, for every attribute, all
/// arguments and every function.
pub proof fn law_lines_are_the_steps(m: Macro, item: FnItemView)
    requires
        outcome_of(m, item) is Ok,
    ensures
        exists|p: Pieces|
            outcome_of(m, item)->Ok_0 == #[trigger] assembled(p) && spell_all(
                p.body,
                steps_of(m, false),
                item.is_async,
            ) && spell_all(p.prime_body, steps_of(m, true), item.is_async),
{
    match m {
        Macro::Cached(args) => {
            lemma_cached_plan(args, item);
            lemma_cached_lines(args, item, cached_plan(args, item)->Ok_0);
        },
        Macro::Once(args) => {
            lemma_once_plan(args, item);
            lemma_once_lines(args, item, once_plan(args, item)->Ok_0);
        },
        Macro::Io(args) => {
            lemma_io_plan(args, item);
            lemma_io_lines(args, item, io_plan(args, item)->Ok_0);
        },
    }
}

/// The text is put together of pieces whose lines are the steps of the attribute.
spec fn is_laid_out(text: Seq<char>, m: Macro, is_async: bool) -> bool {
    exists|p: Pieces|
        text == #[trigger] assembled(p) && spell_all(p.body, steps_of(m, false), is_async)
            && spell_all(p.prime_body, steps_of(m, true), is_async)
}

#[verifier::spinoff_prover]
proof fn lemma_cached_lines(args: MacroArgs, item: FnItemView, plan: CachedPlanView)
    requires
        !has_receiver(item.arguments),
        plan.names == names_of(plan.names.cache, item.ident + "_prime_cache"@, item.ident),
    ensures
        is_laid_out(cached_expansion(args, item, plan), Macro::Cached(args), item.is_async),
{
    let m = Macro::Cached(args);
    let texts = cached_texts(args, item, plan);
    let cache = locked_static(item, plan.names.cache, plan.store);
    let opening = locked_opening(plan.key);
    let steps = steps_of(m, false);
    let prime = steps_of(m, true);
    lemma_pieces(item, plan.names.cache, cache, opening, steps, prime, texts);
    lemma_cached_spells(args, item, plan);
    lemma_steps_fit(m, false);
    lemma_steps_fit(m, true);
    let text = cached_expansion(args, item, plan);
    lemma_laid_out(text, m, item, plan.names.cache, cache, opening, steps, prime, texts);
}

#[verifier::spinoff_prover]
proof fn lemma_once_lines(args: OnceMacroArgs, item: FnItemView, plan: OncePlanView)
    requires
        !has_receiver(item.arguments),
        plan.names == names_of(plan.names.cache, item.ident + "_prime_cache"@, item.ident),
    ensures
        is_laid_out(once_expansion(args, item, plan), Macro::Once(args), item.is_async),
{
    let m = Macro::Once(args);
    let texts = once_texts(args, item, plan);
    let cache = once_static(args, item, plan);
    let opening = once_opening(args.time);
    let steps = steps_of(m, false);
    let prime = steps_of(m, true);
    lemma_pieces(item, plan.names.cache, cache, opening, steps, prime, texts);
    lemma_once_spells(args, item, plan);
    lemma_steps_fit(m, false);
    lemma_steps_fit(m, true);
    let text = once_expansion(args, item, plan);
    lemma_laid_out(text, m, item, plan.names.cache, cache, opening, steps, prime, texts);
}

#[verifier::spinoff_prover]
proof fn lemma_io_lines(args: IOMacroArgs, item: FnItemView, plan: IoPlanView)
    requires
        !has_receiver(item.arguments),
        plan.names == names_of(plan.names.cache, item.ident + "_prime_cache"@, item.ident),
    ensures
        is_laid_out(io_expansion(args, item, plan), Macro::Io(args), item.is_async),
{
    let m = Macro::Io(args);
    let texts = io_texts(args, item, plan);
    let cache = io_static(args, item, plan);
    let opening = io_opening(args, item.is_async, plan);
    let steps = steps_of(m, false);
    let prime = steps_of(m, true);
    lemma_pieces(item, plan.names.cache, cache, opening, steps, prime, texts);
    lemma_io_spells(args, item, plan);
    lemma_steps_fit(m, false);
    lemma_steps_fit(m, true);
    let text = io_expansion(args, item, plan);
    lemma_laid_out(text, m, item, plan.names.cache, cache, opening, steps, prime, texts);
}

} // verus!
