//! The views of the library's types leave nothing out: each field of a value stands in
//! its view.

use crate::expansion::Names;
use crate::helpers::Key;
use crate::io::IoPlan;
use crate::item::{FnItem, Output};
use crate::keyed::{CachedPlan, Store};
use crate::rejection::{outcome, Rejection, RejectionView};
use crate::single::OncePlan;
use crate::steps::StepTexts;
use crate::syntax::{
    parsed, segments, Argument, ArgumentView, Attribute, ItemText, Pattern, PatternView, Segment,
    SegmentArguments, SegmentArgumentsView, SignatureText, Token, TokenView, TypeText,
};
use crate::text::{opt, views};
use vstd::prelude::*;

verus! {

/// The view of a sequence has the views of its elements, each at its place.
pub proof fn law_views<T: View>(items: Seq<T>, item: T)
    ensures
        views(items).len() == items.len(),
        forall|i: int| 0 <= i < items.len() ==> #[trigger] views(items)[i] == items[i]@,
        opt(Some(item)) == Some(item@),
        opt::<T>(None) == None::<T::V>,
{
}

/// The view of an outcome tells a value from an error, and keeps both.
pub proof fn law_outcomes<T: View>(value: T, rejection: Rejection, error: String)
    ensures
        outcome(Ok::<T, Rejection>(value)) == Ok::<T::V, RejectionView>(value@),
        outcome(Err::<T, Rejection>(rejection)) == Err::<T::V, RejectionView>(rejection@),
        rejection@.reason == rejection.reason,
        rejection@.detail == rejection.detail@,
        parsed(Ok::<T, String>(value)) == Ok::<T::V, Seq<char>>(value@),
        parsed(Err::<T, String>(error)) == Err::<T::V, Seq<char>>(error@),
{
}

/// The view of a function has all its parts.
pub proof fn law_function_view(f: FnItem, o: Output)
    ensures
        f@.attributes.len() == f.attributes.len(),
        forall|i: int|
            0 <= i < f.attributes.len() ==> #[trigger] f@.attributes[i] == f.attributes@[i]@,
        f@.visibility == f.visibility@,
        f@.is_const == f.is_const,
        f@.is_async == f.is_async,
        f@.is_unsafe == f.is_unsafe,
        f@.abi == f.abi@,
        f@.ident == f.ident@,
        f@.generics == f.generics@,
        f@.arguments.len() == f.arguments.len(),
        forall|i: int|
            0 <= i < f.arguments.len() ==> #[trigger] f@.arguments[i] == f.arguments@[i]@,
        f@.argument_list == f.argument_list@,
        f@.variadic == f.variadic@,
        f.output is None <==> f@.output is None,
        f.output matches Some(output) ==> f@.output == Some(output@),
        f@.where_clause == f.where_clause@,
        f@.body == f.body@,
        o@.text == o.text@,
        o@.tokens.len() == o.tokens.len(),
        forall|i: int| 0 <= i < o.tokens.len() ==> #[trigger] o@.tokens[i] == o.tokens@[i]@,
        o@.path == segments(o.path),
{
}

/// The views of what is parsed have all its parts.
pub proof fn law_syntax_views(
    attribute: Attribute,
    item: ItemText,
    head: SignatureText,
    ty: TypeText,
    segment: Segment,
    path: Vec<Segment>,
)
    ensures
        attribute@.path == attribute.path@,
        attribute@.text == attribute.text@,
        item@.attributes.len() == item.attributes.len(),
        forall|i: int|
            0 <= i < item.attributes.len() ==> #[trigger] item@.attributes[i]
                == item.attributes@[i]@,
        item@.visibility == item.visibility@,
        item@.signature == item.signature@,
        item@.body == item.body@,
        head@.is_const == head.is_const,
        head@.is_async == head.is_async,
        head@.is_unsafe == head.is_unsafe,
        head@.abi == head.abi@,
        head@.ident == head.ident@,
        head@.generics == head.generics@,
        head@.arguments.len() == head.arguments.len(),
        forall|i: int|
            0 <= i < head.arguments.len() ==> #[trigger] head@.arguments[i] == head.arguments@[i]@,
        head@.argument_list == head.argument_list@,
        head@.variadic == head.variadic@,
        head.output is None <==> head@.output is None,
        head.output matches Some(output) ==> head@.output == Some(output@),
        head@.where_clause == head.where_clause@,
        ty@.text == ty.text@,
        ty@.path == segments(ty.path),
        segments(None) is None,
        segments(Some(path)) is Some,
        segments(Some(path))->0.len() == path.len(),
        forall|i: int|
            0 <= i < path.len() ==> #[trigger] segments(Some(path))->0[i] == path@[i]@,
        segment@.ident == segment.ident@,
        segment@.arguments == segment.arguments@,
{
}

/// The views of arguments, patterns, tokens and path arguments tell the variants apart
/// and keep what they hold.
pub proof fn law_variant_views(
    argument: Argument,
    pattern: Pattern,
    token: Token,
    arguments: SegmentArguments,
)
    ensures
        match argument {
            Argument::Receiver => argument@ == ArgumentView::Receiver,
            Argument::Typed { attributes, pattern, ty } => {
                &&& argument@ is Typed
                &&& argument@->pattern == pattern@
                &&& argument@->ty == ty@
                &&& argument@->attributes.len() == attributes.len()
                &&& forall|i: int|
                    0 <= i < attributes.len() ==> #[trigger] argument@->attributes[i]
                        == attributes@[i]@
            },
        },
        match pattern {
            Pattern::Binding { by_ref, mutable, ident, subpattern } => {
                &&& pattern@ is Binding
                &&& pattern@->by_ref == by_ref
                &&& pattern@->mutable == mutable
                &&& pattern@->ident == ident@
                &&& subpattern is None <==> pattern@->subpattern is None
                &&& subpattern matches Some(inner) ==> pattern@->subpattern == Some(inner@)
            },
            Pattern::Other(text) => pattern@ == PatternView::Other(text@),
        },
        match token {
            Token::Ident(name) => token@ == TokenView::Ident(name@),
            Token::Group => token@ == TokenView::Group,
            Token::Punct => token@ == TokenView::Punct,
            Token::Literal => token@ == TokenView::Literal,
        },
        match arguments {
            SegmentArguments::Absent => arguments@ == SegmentArgumentsView::Absent,
            SegmentArguments::Parenthesized(text) => arguments@
                == SegmentArgumentsView::Parenthesized(text@),
            SegmentArguments::Angle(inner) => {
                &&& arguments@ is Angle
                &&& arguments@->Angle_0.len() == inner.len()
                &&& forall|i: int|
                    0 <= i < inner.len() ==> #[trigger] arguments@->Angle_0[i] == inner@[i]@
            },
        },
{
}

/// The views of plans have all that is planned.
pub proof fn law_plan_views(
    names: Names,
    key: Key,
    store: Store,
    texts: StepTexts,
    cached: CachedPlan,
    once: OncePlan,
    io: IoPlan,
)
    ensures
        names@.cache == names.cache@,
        names@.prime == names.prime@,
        names@.static_doc == names.static_doc@,
        names@.prime_doc == names.prime_doc@,
        names@.cached_doc == names.cached_doc@,
        key@.ty == key.ty@,
        key@.convert == key.convert@,
        store@.ty == store.ty@,
        store@.create == store.create@,
        texts@.lock == texts.lock@,
        texts@.read_lock == texts.read_lock@,
        texts@.borrow == texts.borrow@,
        texts@.lookup == texts.lookup@,
        texts@.call == texts.call@,
        texts@.store == texts.store@,
        cached@.names == cached.names@,
        cached@.key == cached.key@,
        cached@.store == cached.store@,
        once@.names == once.names@,
        once@.value == once.value@,
        io@.names == io.names@,
        io@.key == io.key@,
        io@.store == io.store@,
        io@.map_error == io.map_error@,
{
}

} // verus!
