//! What is refused, and how that is reported.
//!
//! The laws here say of every attribute, for all arguments and every function, which
//! report comes out: the first of the things that stand against an expansion, in the
//! order in which they are looked at. They speak of what goes in and of what the
//! outside crates make of it.

use crate::args::{IOMacroArgs, MacroArgs, OnceMacroArgs};
use crate::helpers::{has_receiver, inner_type};
use crate::io::{io_cached_text, io_outcome};
use crate::item::{read_argument, read_arguments, read_item, FnItemView, OutputView};
use crate::keyed::{cached_outcome, cached_text};
use crate::outside::{
    argument_of, block_of, closure_of, debug, item_of, literal, signature_of, tokens_of, type_of,
    upper, xid_continue, xid_start,
};
use crate::reading::{is_inner, law_names_return, name_or_upper, only_timed, returns_return};
use crate::rejection::{Reason, RejectionView};
use crate::single::{once_outcome, once_text};
use crate::syntax::{ArgumentView, PatternView, TokenView};
use crate::text::{ends_with, spaceless};
use vstd::prelude::*;

verus! {

// ---------------------------------------------------------------------------
// What goes into a report
// ---------------------------------------------------------------------------
/// The report is this one.
pub open spec fn refused(
    r: Result<Seq<char>, RejectionView>,
    reason: Reason,
    detail: Seq<char>,
) -> bool {
    r matches Err(e) && e.reason == reason && e.detail == detail
}

/// Tokens that fail to compile with this message.
pub open spec fn failing_tokens(message: Seq<char>) -> Seq<char> {
    "compile_error ! { "@ + literal(message) + " }"@
}

/// Dropping the spaces of a text drops those of its parts, and no other character.
pub proof fn law_spaceless(one: Seq<char>, other: Seq<char>, c: char)
    ensures
        spaceless(one + other) == spaceless(one) + spaceless(other),
        spaceless(seq![c]) == if c == ' ' {
            Seq::<char>::empty()
        } else {
            seq![c]
        },
        spaceless(Seq::<char>::empty()) == Seq::<char>::empty(),
    decreases other.len(),
{
    reveal(Seq::filter);
    let keep = |c: char| c != ' ';
    assert(spaceless(Seq::<char>::empty()) =~= Seq::<char>::empty());
    assert(seq![c].drop_last() =~= Seq::<char>::empty());
    assert(spaceless(seq![c]) =~= if c == ' ' {
        Seq::<char>::empty()
    } else {
        seq![c]
    });
    if other.len() == 0 {
        assert(one + other =~= one);
        assert(spaceless(other) =~= Seq::<char>::empty());
    } else {
        law_spaceless(one, other.drop_last(), c);
        assert((one + other).drop_last() =~= one + other.drop_last());
        assert((one + other).last() == other.last());
    }
}

/// The return type as reports show it: without spaces.
pub open spec fn shown(item: FnItemView) -> Seq<char> {
    match item.output {
        Some(output) => spaceless(output.text),
        None => spaceless("()"@),
    }
}

/// One of the arguments is `self`.
pub open spec fn takes_a_self(item: FnItemView) -> bool {
    exists|i: int| 0 <= i < item.arguments.len() && #[trigger] item.arguments[i] is Receiver
}

/// The text is an identifier.
pub open spec fn identifier(text: Seq<char>) -> bool {
    &&& text.len() > 0
    &&& text[0] == '_' || xid_start(text[0])
    &&& forall|i: int| 0 < i < text.len() ==> xid_continue(#[trigger] text[i])
}

/// The return type is a path.
pub open spec fn returns_path(item: FnItemView) -> bool {
    item.output matches Some(output) && output.path is Some
}

/// The return type has an inner type.
pub open spec fn returns_inner(item: FnItemView) -> bool {
    item.output matches Some(output) && exists|inner: Seq<char>|
        #[trigger] is_inner(inner, output.path)
}

proof fn lemma_inner(item: FnItemView)
    ensures
        returns_inner(item) <==> (item.output matches Some(output) && output.path matches Some(path)
            && inner_type(path) is Some),
        returns_inner(item) ==> is_inner(
            inner_type(item.output->0.path->0)->0,
            item.output->0.path,
        ),
{
    if let Some(output) = item.output {
        if let Some(path) = output.path {
            if let Some(inner) = inner_type(path) {
                assert(is_inner(inner, output.path));
            }
        }
    }
}

// ---------------------------------------------------------------------------
// The reports of the attributes
// ---------------------------------------------------------------------------
/// Which report comes of the arguments that make the key, if one does.
pub open spec fn key_refused(
    r: Result<Seq<char>, RejectionView>,
    key: Option<String>,
    convert: Option<String>,
    cache_type: Option<String>,
) -> Option<bool> {
    if key is Some && convert is None {
        Some(refused(r, Reason::KeyWithoutConvert, Seq::empty()))
    } else if key is None && convert is Some && cache_type is None {
        Some(refused(r, Reason::ConvertWithoutKey, Seq::empty()))
    } else if key is Some && type_of(key->0@) is Err {
        Some(refused(r, Reason::KeySyntax, type_of(key->0@)->Err_0))
    } else if convert is Some && block_of(convert->0@) is Err {
        Some(refused(r, Reason::ConvertSyntax, block_of(convert->0@)->Err_0))
    } else {
        None
    }
}

/// What is looked at before names, keys and stores, and which report comes of it.
pub open spec fn function_refused(
    r: Result<Seq<char>, RejectionView>,
    item: FnItemView,
    with_cached_flag: bool,
    result: bool,
    option: bool,
) -> Option<bool> {
    if takes_a_self(item) {
        Some(refused(r, Reason::Method, Seq::empty()))
    } else if with_cached_flag && !returns_return(item) {
        Some(
            refused(
                r,
                Reason::CachedFlag,
                failing_tokens(
                    "\nWhen specifying `with_cached_flag = true`, the return type must be wrapped in `cached::Return<T>`. \nThe following return types are supported: \n|    `cached::Return<T>`\n|    `std::result::Result<cached::Return<T>, E>`\n|    `std::option::Option<cached::Return<T>>`\nFound type: "@
                        + shown(item) + "."@,
                ),
            ),
        )
    } else if result && option {
        Some(refused(r, Reason::ResultAndOption, Seq::empty()))
    } else if (result || option) && item.output is None {
        Some(refused(r, Reason::NoReturnType, Seq::empty()))
    } else if (result || option) && !returns_path(item) {
        Some(refused(r, Reason::ReturnTypeTooComplex, Seq::empty()))
    } else if (result || option) && !returns_inner(item) {
        Some(refused(r, Reason::NoInnerType, Seq::empty()))
    } else {
        None
    }
}

/// Which report comes of a name, if one does.
pub open spec fn name_refused(
    r: Result<Seq<char>, RejectionView>,
    name: Seq<char>,
) -> Option<bool> {
    if identifier(name) {
        None
    } else {
        Some(refused(r, Reason::Name, debug(name) + " is not a valid Ident"@))
    }
}

/// Which report comes of the store of `cached`, if one does.
pub open spec fn store_refused(
    r: Result<Seq<char>, RejectionView>,
    args: MacroArgs,
) -> Option<bool> {
    let bounded = args.size is Some || args.time is Some;
    let given = args.cache_type is Some || args.cache_create is Some;
    if (args.unbound && bounded) || (args.unbound && given) || (bounded && given) {
        Some(refused(r, Reason::StoreConflict, Seq::empty()))
    } else if args.cache_type is Some && args.cache_create is None {
        Some(refused(r, Reason::TypeWithoutCreate, Seq::empty()))
    } else if args.cache_type is None && args.cache_create is Some {
        Some(refused(r, Reason::CreateWithoutType, Seq::empty()))
    } else if args.cache_type is Some && type_of(args.cache_type->0@) is Err {
        Some(refused(r, Reason::CacheTypeSyntax, type_of(args.cache_type->0@)->Err_0))
    } else if args.cache_create is Some && block_of(args.cache_create->0@) is Err {
        Some(refused(r, Reason::CreateSyntax, block_of(args.cache_create->0@)->Err_0))
    } else {
        None
    }
}

/// The first that has something to say.
pub open spec fn first(one: Option<bool>, other: Option<bool>) -> Option<bool> {
    match one {
        Some(said) => Some(said),
        None => other,
    }
}

/// What `cached` refuses, and how: the function is looked at first, then the name of
/// the cache, the key, the store, and the name of the priming function. What none of
/// them stands against is expanded.
pub proof fn law_cached_refuses(args: MacroArgs, item: FnItemView)
    ensures
        ({
            let r = cached_outcome(args, item);
            let said = first(
                function_refused(r, item, args.with_cached_flag, args.result, args.option),
                first(
                    name_refused(r, name_or_upper(args.name, item)),
                    first(
                        key_refused(r, args.key, args.convert, args.cache_type),
                        first(
                            store_refused(r, args),
                            name_refused(r, item.ident + "_prime_cache"@),
                        ),
                    ),
                ),
            );
            match said {
                Some(right) => right,
                None => r is Ok,
            }
        }),
{
    law_names_return(item);
    lemma_inner(item);
    assert(takes_a_self(item) == has_receiver(item.arguments));
}

/// What `once` refuses, and how: the function is looked at first, then the two names.
pub proof fn law_once_refuses(args: OnceMacroArgs, item: FnItemView)
    ensures
        ({
            let r = once_outcome(args, item);
            let said = first(
                function_refused(r, item, args.with_cached_flag, args.result, args.option),
                first(
                    name_refused(r, name_or_upper(args.name, item)),
                    name_refused(r, item.ident + "_prime_cache"@),
                ),
            );
            match said {
                Some(right) => right,
                None => r is Ok,
            }
        }),
{
    law_names_return(item);
    lemma_inner(item);
    assert(takes_a_self(item) == has_receiver(item.arguments));
}

/// Which report comes of the function under `io_cached`, if one does.
pub open spec fn io_function_refused(
    r: Result<Seq<char>, RejectionView>,
    item: FnItemView,
    with_cached_flag: bool,
) -> Option<bool> {
    let inside = type_of(item.output->0.path->0.last().arguments->Angle_0[0]);
    if takes_a_self(item) {
        Some(refused(r, Reason::Method, Seq::empty()))
    } else if with_cached_flag && !returns_return(item) {
        Some(
            refused(
                r,
                Reason::CachedFlag,
                failing_tokens(
                    "\nWhen specifying `with_cached_flag = true`, the return type must be wrapped in `cached::Return<T>`. \nThe following return types are supported: \n|    `Result<cached::Return<T>, E>`\nFound type: "@
                        + shown(item) + "."@,
                ),
            ),
        )
    } else if item.output is None {
        Some(refused(r, Reason::IoNoReturnType, debug(shown(item))))
    } else if !returns_path(item) {
        Some(refused(r, Reason::IoReturnTypeTooComplex, Seq::empty()))
    } else if !returns_inner(item) {
        Some(refused(r, Reason::IoNoResult, Seq::empty()))
    } else if returns_return(item) && !(inside is Ok && exists|inner: Seq<char>| #[trigger]
        is_inner(inner, inside->Ok_0.path)) {
        Some(refused(r, Reason::IoValueType, debug(shown(item))))
    } else {
        None
    }
}

/// Which report comes of the store of `io_cached`, if one does.
pub open spec fn io_store_refused(
    r: Result<Seq<char>, RejectionView>,
    args: IOMacroArgs,
    item: FnItemView,
) -> Option<bool> {
    let source = match args.cache_prefix_block {
        Some(given) => given@,
        None => " { \"cached::proc_macro::io_cached::"@ + upper(item.ident) + "\" }"@,
    };
    if args.cache_type is Some && type_of(args.cache_type->0@) is Err {
        Some(refused(r, Reason::CacheTypeSyntax, type_of(args.cache_type->0@)->Err_0))
    } else if args.cache_type is None && !args.redis && args.time is None {
        Some(refused(r, Reason::IoNoType, Seq::empty()))
    } else if args.cache_create is Some && (args.time is Some || args.time_refresh is Some
        || args.cache_prefix_block is Some) {
        Some(refused(r, Reason::IoCreateConflict, Seq::empty()))
    } else if args.cache_create is Some && block_of(args.cache_create->0@) is Err {
        Some(refused(r, Reason::CreateSyntax, block_of(args.cache_create->0@)->Err_0))
    } else if args.cache_create is Some {
        None
    } else if !args.redis && !only_timed(args) {
        Some(refused(r, Reason::IoNoCreate, Seq::empty()))
    } else if args.time is None && item.is_async {
        Some(refused(r, Reason::IoAsyncRedisTime, Seq::empty()))
    } else if args.time is None {
        Some(refused(r, Reason::IoRedisTime, Seq::empty()))
    } else if (args.redis || args.cache_prefix_block is Some) && block_of(source) is Err {
        Some(refused(r, Reason::PrefixSyntax, block_of(source)->Err_0))
    } else {
        None
    }
}

/// What `io_cached` refuses, and how: the function is looked at first, then the name
/// of the cache, the key, the store, the closure, and the name of the priming
/// function.
pub proof fn law_io_cached_refuses(args: IOMacroArgs, item: FnItemView)
    ensures
        ({
            let r = io_outcome(args, item);
            let closure = closure_of(args.map_error@);
            let said = first(
                io_function_refused(r, item, args.with_cached_flag),
                first(
                    name_refused(r, name_or_upper(args.name, item)),
                    first(
                        key_refused(r, args.key, args.convert, args.cache_type),
                        first(
                            io_store_refused(r, args, item),
                            first(
                                if closure is Err {
                                    Some(refused(r, Reason::MapErrorSyntax, closure->Err_0))
                                } else {
                                    None
                                },
                                name_refused(r, item.ident + "_prime_cache"@),
                            ),
                        ),
                    ),
                ),
            );
            match said {
                Some(right) => right,
                None => r is Ok,
            }
        }),
{
    law_names_return(item);
    lemma_inner(item);
    assert(takes_a_self(item) == has_receiver(item.arguments));
    if returns_inner(item) {
        let inner = inner_type(item.output->0.path->0)->0;
        let inside = type_of(inner);
        if let Ok(ty) = inside {
            if let Some(path) = ty.path {
                if let Some(held) = inner_type(path) {
                    assert(is_inner(held, ty.path));
                }
            }
        }
    }
}

// ---------------------------------------------------------------------------
// How the text of a function is read
// ---------------------------------------------------------------------------
/// The dots of a variadic function, as an argument of their own.
pub open spec fn is_dots(text: Seq<char>) -> bool {
    text.len() >= 9 && text.subrange(text.len() - 9, text.len() as int) == "... : ..."@
}

/// The text of an argument was read as this argument.
pub open spec fn argument_read(text: Seq<char>, argument: ArgumentView) -> bool {
    if is_dots(text) {
        argument == (ArgumentView::Typed {
            attributes: seq![text.subrange(0, text.len() - 9)],
            pattern: PatternView::Other("..."@),
            ty: "..."@,
        })
    } else {
        argument_of(text) == Ok::<ArgumentView, Seq<char>>(argument)
    }
}

/// The text of an argument cannot be read.
pub open spec fn argument_unread(text: Seq<char>) -> bool {
    !is_dots(text) && argument_of(text) is Err
}

proof fn lemma_dots(text: Seq<char>)
    ensures
        is_dots(text) == ends_with(text, "... : ..."@),
        is_dots(text) ==> text.subrange(0, text.len() - 9) == text.take(
            text.len() - "... : ..."@.len(),
        ),
        read_argument(text) matches Ok(argument) ==> argument_read(text, argument),
        read_argument(text) is Err <==> argument_unread(text),
        read_argument(text) matches Err(e) ==> e == (RejectionView {
            reason: Reason::Syntax,
            detail: failing_tokens(argument_of(text)->Err_0),
        }),
{
    reveal_strlit("... : ...");
    if is_dots(text) {
        assert(text.subrange(0, text.len() - 9) =~= text.take(text.len() - 9));
    }
}

proof fn lemma_arguments(texts: Seq<Seq<char>>)
    ensures
        match read_arguments(texts) {
            Ok(arguments) => {
                &&& arguments.len() == texts.len()
                &&& forall|i: int|
                    0 <= i < texts.len() ==> argument_read(#[trigger] texts[i], arguments[i])
            },
            Err(e) => exists|i: int|
                0 <= i < texts.len() && argument_unread(#[trigger] texts[i]) && (forall|j: int|
                    0 <= j < i ==> !argument_unread(#[trigger] texts[j])) && e == (RejectionView {
                    reason: Reason::Syntax,
                    detail: failing_tokens(argument_of(texts[i])->Err_0),
                }),
        },
        read_arguments(texts) is Ok ==> forall|i: int|
            0 <= i < texts.len() ==> !argument_unread(#[trigger] texts[i]),
    decreases texts.len(),
{
    if texts.len() > 0 {
        let rest = texts.drop_last();
        lemma_arguments(rest);
        lemma_dots(texts.last());
        assert forall|i: int| 0 <= i < rest.len() implies rest[i] == #[trigger] texts[i] by {}
        match read_arguments(rest) {
            Ok(before) => {
                assert(texts[texts.len() - 1] == texts.last());
                assert forall|j: int| 0 <= j < rest.len() implies !argument_unread(
                    #[trigger] texts[j],
                ) by {
                    assert(!argument_unread(rest[j]));
                }
                if let Ok(arguments) = read_arguments(texts) {
                    assert forall|i: int| 0 <= i < texts.len() implies argument_read(
                        #[trigger] texts[i],
                        arguments[i],
                    ) by {
                        if i < rest.len() {
                            assert(argument_read(rest[i], before[i]));
                        }
                    }
                } else {
                    assert(argument_unread(texts[texts.len() - 1]));
                }
            },
            Err(e) => {
                let i = choose|i: int|
                    0 <= i < rest.len() && argument_unread(#[trigger] rest[i]) && (forall|j: int|
                        0 <= j < i ==> !argument_unread(#[trigger] rest[j])) && e == (
                    RejectionView {
                        reason: Reason::Syntax,
                        detail: failing_tokens(argument_of(rest[i])->Err_0),
                    });
                assert(argument_unread(texts[i]));
                assert forall|j: int| 0 <= j < i implies !argument_unread(#[trigger] texts[j]) by {
                    assert(!argument_unread(rest[j]));
                }
            },
        }
    }
}

/// The return type was read from its text.
pub open spec fn output_read(text: Seq<char>, output: OutputView) -> bool {
    &&& type_of(text) matches Ok(ty)
    &&& tokens_of(ty.text) matches Ok(tokens)
    &&& output.text == ty.text
    &&& output.path == ty.path
    &&& output.tokens == tokens
}

/// A text that is read as a function is read whole: every part of the function is
/// the part that the text has there, each argument at its place.
pub proof fn law_item_is_read_whole(input: Seq<char>)
    requires
        read_item(input) is Ok,
    ensures
        ({
            let item = read_item(input)->Ok_0;
            let whole = item_of(input)->Ok_0;
            let head = signature_of(whole.signature)->Ok_0;
            &&& item_of(input) is Ok
            &&& signature_of(whole.signature) is Ok
            &&& item.attributes == whole.attributes
            &&& item.visibility == whole.visibility
            &&& item.body == whole.body
            &&& item.is_const == head.is_const
            &&& item.is_async == head.is_async
            &&& item.is_unsafe == head.is_unsafe
            &&& item.abi == head.abi
            &&& item.ident == head.ident
            &&& item.generics == head.generics
            &&& item.argument_list == head.argument_list
            &&& item.variadic == head.variadic
            &&& item.where_clause == head.where_clause
            &&& item.arguments.len() == head.arguments.len()
            &&& forall|i: int|
                0 <= i < head.arguments.len() ==> argument_read(
                    #[trigger] head.arguments[i],
                    item.arguments[i],
                )
            &&& item.output is Some <==> head.output is Some
            &&& head.output matches Some(text) ==> output_read(text, item.output->0)
        }),
{
    let head = signature_of(item_of(input)->Ok_0.signature)->Ok_0;
    lemma_arguments(head.arguments);
}

/// A text is refused exactly where one of its parts cannot be read: with the tokens
/// or the message of the outside parser for the item, the signature, or the first bad
/// argument, and with its error for the return type.
pub proof fn law_item_is_refused(input: Seq<char>)
    requires
        read_item(input) is Err,
    ensures
        ({
            let e = read_item(input)->Err_0;
            match item_of(input) {
                Err(tokens) => e.reason == Reason::Syntax && e.detail == tokens,
                Ok(whole) => match signature_of(whole.signature) {
                    Err(message) => e.reason == Reason::Syntax && e.detail == failing_tokens(
                        message,
                    ),
                    Ok(head) => {
                        ||| exists|i: int|
                            0 <= i < head.arguments.len() && argument_unread(
                                #[trigger] head.arguments[i],
                            ) && (forall|j: int|
                                0 <= j < i ==> !argument_unread(#[trigger] head.arguments[j]))
                                && e.reason == Reason::Syntax && e.detail == failing_tokens(
                                argument_of(head.arguments[i])->Err_0,
                            )
                        ||| {
                            &&& head.output is Some
                            &&& forall|i: int|
                                0 <= i < head.arguments.len() ==> !argument_unread(
                                    #[trigger] head.arguments[i],
                                )
                            &&& e.reason == Reason::ReturnTypeSyntax
                            &&& match type_of(head.output->0) {
                                Err(error) => e.detail == error,
                                Ok(ty) => tokens_of(ty.text) == Err::<
                                    Seq<TokenView>,
                                    Seq<char>,
                                >(e.detail),
                            }
                        }
                    },
                },
            }
        }),
{
    if let Ok(whole) = item_of(input) {
        if let Ok(head) = signature_of(whole.signature) {
            lemma_arguments(head.arguments);
        }
    }
}

/// An attribute on a text does what it does on the function that the text is, and
/// where the text is none, it reports why.
pub proof fn law_text_is_its_item(
    args: MacroArgs,
    once: OnceMacroArgs,
    io: IOMacroArgs,
    input: Seq<char>,
)
    ensures
        read_item(input) matches Ok(item) ==> {
            &&& cached_text(args, input) == cached_outcome(args, item)
            &&& once_text(once, input) == once_outcome(once, item)
            &&& io_cached_text(io, input) == io_outcome(io, item)
        },
        read_item(input) matches Err(e) ==> {
            &&& cached_text(args, input) == Err::<Seq<char>, RejectionView>(e)
            &&& once_text(once, input) == Err::<Seq<char>, RejectionView>(e)
            &&& io_cached_text(io, input) == Err::<Seq<char>, RejectionView>(e)
        },
{
}

} // verus!
