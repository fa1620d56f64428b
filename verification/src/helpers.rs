//! What the three expansions share: names, keys, value types, signatures and
//! doc comments.

use crate::item::{FnItem, FnItemView, Output, OutputView};
use crate::outside::{
    ascii_letter, ascii_upper, block_of, debug, debug_text, error_tokens, ident_token, is_ascii,
    is_ident, is_xid_continue, is_xid_start, parse_block, parse_type, report_error, to_upper,
    type_of, upper, xid_continue,
};
use crate::rejection::{
    because, because_of, outcome, reject, reject_with, Reason, Rejection, RejectionView,
};
use crate::syntax::{
    Argument, ArgumentView, Attribute, AttributeView, Pattern, PatternView, Segment,
    SegmentArguments, SegmentArgumentsView, SegmentView, Token, TokenView,
};
use crate::text::{
    contains, join, join_texts, opt, spaceless, text_contains, views, without_spaces,
};
use vstd::prelude::*;
use vstd::string::*;

verus! {

// ---------------------------------------------------------------------------
// Arguments
// ---------------------------------------------------------------------------
/// One of the arguments is `self`.
pub open spec fn has_receiver(arguments: Seq<ArgumentView>) -> bool {
    exists|i: int| 0 <= i < arguments.len() && #[trigger] arguments[i] is Receiver
}

/// The text of a pattern.
pub open spec fn pattern_text(pattern: PatternView) -> Seq<char> {
    match pattern {
        PatternView::Binding { by_ref, mutable, ident, subpattern } => (if by_ref {
            "ref "@
        } else {
            ""@
        }) + (if mutable {
            "mut "@
        } else {
            ""@
        }) + ident + (match subpattern {
            None => ""@,
            Some(inner) => " @ "@ + inner,
        }),
        PatternView::Other(text) => text,
    }
}

/// The pattern, without the `mut` of a binding.
pub open spec fn without_mut(pattern: PatternView) -> PatternView {
    match pattern {
        PatternView::Binding { by_ref, mutable, ident, subpattern } => PatternView::Binding {
            by_ref,
            mutable: false,
            ident,
            subpattern,
        },
        PatternView::Other(text) => PatternView::Other(text),
    }
}

/// The type of an argument.
pub open spec fn argument_type(argument: ArgumentView) -> Seq<char> {
    match argument {
        ArgumentView::Receiver => ""@,
        ArgumentView::Typed { attributes, pattern, ty } => ty,
    }
}

/// The name of an argument, as a call passes it on.
pub open spec fn argument_name(argument: ArgumentView) -> Seq<char> {
    match argument {
        ArgumentView::Receiver => ""@,
        ArgumentView::Typed { attributes, pattern, ty } => pattern_text(without_mut(pattern)),
    }
}

/// The declaration of an argument, without the `mut` of its binding. The dots of a
/// variadic function have no type.
pub open spec fn argument_declaration(argument: ArgumentView) -> Seq<char> {
    match argument {
        ArgumentView::Receiver => ""@,
        ArgumentView::Typed { attributes, pattern, ty } => join(attributes, " "@) + " "@
            + pattern_text(without_mut(pattern)) + (if ty == "..."@ && pattern
            == PatternView::Other("..."@) {
            ""@
        } else {
            " : "@ + ty
        }),
    }
}

/// The types of all arguments.
pub open spec fn argument_types(arguments: Seq<ArgumentView>) -> Seq<Seq<char>> {
    Seq::new(arguments.len(), |i: int| argument_type(arguments[i]))
}

/// The names of all arguments.
pub open spec fn argument_names(arguments: Seq<ArgumentView>) -> Seq<Seq<char>> {
    Seq::new(arguments.len(), |i: int| argument_name(arguments[i]))
}

/// The declarations of all arguments.
pub open spec fn argument_declarations(arguments: Seq<ArgumentView>) -> Seq<Seq<char>> {
    Seq::new(arguments.len(), |i: int| argument_declaration(arguments[i]))
}

/// Whether one of the arguments is `self`.
pub fn takes_self(arguments: &Vec<Argument>) -> (r: bool)
    ensures
        r == has_receiver(views(arguments@)),
{
    let ghost all = views(arguments@);
    for i in 0..arguments.len()
        invariant
            all == views(arguments@),
            forall|j: int| 0 <= j < i ==> !(#[trigger] all[j] is Receiver),
    {
        match &arguments[i] {
            Argument::Receiver => {
                assert(all[i as int] is Receiver);
                return true;
            },
            Argument::Typed { attributes: _, pattern: _, ty: _ } => {
                assert(!(all[i as int] is Receiver));
            },
        }
    }
    false
}

/// The pattern, without the `mut` of a binding.
pub fn match_pattern_type(pattern: &Pattern) -> (r: Pattern)
    ensures
        r@ == without_mut(pattern@),
{
    match pattern {
        Pattern::Binding { by_ref, mutable: _, ident, subpattern } => Pattern::Binding {
            by_ref: *by_ref,
            mutable: false,
            ident: ident.clone(),
            subpattern: match subpattern {
                None => None,
                Some(inner) => Some(inner.clone()),
            },
        },
        Pattern::Other(text) => Pattern::Other(text.clone()),
    }
}

/// Writes a pattern.
pub fn write_pattern(pattern: &Pattern) -> (r: String)
    ensures
        r@ == pattern_text(pattern@),
{
    match pattern {
        Pattern::Binding { by_ref, mutable, ident, subpattern } => {
            let tail = match subpattern {
                None => "".to_owned(),
                Some(inner) => " @ ".to_owned().concat(inner.as_str()),
            };
            (if *by_ref {
                "ref "
            } else {
                ""
            }).to_owned().concat(
                if *mutable {
                    "mut "
                } else {
                    ""
                },
            ).concat(ident.as_str()).concat(tail.as_str())
        },
        Pattern::Other(text) => text.clone(),
    }
}

/// The types of the arguments.
pub fn get_input_types(arguments: &Vec<Argument>) -> (r: Vec<String>)
    requires
        !has_receiver(views(arguments@)),
    ensures
        views(r@) == argument_types(views(arguments@)),
{
    let mut r: Vec<String> = Vec::new();
    for i in 0..arguments.len()
        invariant
            r.len() == i,
            forall|j: int|
                0 <= j < i ==> #[trigger] r@[j]@ == argument_type(views(arguments@)[j]),
    {
        match &arguments[i] {
            Argument::Receiver => r.push("".to_owned()),
            Argument::Typed { attributes: _, pattern: _, ty } => r.push(ty.clone()),
        }
    }
    assert(views(r@) =~= argument_types(views(arguments@)));
    r
}

/// The names of the arguments.
pub fn get_input_names(arguments: &Vec<Argument>) -> (r: Vec<String>)
    requires
        !has_receiver(views(arguments@)),
    ensures
        views(r@) == argument_names(views(arguments@)),
{
    let mut r: Vec<String> = Vec::new();
    for i in 0..arguments.len()
        invariant
            r.len() == i,
            forall|j: int|
                0 <= j < i ==> #[trigger] r@[j]@ == argument_name(views(arguments@)[j]),
    {
        match &arguments[i] {
            Argument::Receiver => r.push("".to_owned()),
            Argument::Typed { attributes: _, pattern, ty: _ } => r.push(
                write_pattern(&match_pattern_type(pattern)),
            ),
        }
    }
    assert(views(r@) =~= argument_names(views(arguments@)));
    r
}

// ---------------------------------------------------------------------------
// Signatures
// ---------------------------------------------------------------------------
/// The arrow and the return type; nothing where the function has none.
pub open spec fn output_clause(output: Option<OutputView>) -> Seq<char> {
    match output {
        None => ""@,
        Some(o) => "-> "@ + o.text,
    }
}

/// The words before `fn`.
pub open spec fn qualifiers(item: FnItemView) -> Seq<char> {
    (if item.is_const {
        "const "@
    } else {
        ""@
    }) + (if item.is_async {
        "async "@
    } else {
        ""@
    }) + (if item.is_unsafe {
        "unsafe "@
    } else {
        ""@
    }) + item.abi
}

/// The last of the arguments is itself variadic.
pub open spec fn ends_variadic(arguments: Seq<ArgumentView>) -> bool {
    arguments.len() > 0 && argument_type(arguments.last()) == "..."@
}

/// What follows the declared arguments inside the parentheses.
pub open spec fn variadic_tail(item: FnItemView) -> Seq<char> {
    if item.variadic.len() == 0 || ends_variadic(item.arguments) {
        ""@
    } else if item.arguments.len() == 0 {
        item.variadic
    } else {
        " , "@ + item.variadic
    }
}

/// The signature of the function under the name `ident`, its arguments not
/// mutable.
pub open spec fn signature(item: FnItemView, ident: Seq<char>) -> Seq<char> {
    qualifiers(item) + " fn "@ + ident + " "@ + item.generics + " ( "@ + join(
        argument_declarations(item.arguments),
        " , "@,
    ) + variadic_tail(item) + " ) "@ + output_clause(item.output) + " "@ + item.where_clause
}

/// Whether a text is the dots of a variadic function.
fn is_dots(text: &String) -> (r: bool)
    ensures
        r == (text@ == "..."@),
{
    *text == "...".to_owned()
}

/// Whether a pattern is the dots of a variadic function.
fn pattern_is_dots(pattern: &Pattern) -> (r: bool)
    ensures
        r == (pattern@ == PatternView::Other("..."@)),
{
    match pattern {
        Pattern::Binding { by_ref: _, mutable: _, ident: _, subpattern: _ } => false,
        Pattern::Other(text) => is_dots(text),
    }
}

/// Whether the last of the arguments is itself variadic.
fn last_is_variadic(arguments: &Vec<Argument>) -> (r: bool)
    requires
        !has_receiver(views(arguments@)),
    ensures
        r == ends_variadic(views(arguments@)),
{
    if arguments.len() == 0 {
        return false;
    }
    match &arguments[arguments.len() - 1] {
        Argument::Receiver => {
            assert(views(arguments@)[arguments.len() - 1] is Receiver);
            false
        },
        Argument::Typed { attributes: _, pattern: _, ty } => is_dots(ty),
    }
}

/// The declarations of the arguments.
fn declare_arguments(arguments: &Vec<Argument>) -> (r: Vec<String>)
    requires
        !has_receiver(views(arguments@)),
    ensures
        views(r@) == argument_declarations(views(arguments@)),
{
    let mut r: Vec<String> = Vec::new();
    for i in 0..arguments.len()
        invariant
            r.len() == i,
            forall|j: int|
                0 <= j < i ==> #[trigger] r@[j]@ == argument_declaration(views(arguments@)[j]),
    {
        match &arguments[i] {
            Argument::Receiver => r.push("".to_owned()),
            Argument::Typed { attributes, pattern, ty } => {
                let tail = if is_dots(ty) && pattern_is_dots(pattern) {
                    "".to_owned()
                } else {
                    " : ".to_owned().concat(ty.as_str())
                };
                r.push(
                    join_texts(attributes, " ").concat(" ").concat(
                        write_pattern(&match_pattern_type(pattern)).as_str(),
                    ).concat(tail.as_str()),
                );
            },
        }
    }
    assert(views(r@) =~= argument_declarations(views(arguments@)));
    r
}

/// Writes the arrow and the return type.
pub fn output_clause_text(output: &Option<Output>) -> (r: String)
    ensures
        r@ == output_clause(opt(*output)),
{
    match output {
        None => "".to_owned(),
        Some(o) => "-> ".to_owned().concat(o.text.as_str()),
    }
}

/// Writes the signature of the function under the name `ident`, its arguments
/// not mutable.
pub fn get_mut_signature(item: &FnItem, ident: &str) -> (r: String)
    requires
        !has_receiver(item@.arguments),
    ensures
        r@ == signature(item@, ident@),
{
    let head = (if item.is_const {
        "const "
    } else {
        ""
    }).to_owned().concat(
        if item.is_async {
            "async "
        } else {
            ""
        },
    ).concat(
        if item.is_unsafe {
            "unsafe "
        } else {
            ""
        },
    ).concat(item.abi.as_str());
    let tail = if item.variadic.as_str().is_empty() || last_is_variadic(&item.arguments) {
        "".to_owned()
    } else if item.arguments.len() == 0 {
        item.variadic.clone()
    } else {
        " , ".to_owned().concat(item.variadic.as_str())
    };
    head.concat(" fn ").concat(ident).concat(" ").concat(item.generics.as_str()).concat(
        " ( ",
    ).concat(join_texts(&declare_arguments(&item.arguments), " , ").as_str()).concat(
        tail.as_str(),
    ).concat(" ) ").concat(output_clause_text(&item.output).as_str()).concat(" ").concat(
        item.where_clause.as_str(),
    )
}

// ---------------------------------------------------------------------------
// Attributes
// ---------------------------------------------------------------------------
/// One of the attributes is a doc comment.
pub open spec fn documented(attributes: Seq<AttributeView>) -> bool {
    exists|i: int| 0 <= i < attributes.len() && (#[trigger] attributes[i]).path == "doc"@
}

/// The doc attribute whose text is the string literal `lit`.
pub open spec fn doc_attribute(lit: Seq<char>) -> Seq<char> {
    "#[doc = "@ + lit + "]"@
}

/// The attributes of the cached function: its own, and then what says that it is
/// cached, under a heading of its own where the function has a doc comment.
pub open spec fn filled_attributes(
    attributes: Seq<AttributeView>,
    lit: Seq<char>,
) -> Seq<Seq<char>> {
    let own = Seq::new(attributes.len(), |i: int| attributes[i].text);
    if documented(attributes) {
        own.push("#[doc = \"\"]"@).push("#[doc = \"# Caching\"]"@).push(doc_attribute(lit))
    } else {
        own.push(doc_attribute(lit))
    }
}

/// Writes the doc attribute whose text is the string literal `lit`.
pub fn doc_attribute_text(lit: &str) -> (r: String)
    ensures
        r@ == doc_attribute(lit@),
{
    "#[doc = ".to_owned().concat(lit).concat("]")
}

/// The attributes of the cached function.
pub fn fill_in_attributes(attributes: &Vec<Attribute>, lit: &str) -> (r: Vec<String>)
    ensures
        views(r@) == filled_attributes(views(attributes@), lit@),
{
    let mut r: Vec<String> = Vec::new();
    let mut has_doc: bool = false;
    let ghost all = views(attributes@);
    for i in 0..attributes.len()
        invariant
            all == views(attributes@),
            r.len() == i,
            forall|j: int| 0 <= j < i ==> #[trigger] r@[j]@ == all[j].text,
            has_doc == (exists|j: int| 0 <= j < i && (#[trigger] all[j]).path == "doc"@),
    {
        if attributes[i].path == "doc".to_owned() {
            assert(all[i as int].path == "doc"@);
            has_doc = true;
        }
        r.push(attributes[i].text.clone());
        assert(all[i as int].text == r@[i as int]@);
    }
    let ghost own = Seq::new(all.len(), |i: int| all[i].text);
    assert(views(r@) == own);
    if has_doc {
        r.push("#[doc = \"\"]".to_owned());
        r.push("#[doc = \"# Caching\"]".to_owned());
    }
    r.push(doc_attribute_text(lit));
    assert(views(r@) =~= filled_attributes(all, lit@));
    r
}

// ---------------------------------------------------------------------------
// Names
// ---------------------------------------------------------------------------
/// The name as an identifier.
pub open spec fn checked_name(name: Seq<char>) -> Result<Seq<char>, RejectionView> {
    if is_ident(name) {
        Ok(name)
    } else {
        Err(because_of(Reason::Name, debug(name) + " is not a valid Ident"@))
    }
}

/// The name of the cache: the one that is given, or the function's in upper case.
pub open spec fn cache_name(name: Option<Seq<char>>, ident: Seq<char>) -> Result<
    Seq<char>,
    RejectionView,
> {
    match name {
        Some(name) => checked_name(name),
        None => checked_name(upper(ident)),
    }
}

/// The name of the function that primes the cache.
pub open spec fn prime_name(ident: Seq<char>) -> Result<Seq<char>, RejectionView> {
    checked_name(ident + "_prime_cache"@)
}

/// A letter or an underscore, and then letters, digits and underscores.
pub open spec fn is_ascii_ident(text: Seq<char>) -> bool {
    &&& text.len() > 0
    &&& text[0] == '_' || ascii_letter(text[0])
    &&& forall|i: int|
        1 <= i < text.len() ==> ascii_letter(#[trigger] text[i]) || '0' <= text[i] <= '9'
            || text[i] == '_'
}

/// Whether a text is an identifier.
pub fn is_valid_ident(text: &str) -> (r: bool)
    ensures
        r == is_ident(text@),
        is_ascii(text@) ==> r == is_ascii_ident(text@),
{
    let n: usize = text.unicode_len();
    if n == 0 {
        return false;
    }
    let first: char = text.get_char(0);
    if first != '_' && !is_xid_start(first) {
        return false;
    }
    for i in 1..n
        invariant
            n == text@.len(),
            forall|j: int| 1 <= j < i ==> xid_continue(#[trigger] text@[j]),
            is_ascii(text@) ==> forall|j: int|
                1 <= j < i ==> ascii_letter(#[trigger] text@[j]) || '0' <= text@[j] <= '9'
                    || text@[j] == '_',
    {
        if !is_xid_continue(text.get_char(i)) {
            return false;
        }
    }
    true
}

/// Makes an identifier. Of an ASCII text it is known without looking further
/// whether it is one.
pub fn make_ident(text: &str) -> (r: Result<String, Rejection>)
    ensures
        outcome(r) == checked_name(text@),
        is_ascii(text@) ==> r is Ok == is_ascii_ident(text@),
{
    if is_valid_ident(text) {
        Ok(ident_token(text))
    } else {
        Err(reject_with(Reason::Name, debug_text(text).concat(" is not a valid Ident")))
    }
}

/// The text with its ASCII letters in upper case.
pub open spec fn ascii_upper_text(text: Seq<char>) -> Seq<char> {
    Seq::new(text.len(), |i: int| ascii_upper(text[i]))
}

/// In upper case, an ASCII identifier is still one.
proof fn lemma_ascii_upper(text: Seq<char>)
    requires
        is_ascii(text),
        is_ascii_ident(text),
    ensures
        is_ascii(ascii_upper_text(text)),
        is_ascii_ident(ascii_upper_text(text)),
{
    let up = ascii_upper_text(text);
    assert forall|i: int| 0 <= i < up.len() implies #[trigger] up[i] <= '\x7f' by {
        assert(text[i] <= '\x7f');
    }
    assert forall|i: int| 1 <= i < up.len() implies ascii_letter(#[trigger] up[i]) || '0' <= up[i]
        <= '9' || up[i] == '_' by {
        assert(ascii_letter(text[i]) || '0' <= text[i] <= '9' || text[i] == '_');
    }
}

/// Makes the name of the cache. Of a function with an ASCII name it is known
/// without looking further.
pub fn make_cache_ident(name: &Option<String>, ident: &str) -> (r: Result<String, Rejection>)
    ensures
        outcome(r) == cache_name(opt(*name), ident@),
        name is None && is_ascii(ident@) && is_ascii_ident(ident@) ==> r is Ok && r->Ok_0@
            == ascii_upper_text(ident@),
{
    match name {
        Some(name) => make_ident(name.as_str()),
        None => {
            proof {
                if is_ascii(ident@) && is_ascii_ident(ident@) {
                    lemma_ascii_upper(ident@);
                }
            }
            make_ident(to_upper(ident).as_str())
        },
    }
}

/// Makes the name of the function that primes the cache.
pub fn make_prime_ident(ident: &str) -> (r: Result<String, Rejection>)
    ensures
        outcome(r) == prime_name(ident@),
{
    make_ident(ident.to_owned().concat("_prime_cache").as_str())
}

/// The doc comment of the cache.
pub open spec fn static_doc(ident: Seq<char>) -> Seq<char> {
    "Cached static for the [`"@ + ident + "`] function."@
}

/// The doc comment of the function that primes the cache.
pub open spec fn prime_doc(ident: Seq<char>) -> Seq<char> {
    "Primes the cached function [`"@ + ident + "`]."@
}

/// What the doc comment of the cached function says of the cache.
pub open spec fn cached_doc(cache: Seq<char>) -> Seq<char> {
    "This is a cached function that uses the [`"@ + cache + "`] cached static."@
}

// ---------------------------------------------------------------------------
// Return types
// ---------------------------------------------------------------------------
/// The identifiers among the tokens, in order.
pub open spec fn idents(tokens: Seq<TokenView>) -> Seq<Seq<char>>
    decreases tokens.len(),
{
    if tokens.len() == 0 {
        Seq::empty()
    } else {
        match tokens.last() {
            TokenView::Ident(name) => idents(tokens.drop_last()).push(name),
            _ => idents(tokens.drop_last()),
        }
    }
}

/// The return type of a function, `()` where it has none.
pub open spec fn output_type(output: Option<OutputView>) -> Seq<char> {
    match output {
        None => "()"@,
        Some(o) => o.text,
    }
}

/// The identifiers of the return type, as one path.
pub open spec fn output_path(output: Option<OutputView>) -> Seq<char> {
    match output {
        None => ""@,
        Some(o) => join(idents(o.tokens), "::"@),
    }
}

/// The return type as messages show it.
pub open spec fn output_display(output: Option<OutputView>) -> Seq<char> {
    spaceless(output_type(output))
}

/// The return type names `Return` somewhere outside brackets.
pub open spec fn names_return(output: Option<OutputView>) -> bool {
    contains(output_path(output), "Return"@)
}

/// The identifiers among the tokens.
pub fn get_output_parts(tokens: &Vec<Token>) -> (r: Vec<String>)
    ensures
        views(r@) == idents(views(tokens@)),
{
    let mut r: Vec<String> = Vec::new();
    let ghost all = views(tokens@);
    assert(views(r@) =~= Seq::<Seq<char>>::empty());
    for i in 0..tokens.len()
        invariant
            all == views(tokens@),
            views(r@) == idents(all.take(i as int)),
    {
        assert(all.take(i + 1).drop_last() == all.take(i as int));
        let ghost before = views(r@);
        match &tokens[i] {
            Token::Ident(name) => {
                r.push(name.clone());
                assert(views(r@) =~= before.push(name@));
            },
            _ => {},
        }
    }
    assert(all.take(tokens.len() as int) == all);
    r
}

/// Writes the return type.
pub fn output_type_text(output: &Option<Output>) -> (r: String)
    ensures
        r@ == output_type(opt(*output)),
{
    match output {
        None => "()".to_owned(),
        Some(o) => o.text.clone(),
    }
}

/// Writes the return type as messages show it.
pub fn output_display_text(output: &Option<Output>) -> (r: String)
    ensures
        r@ == output_display(opt(*output)),
{
    without_spaces(output_type_text(output).as_str())
}

/// Whether the return type names `Return` somewhere outside brackets. Whatever
/// names `cached::Return` does.
pub fn mentions_return(output: &Option<Output>) -> (r: bool)
    ensures
        r == names_return(opt(*output)),
{
    let path = match output {
        None => "".to_owned(),
        Some(o) => join_texts(&get_output_parts(&o.tokens), "::"),
    };
    text_contains(path.as_str(), "Return")
}

/// Whether the cached flag is asked for in vain.
pub fn check_with_cache_flag(with_cached_flag: bool, output: &Option<Output>) -> (r: bool)
    ensures
        r == (with_cached_flag && !names_return(opt(*output))),
{
    with_cached_flag && !mentions_return(output)
}

/// The message where the cached flag is asked for in vain.
pub open spec fn flag_message(display: Seq<char>) -> Seq<char> {
    "\nWhen specifying `with_cached_flag = true`, the return type must be wrapped in `cached::Return<T>`. \nThe following return types are supported: \n|    `cached::Return<T>`\n|    `std::result::Result<cached::Return<T>, E>`\n|    `std::option::Option<cached::Return<T>>`\nFound type: "@
        + display + "."@
}

/// The rejection where the cached flag is asked for in vain.
pub open spec fn flag_rejection(output: Option<OutputView>) -> RejectionView {
    because_of(Reason::CachedFlag, error_tokens(flag_message(output_display(output))))
}

/// Refuses the cached flag.
pub fn with_cache_flag_error(output: &Option<Output>) -> (r: Rejection)
    ensures
        r@ == flag_rejection(opt(*output)),
{
    let message =
        "\nWhen specifying `with_cached_flag = true`, the return type must be wrapped in `cached::Return<T>`. \nThe following return types are supported: \n|    `cached::Return<T>`\n|    `std::result::Result<cached::Return<T>, E>`\n|    `std::option::Option<cached::Return<T>>`\nFound type: ".to_owned().concat(
        output_display_text(output).as_str()).concat(".");
    reject_with(Reason::CachedFlag, report_error(message.as_str()))
}

/// The inner type of a path: what stands first in the angle brackets of its last
/// segment.
pub open spec fn inner_type(path: Seq<SegmentView>) -> Option<Seq<char>> {
    if path.len() == 0 {
        None
    } else {
        match path.last().arguments {
            SegmentArgumentsView::Angle(inner) => if inner.len() > 0 {
                Some(inner[0])
            } else {
                None
            },
            SegmentArgumentsView::Absent => None,
            SegmentArgumentsView::Parenthesized(_) => None,
        }
    }
}

/// Finds the inner type of a path.
pub fn find_inner_type(path: &Vec<Segment>) -> (r: Option<String>)
    ensures
        opt(r) == inner_type(views(path@)),
{
    if path.len() == 0 {
        return None;
    }
    match &path[path.len() - 1].arguments {
        SegmentArguments::Angle(inner) => if inner.len() > 0 {
            Some(inner[0].clone())
        } else {
            None
        },
        SegmentArguments::Absent => None,
        SegmentArguments::Parenthesized(_) => None,
    }
}

/// The type of the cached values: the return type, or under `result` and
/// `option` its inner type.
pub open spec fn value_type(result: bool, option: bool, output: Option<OutputView>) -> Result<
    Seq<char>,
    RejectionView,
> {
    if !result && !option {
        Ok(output_type(output))
    } else if result && option {
        Err(because(Reason::ResultAndOption))
    } else {
        match output {
            None => Err(because(Reason::NoReturnType)),
            Some(o) => match o.path {
                None => Err(because(Reason::ReturnTypeTooComplex)),
                Some(path) => match inner_type(path) {
                    None => Err(because(Reason::NoInnerType)),
                    Some(inner) => Ok(inner),
                },
            },
        }
    }
}

/// Finds the type of the cached values.
pub fn find_value_type(result: bool, option: bool, output: &Option<Output>) -> (r: Result<
    String,
    Rejection,
>)
    ensures
        outcome(r) == value_type(result, option, opt(*output)),
{
    if !result && !option {
        return Ok(output_type_text(output));
    }
    if result && option {
        return Err(reject(Reason::ResultAndOption));
    }
    match output {
        None => Err(reject(Reason::NoReturnType)),
        Some(o) => match &o.path {
            None => Err(reject(Reason::ReturnTypeTooComplex)),
            Some(path) => match find_inner_type(path) {
                None => Err(reject(Reason::NoInnerType)),
                Some(inner) => Ok(inner),
            },
        },
    }
}

// ---------------------------------------------------------------------------
// Keys
// ---------------------------------------------------------------------------
/// Where the key of a call comes from.
#[derive(Debug, Clone, Copy, PartialEq, Eq, Structural)]
pub enum KeySource {
    /// `key` gives its type and `convert` makes it.
    KeyAndConvert,
    /// `convert` makes it, and the store's type fixes its type.
    Convert,
    /// It is the tuple of the arguments.
    Arguments,
}

/// Where the key comes from, by which of the three options are set.
pub open spec fn key_source(key: bool, convert: bool, cache_type: bool) -> Result<
    KeySource,
    RejectionView,
> {
    if key && convert {
        Ok(KeySource::KeyAndConvert)
    } else if key {
        Err(because(Reason::KeyWithoutConvert))
    } else if !convert {
        Ok(KeySource::Arguments)
    } else if cache_type {
        Ok(KeySource::Convert)
    } else {
        Err(because(Reason::ConvertWithoutKey))
    }
}

/// Decides where the key comes from.
pub fn choose_key(key: bool, convert: bool, cache_type: bool) -> (r: Result<KeySource, Rejection>)
    ensures
        match r {
            Ok(source) => key_source(key, convert, cache_type) == Ok::<KeySource, RejectionView>(
                source,
            ),
            Err(e) => key_source(key, convert, cache_type) == Err::<KeySource, RejectionView>(e@),
        },
{
    if key && convert {
        Ok(KeySource::KeyAndConvert)
    } else if key {
        Err(reject(Reason::KeyWithoutConvert))
    } else if !convert {
        Ok(KeySource::Arguments)
    } else if cache_type {
        Ok(KeySource::Convert)
    } else {
        Err(reject(Reason::ConvertWithoutKey))
    }
}

/// The type of a key, and the expression that makes one.
#[derive(Debug, Clone, PartialEq, Eq)]
pub struct Key {
    /// Empty where the store's type fixes it.
    pub ty: String,
    pub convert: String,
}

/// The view of a [`Key`].
pub struct KeyView {
    pub ty: Seq<char>,
    pub convert: Seq<char>,
}

impl View for Key {
    type V = KeyView;

    open spec fn view(&self) -> KeyView {
        KeyView { ty: self.ty@, convert: self.convert@ }
    }
}

/// The block of `convert`.
pub open spec fn convert_block(convert: Seq<char>) -> Result<Seq<char>, RejectionView> {
    match block_of(convert) {
        Err(e) => Err(because_of(Reason::ConvertSyntax, e)),
        Ok(block) => Ok(block),
    }
}

/// The key that is made of the arguments: a tuple of copies of them.
pub open spec fn argument_key(arguments: Seq<ArgumentView>) -> KeyView {
    KeyView {
        ty: "( "@ + join(argument_types(arguments), " , "@) + " )"@,
        convert: "( "@ + join(cloned(argument_names(arguments)), " , "@) + " )"@,
    }
}

/// A clone of each name.
pub open spec fn cloned(names: Seq<Seq<char>>) -> Seq<Seq<char>> {
    Seq::new(names.len(), |i: int| names[i] + ".clone()"@)
}

/// The key of a call.
pub open spec fn key_of(
    key: Option<Seq<char>>,
    convert: Option<Seq<char>>,
    cache_type: bool,
    arguments: Seq<ArgumentView>,
) -> Result<KeyView, RejectionView> {
    match key_source(key is Some, convert is Some, cache_type) {
        Err(e) => Err(e),
        Ok(KeySource::Arguments) => Ok(argument_key(arguments)),
        Ok(KeySource::Convert) => match convert_block(convert->0) {
            Err(e) => Err(e),
            Ok(block) => Ok(KeyView { ty: ""@, convert: block }),
        },
        Ok(KeySource::KeyAndConvert) => match type_of(key->0) {
            Err(e) => Err(because_of(Reason::KeySyntax, e)),
            Ok(ty) => match convert_block(convert->0) {
                Err(e) => Err(e),
                Ok(block) => Ok(KeyView { ty: ty.text, convert: block }),
            },
        },
    }
}

/// Reads the block of `convert`.
fn parse_convert(convert: &str) -> (r: Result<String, Rejection>)
    ensures
        outcome(r) == convert_block(convert@),
{
    match parse_block(convert) {
        Err(e) => Err(reject_with(Reason::ConvertSyntax, e)),
        Ok(block) => Ok(block),
    }
}

/// Makes the key of the arguments.
pub fn key_from_arguments(arguments: &Vec<Argument>) -> (r: Key)
    requires
        !has_receiver(views(arguments@)),
    ensures
        r@ == argument_key(views(arguments@)),
{
    let types = get_input_types(arguments);
    let names = get_input_names(arguments);
    let mut copies: Vec<String> = Vec::new();
    for i in 0..names.len()
        invariant
            copies.len() == i,
            forall|j: int| 0 <= j < i ==> #[trigger] copies@[j]@ == names@[j]@ + ".clone()"@,
    {
        copies.push(names[i].clone().concat(".clone()"));
    }
    assert(views(copies@) =~= cloned(views(names@)));
    Key {
        ty: "( ".to_owned().concat(join_texts(&types, " , ").as_str()).concat(" )"),
        convert: "( ".to_owned().concat(join_texts(&copies, " , ").as_str()).concat(" )"),
    }
}

/// Makes the key of a call.
pub fn make_cache_key_type(
    key: &Option<String>,
    convert: &Option<String>,
    cache_type: &Option<String>,
    arguments: &Vec<Argument>,
) -> (r: Result<Key, Rejection>)
    requires
        !has_receiver(views(arguments@)),
    ensures
        outcome(r) == key_of(opt(*key), opt(*convert), *cache_type is Some, views(arguments@)),
{
    match choose_key(key.is_some(), convert.is_some(), cache_type.is_some()) {
        Err(e) => Err(e),
        Ok(KeySource::Arguments) => Ok(key_from_arguments(arguments)),
        Ok(KeySource::Convert) => match parse_convert(convert.as_ref().unwrap().as_str()) {
            Err(e) => Err(e),
            Ok(block) => Ok(Key { ty: "".to_owned(), convert: block }),
        },
        Ok(KeySource::KeyAndConvert) => match parse_type(key.as_ref().unwrap().as_str()) {
            Err(e) => Err(reject_with(Reason::KeySyntax, e)),
            Ok(ty) => match parse_convert(convert.as_ref().unwrap().as_str()) {
                Err(e) => Err(e),
                Ok(block) => Ok(Key { ty: ty.text, convert: block }),
            },
        },
    }
}

} // verus!
