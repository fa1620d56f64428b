//! The calls into the parsing and printing crates. Nothing here is proved: each
//! function states what it claims of the call it makes.
//!
//! Token streams are lexed and printed by the code that `proc_macro2` brings
//! along (`proc_macro2::fallback`), in every process, also where a compiler's
//! own lexer and printer are at hand. A printed token stream holds no
//! positions.

use crate::syntax::{
    parsed, Argument, ArgumentView, Attribute, ItemText, ItemTextView, Pattern, Segment,
    SegmentArguments, SignatureText, SignatureTextView, Token, TokenView, TypeText, TypeTextView,
};
use crate::text::views;
use proc_macro2::fallback::force;
use proc_macro2::{Literal, Span, TokenStream, TokenTree};
use quote::ToTokens;
use syn::{
    parse_str, Block, ExprClosure, FnArg, ItemFn, Pat, PathArguments, ReturnType, Signature, Type,
};
use vstd::prelude::*;

verus! {

/// What parsing a text as a function item gives: its pieces, or the tokens that
/// report the error.
pub uninterp spec fn item_of(text: Seq<char>) -> Result<ItemTextView, Seq<char>>;

/// Calls `syn::parse_str::<syn::ItemFn>`. The contract names the result: the
/// pieces of the item, printed, or the error, printed as tokens that report it,
/// are a function of the text.
#[verifier::external_body]
pub(crate) fn parse_item(text: &str) -> (r: Result<ItemText, String>)
    ensures
        parsed(r) == item_of(text@),
{
    force();
    let print = |t: &dyn ToTokens| t.to_token_stream().to_string();
    match parse_str::<ItemFn>(text) {
        Ok(f) => Ok(ItemText {
            attributes: f.attrs.iter()
                .map(|a| Attribute { path: print(&a.path), text: print(a) }).collect(),
            visibility: print(&f.vis),
            signature: print(&f.sig),
            body: print(&f.block),
        }),
        Err(e) => Err(print(&e.to_compile_error())),
    }
}

/// What parsing a text as a signature gives: its pieces, or the message of the
/// error.
pub uninterp spec fn signature_of(text: Seq<char>) -> Result<SignatureTextView, Seq<char>>;

/// Calls `syn::parse_str::<syn::Signature>`. The contract names the result: the
/// pieces of the signature, printed, or the message of the error, are a function
/// of the text.
#[verifier::external_body]
pub(crate) fn parse_signature(text: &str) -> (r: Result<SignatureText, String>)
    ensures
        parsed(r) == signature_of(text@),
{
    force();
    let print = |t: &dyn ToTokens| t.to_token_stream().to_string();
    parse_str::<Signature>(text).map(|s| SignatureText {
        is_const: s.constness.is_some(), is_async: s.asyncness.is_some(),
        is_unsafe: s.unsafety.is_some(), abi: print(&s.abi), ident: print(&s.ident),
        generics: print(&s.generics), where_clause: print(&s.generics.where_clause),
        arguments: s.inputs.iter().map(|a| print(a)).collect(),
        argument_list: print(&s.inputs), variadic: print(&s.variadic),
        output: match s.output { ReturnType::Type(_, t) => Some(print(&t)), _ => None }
    }).map_err(|e| e.to_string())
}

/// What parsing a text as an argument of a function gives: its pieces, or the
/// message of the error.
pub uninterp spec fn argument_of(text: Seq<char>) -> Result<ArgumentView, Seq<char>>;

/// Calls `syn::parse_str::<syn::FnArg>`. The contract names the result, as
/// [`parse_signature`] does.
#[verifier::external_body]
pub(crate) fn parse_argument(text: &str) -> (r: Result<Argument, String>)
    ensures
        parsed(r) == argument_of(text@),
{
    force();
    let print = |t: &dyn ToTokens| t.to_token_stream().to_string();
    parse_str::<FnArg>(text).map(|a| match a {
        FnArg::Receiver(_) => Argument::Receiver,
        FnArg::Typed(a) => Argument::Typed {
            attributes: a.attrs.iter().map(|x| print(x)).collect(), ty: print(&a.ty),
            pattern: match *a.pat {
                Pat::Ident(p) => Pattern::Binding { by_ref: p.by_ref.is_some(),
                    mutable: p.mutability.is_some(), ident: print(&p.ident),
                    subpattern: p.subpat.map(|s| print(&s.1)) },
                p => Pattern::Other(print(&p)),
            } } }).map_err(|e| e.to_string())
}

/// What parsing a text as a type gives: the type, or the debug notation of the
/// error.
pub uninterp spec fn type_of(text: Seq<char>) -> Result<TypeTextView, Seq<char>>;

/// Calls `syn::parse_str::<syn::Type>`. The contract names the result: the
/// tokens of the type and its segments where it is a path, or the debug notation
/// of the error, are a function of the text.
#[verifier::external_body]
pub(crate) fn parse_type(text: &str) -> (r: Result<TypeText, String>)
    ensures
        parsed(r) == type_of(text@),
{
    force();
    let print = |t: &dyn ToTokens| t.to_token_stream().to_string();
    parse_str::<Type>(text).map(|t| TypeText { text: print(&t), path: match t {
        Type::Path(p) => Some(p.path.segments.iter().map(|s| Segment {
            ident: print(&s.ident), arguments: match &s.arguments {
                PathArguments::None => SegmentArguments::Absent,
                PathArguments::AngleBracketed(b) => SegmentArguments::Angle(
                    b.args.iter().map(|a| print(a)).collect()),
                PathArguments::Parenthesized(b) => SegmentArguments::Parenthesized(print(b)),
            } }).collect()),
        _ => None,
    } }).map_err(|e| format!("{:?}", e))
}

/// The tokens that a text is made of, or the debug notation of the error.
pub uninterp spec fn tokens_of(text: Seq<char>) -> Result<Seq<TokenView>, Seq<char>>;

/// Calls `<proc_macro2::TokenStream as FromStr>::from_str` and lists the stream.
/// The contract names the result: the tokens, or the debug notation of the
/// error, are a function of the text.
#[verifier::external_body]
pub(crate) fn lex(text: &str) -> (r: Result<Vec<Token>, String>)
    ensures
        match r {
            Ok(tokens) => tokens_of(text@) == Ok::<Seq<TokenView>, Seq<char>>(views(tokens@)),
            Err(e) => tokens_of(text@) == Err::<Seq<TokenView>, Seq<char>>(e@),
        },
{
    force();
    match text.parse::<TokenStream>() {
        Ok(stream) => Ok(stream.into_iter().map(|t| match t {
            TokenTree::Ident(i) => Token::Ident(i.to_string()),
            TokenTree::Group(_) => Token::Group,
            TokenTree::Punct(_) => Token::Punct,
            TokenTree::Literal(_) => Token::Literal,
        }).collect()),
        Err(e) => Err(format!("{:?}", e)),
    }
}

/// What parsing a text as a block gives: its tokens, or the debug notation of
/// the error.
pub uninterp spec fn block_of(text: Seq<char>) -> Result<Seq<char>, Seq<char>>;

/// Calls `syn::parse_str::<syn::Block>`. The contract names the result, as
/// [`parse_type`] does.
#[verifier::external_body]
pub(crate) fn parse_block(text: &str) -> (r: Result<String, String>)
    ensures
        parsed(r) == block_of(text@),
{
    force();
    match parse_str::<Block>(text) {
        Ok(block) => Ok(block.to_token_stream().to_string()),
        Err(e) => Err(format!("{:?}", e)),
    }
}

/// What parsing a text as a closure gives: its tokens, or the debug notation of
/// the error.
pub uninterp spec fn closure_of(text: Seq<char>) -> Result<Seq<char>, Seq<char>>;

/// Calls `syn::parse_str::<syn::ExprClosure>`. The contract names the result, as
/// [`parse_type`] does.
#[verifier::external_body]
pub(crate) fn parse_closure(text: &str) -> (r: Result<String, String>)
    ensures
        parsed(r) == closure_of(text@),
{
    force();
    match parse_str::<ExprClosure>(text) {
        Ok(closure) => Ok(closure.to_token_stream().to_string()),
        Err(e) => Err(format!("{:?}", e)),
    }
}

/// The character has the Unicode property `XID_Start`.
pub uninterp spec fn xid_start(c: char) -> bool;

/// A letter of the ASCII alphabet.
pub open spec fn ascii_letter(c: char) -> bool {
    'a' <= c <= 'z' || 'A' <= c <= 'Z'
}

/// Calls `unicode_ident::is_xid_start`. The contract names the result, and says
/// that it holds of the letters among the ASCII characters and of no other one
/// of them.
#[verifier::external_body]
pub(crate) fn is_xid_start(c: char) -> (r: bool)
    ensures
        r == xid_start(c),
        c <= '\x7f' ==> r == ascii_letter(c),
{
    unicode_ident::is_xid_start(c)
}

/// The character has the Unicode property `XID_Continue`.
pub uninterp spec fn xid_continue(c: char) -> bool;

/// Calls `unicode_ident::is_xid_continue`. The contract names the result, and
/// says that it holds of the letters, the digits and the underscore among the
/// ASCII characters and of no other one of them.
#[verifier::external_body]
pub(crate) fn is_xid_continue(c: char) -> (r: bool)
    ensures
        r == xid_continue(c),
        c <= '\x7f' ==> r == (ascii_letter(c) || '0' <= c <= '9' || c == '_'),
{
    unicode_ident::is_xid_continue(c)
}

/// The text is an identifier: it starts as one, and goes on as one.
pub open spec fn is_ident(text: Seq<char>) -> bool {
    &&& text.len() > 0
    &&& text[0] == '_' || xid_start(text[0])
    &&& forall|i: int| 1 <= i < text.len() ==> xid_continue(#[trigger] text[i])
}

/// Calls `proc_macro2::Ident::new`, which panics on a text that is no
/// identifier. The contract says that the token's text is the text it is made
/// from.
#[verifier::external_body]
pub(crate) fn ident_token(text: &str) -> (r: String)
    requires
        is_ident(text@),
    ensures
        r@ == text@,
{
    force();
    proc_macro2::Ident::new(text, Span::call_site()).to_string()
}

/// The text in upper case.
pub uninterp spec fn upper(text: Seq<char>) -> Seq<char>;

/// All characters are ASCII characters.
pub open spec fn is_ascii(text: Seq<char>) -> bool {
    forall|i: int| 0 <= i < text.len() ==> #[trigger] text[i] <= '\x7f'
}

/// An ASCII character in upper case.
pub open spec fn ascii_upper(c: char) -> char {
    if 'a' <= c <= 'z' {
        ((c as u32) - 32) as char
    } else {
        c
    }
}

/// Calls `str::to_uppercase`. The contract names the result, and says that of an
/// ASCII text it has each letter in upper case and all else as it was.
#[verifier::external_body]
pub(crate) fn to_upper(text: &str) -> (r: String)
    ensures
        r@ == upper(text@),
        is_ascii(text@) ==> r@ == Seq::new(text@.len(), |i: int| ascii_upper(text@[i])),
{
    text.to_uppercase()
}

/// The string literal that stands for a text.
pub uninterp spec fn literal(text: Seq<char>) -> Seq<char>;

/// Calls `proc_macro2::Literal::string`. The contract names the result.
#[verifier::external_body]
pub(crate) fn string_literal(text: &str) -> (r: String)
    ensures
        r@ == literal(text@),
{
    force();
    Literal::string(text).to_string()
}

/// The tokens that report an error when they are compiled.
pub open spec fn error_tokens(message: Seq<char>) -> Seq<char> {
    "compile_error ! { "@ + literal(message) + " }"@
}

/// Calls `syn::Error::new` and `syn::Error::to_compile_error`. The contract says
/// that the tokens invoke `compile_error` on the message as a string literal.
#[verifier::external_body]
pub(crate) fn report_error(message: &str) -> (r: String)
    ensures
        r@ == error_tokens(message@),
{
    force();
    syn::Error::new(Span::call_site(), message).to_compile_error().to_string()
}

/// The debug notation of a text.
pub uninterp spec fn debug(text: Seq<char>) -> Seq<char>;

/// Calls `<str as std::fmt::Debug>::fmt`. The contract names the result.
#[verifier::external_body]
pub(crate) fn debug_text(text: &str) -> (r: String)
    ensures
        r@ == debug(text@),
{
    format!("{:?}", text)
}

} // verus!
