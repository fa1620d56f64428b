//! Plain parts of Rust source: what the expansions read of a function, its
//! arguments and its types.

use crate::text::{opt, views};
use vstd::prelude::*;

verus! {

/// The view of the outcome of parsing.
pub open spec fn parsed<T: View>(r: Result<T, String>) -> Result<T::V, Seq<char>> {
    match r {
        Ok(x) => Ok(x@),
        Err(e) => Err(e@),
    }
}

/// An attribute: the path that names it, and all its tokens.
#[derive(Debug, Clone, PartialEq, Eq)]
pub struct Attribute {
    pub path: String,
    pub text: String,
}

/// The view of an [`Attribute`].
pub struct AttributeView {
    pub path: Seq<char>,
    pub text: Seq<char>,
}

impl View for Attribute {
    type V = AttributeView;

    open spec fn view(&self) -> AttributeView {
        AttributeView { path: self.path@, text: self.text@ }
    }
}

/// A function item, cut into its four pieces.
#[derive(Debug, Clone, PartialEq, Eq)]
pub struct ItemText {
    pub attributes: Vec<Attribute>,
    pub visibility: String,
    pub signature: String,
    pub body: String,
}

/// The view of an [`ItemText`].
pub struct ItemTextView {
    pub attributes: Seq<AttributeView>,
    pub visibility: Seq<char>,
    pub signature: Seq<char>,
    pub body: Seq<char>,
}

impl View for ItemText {
    type V = ItemTextView;

    open spec fn view(&self) -> ItemTextView {
        ItemTextView {
            attributes: views(self.attributes@),
            visibility: self.visibility@,
            signature: self.signature@,
            body: self.body@,
        }
    }
}

/// The signature of a function, cut into its pieces.
#[derive(Debug, Clone, PartialEq, Eq)]
pub struct SignatureText {
    pub is_const: bool,
    pub is_async: bool,
    pub is_unsafe: bool,
    /// The `extern` clause; empty where there is none.
    pub abi: String,
    pub ident: String,
    /// The parameters in angle brackets; empty where there are none.
    pub generics: String,
    /// Each argument by itself.
    pub arguments: Vec<String>,
    /// The argument list as it was written, without its parentheses.
    pub argument_list: String,
    /// The variadic argument; empty where there is none.
    pub variadic: String,
    /// The type after the arrow, if there is an arrow.
    pub output: Option<String>,
    /// The `where` clause; empty where there is none.
    pub where_clause: String,
}

/// The view of a [`SignatureText`].
pub struct SignatureTextView {
    pub is_const: bool,
    pub is_async: bool,
    pub is_unsafe: bool,
    pub abi: Seq<char>,
    pub ident: Seq<char>,
    pub generics: Seq<char>,
    pub arguments: Seq<Seq<char>>,
    pub argument_list: Seq<char>,
    pub variadic: Seq<char>,
    pub output: Option<Seq<char>>,
    pub where_clause: Seq<char>,
}

impl View for SignatureText {
    type V = SignatureTextView;

    open spec fn view(&self) -> SignatureTextView {
        SignatureTextView {
            is_const: self.is_const,
            is_async: self.is_async,
            is_unsafe: self.is_unsafe,
            abi: self.abi@,
            ident: self.ident@,
            generics: self.generics@,
            arguments: views(self.arguments@),
            argument_list: self.argument_list@,
            variadic: self.variadic@,
            output: opt(self.output),
            where_clause: self.where_clause@,
        }
    }
}

/// The pattern of an argument.
#[derive(Debug, Clone, PartialEq, Eq)]
pub enum Pattern {
    /// A name, such as `a`, `mut a`, `ref a` or `a @ 1..=9`.
    Binding { by_ref: bool, mutable: bool, ident: String, subpattern: Option<String> },
    /// Any other pattern.
    Other(String),
}

/// The view of a [`Pattern`].
pub enum PatternView {
    Binding { by_ref: bool, mutable: bool, ident: Seq<char>, subpattern: Option<Seq<char>> },
    Other(Seq<char>),
}

impl View for Pattern {
    type V = PatternView;

    open spec fn view(&self) -> PatternView {
        match self {
            Pattern::Binding { by_ref, mutable, ident, subpattern } => PatternView::Binding {
                by_ref: *by_ref,
                mutable: *mutable,
                ident: ident@,
                subpattern: opt(*subpattern),
            },
            Pattern::Other(text) => PatternView::Other(text@),
        }
    }
}

/// An argument of a function.
#[derive(Debug, Clone, PartialEq, Eq)]
pub enum Argument {
    /// The `self` of a method.
    Receiver,
    /// An argument with a pattern and a type.
    Typed { attributes: Vec<String>, pattern: Pattern, ty: String },
}

/// The view of an [`Argument`].
pub enum ArgumentView {
    Receiver,
    Typed { attributes: Seq<Seq<char>>, pattern: PatternView, ty: Seq<char> },
}

impl View for Argument {
    type V = ArgumentView;

    open spec fn view(&self) -> ArgumentView {
        match self {
            Argument::Receiver => ArgumentView::Receiver,
            Argument::Typed { attributes, pattern, ty } => ArgumentView::Typed {
                attributes: views(attributes@),
                pattern: pattern@,
                ty: ty@,
            },
        }
    }
}

/// A token as the token stream lists it: a group stands for all it encloses.
#[derive(Debug, Clone, PartialEq, Eq)]
pub enum Token {
    Ident(String),
    Group,
    Punct,
    Literal,
}

/// The view of a [`Token`].
pub enum TokenView {
    Ident(Seq<char>),
    Group,
    Punct,
    Literal,
}

impl View for Token {
    type V = TokenView;

    open spec fn view(&self) -> TokenView {
        match self {
            Token::Ident(name) => TokenView::Ident(name@),
            Token::Group => TokenView::Group,
            Token::Punct => TokenView::Punct,
            Token::Literal => TokenView::Literal,
        }
    }
}

/// What follows the name of a segment of a path.
#[derive(Debug, Clone, PartialEq, Eq)]
pub enum SegmentArguments {
    /// Nothing.
    Absent,
    /// Arguments in angle brackets, such as `<A, B>`.
    Angle(Vec<String>),
    /// Arguments in parentheses, such as `(A, B) -> C`.
    Parenthesized(String),
}

/// The view of [`SegmentArguments`].
pub enum SegmentArgumentsView {
    Absent,
    Angle(Seq<Seq<char>>),
    Parenthesized(Seq<char>),
}

impl View for SegmentArguments {
    type V = SegmentArgumentsView;

    open spec fn view(&self) -> SegmentArgumentsView {
        match self {
            SegmentArguments::Absent => SegmentArgumentsView::Absent,
            SegmentArguments::Angle(inner) => SegmentArgumentsView::Angle(views(inner@)),
            SegmentArguments::Parenthesized(text) => SegmentArgumentsView::Parenthesized(text@),
        }
    }
}

/// A segment of a path.
#[derive(Debug, Clone, PartialEq, Eq)]
pub struct Segment {
    pub ident: String,
    pub arguments: SegmentArguments,
}

/// The view of a [`Segment`].
pub struct SegmentView {
    pub ident: Seq<char>,
    pub arguments: SegmentArgumentsView,
}

impl View for Segment {
    type V = SegmentView;

    open spec fn view(&self) -> SegmentView {
        SegmentView { ident: self.ident@, arguments: self.arguments@ }
    }
}

/// The view of the segments of a type, where it is a path.
pub open spec fn segments(path: Option<Vec<Segment>>) -> Option<Seq<SegmentView>> {
    match path {
        Some(path) => Some(views(path@)),
        None => None,
    }
}

/// A type: its tokens as text, and its segments where it is a path.
#[derive(Debug, Clone, PartialEq, Eq)]
pub struct TypeText {
    pub text: String,
    pub path: Option<Vec<Segment>>,
}

/// The view of a [`TypeText`].
pub struct TypeTextView {
    pub text: Seq<char>,
    pub path: Option<Seq<SegmentView>>,
}

impl View for TypeText {
    type V = TypeTextView;

    open spec fn view(&self) -> TypeTextView {
        TypeTextView { text: self.text@, path: segments(self.path) }
    }
}

} // verus!
