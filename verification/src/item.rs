//! A function under an attribute, cut into the parts that an expansion is made of.

use crate::outside::{
    argument_of, error_tokens, item_of, lex, parse_argument, parse_item, parse_signature,
    parse_type, report_error, signature_of, tokens_of, type_of,
};
use crate::rejection::{because_of, outcome, reject_with, Reason, Rejection, RejectionView};
use crate::syntax::{
    segments, Argument, ArgumentView, Attribute, AttributeView, Pattern, PatternView, Segment,
    SegmentView, Token, TokenView,
};
use crate::text::{ends_with, opt, strip_end, views};
use vstd::prelude::*;
use vstd::string::*;

verus! {

/// The return type of a function.
#[derive(Debug, Clone, PartialEq, Eq)]
pub struct Output {
    pub text: String,
    pub tokens: Vec<Token>,
    /// The segments, where the type is a path.
    pub path: Option<Vec<Segment>>,
}

/// The view of an [`Output`].
pub struct OutputView {
    pub text: Seq<char>,
    pub tokens: Seq<TokenView>,
    pub path: Option<Seq<SegmentView>>,
}

impl View for Output {
    type V = OutputView;

    open spec fn view(&self) -> OutputView {
        OutputView { text: self.text@, tokens: views(self.tokens@), path: segments(self.path) }
    }
}

/// A function item.
#[derive(Debug, Clone, PartialEq, Eq)]
pub struct FnItem {
    pub attributes: Vec<Attribute>,
    pub visibility: String,
    pub is_const: bool,
    pub is_async: bool,
    pub is_unsafe: bool,
    /// The `extern` clause; empty where there is none.
    pub abi: String,
    pub ident: String,
    /// The parameters in angle brackets; empty where there are none.
    pub generics: String,
    pub arguments: Vec<Argument>,
    /// The argument list as it was written, without its parentheses.
    pub argument_list: String,
    /// The variadic argument; empty where there is none.
    pub variadic: String,
    /// The type after the arrow, if there is an arrow.
    pub output: Option<Output>,
    /// The `where` clause; empty where there is none.
    pub where_clause: String,
    pub body: String,
}

/// The view of a [`FnItem`].
pub struct FnItemView {
    pub attributes: Seq<AttributeView>,
    pub visibility: Seq<char>,
    pub is_const: bool,
    pub is_async: bool,
    pub is_unsafe: bool,
    pub abi: Seq<char>,
    pub ident: Seq<char>,
    pub generics: Seq<char>,
    pub arguments: Seq<ArgumentView>,
    pub argument_list: Seq<char>,
    pub variadic: Seq<char>,
    pub output: Option<OutputView>,
    pub where_clause: Seq<char>,
    pub body: Seq<char>,
}

impl View for FnItem {
    type V = FnItemView;

    open spec fn view(&self) -> FnItemView {
        FnItemView {
            attributes: views(self.attributes@),
            visibility: self.visibility@,
            is_const: self.is_const,
            is_async: self.is_async,
            is_unsafe: self.is_unsafe,
            abi: self.abi@,
            ident: self.ident@,
            generics: self.generics@,
            arguments: views(self.arguments@),
            argument_list: self.argument_list@,
            variadic: self.variadic@,
            output: opt(self.output),
            where_clause: self.where_clause@,
            body: self.body@,
        }
    }
}

/// The rejection of an item that does not parse, by the message of the error.
pub open spec fn syntax_error(message: Seq<char>) -> RejectionView {
    because_of(Reason::Syntax, error_tokens(message))
}

/// The argument that a text stands for. The dots of a variadic function that
/// stand as an argument of their own are printed as their own type.
pub open spec fn read_argument(text: Seq<char>) -> Result<ArgumentView, RejectionView> {
    if ends_with(text, "... : ..."@) {
        Ok(
            ArgumentView::Typed {
                attributes: seq![text.take(text.len() - "... : ..."@.len())],
                pattern: PatternView::Other("..."@),
                ty: "..."@,
            },
        )
    } else {
        match argument_of(text) {
            Err(message) => Err(syntax_error(message)),
            Ok(argument) => Ok(argument),
        }
    }
}

/// The arguments that texts stand for, or the rejection of the first text that
/// stands for none.
pub open spec fn read_arguments(texts: Seq<Seq<char>>) -> Result<Seq<ArgumentView>, RejectionView>
    decreases texts.len(),
{
    if texts.len() == 0 {
        Ok(Seq::empty())
    } else {
        match read_arguments(texts.drop_last()) {
            Err(e) => Err(e),
            Ok(before) => match read_argument(texts.last()) {
                Err(e) => Err(e),
                Ok(a) => Ok(before.push(a)),
            },
        }
    }
}

/// The return type that a text stands for.
pub open spec fn read_output(text: Seq<char>) -> Result<OutputView, RejectionView> {
    match type_of(text) {
        Err(e) => Err(because_of(Reason::ReturnTypeSyntax, e)),
        Ok(ty) => match tokens_of(ty.text) {
            Err(e) => Err(because_of(Reason::ReturnTypeSyntax, e)),
            Ok(tokens) => Ok(OutputView { text: ty.text, tokens, path: ty.path }),
        },
    }
}

/// The return type, if one is written.
pub open spec fn read_optional_output(text: Option<Seq<char>>) -> Result<
    Option<OutputView>,
    RejectionView,
> {
    match text {
        None => Ok(None),
        Some(t) => match read_output(t) {
            Err(e) => Err(e),
            Ok(output) => Ok(Some(output)),
        },
    }
}

/// The function item that a text stands for.
pub open spec fn read_item(text: Seq<char>) -> Result<FnItemView, RejectionView> {
    match item_of(text) {
        Err(tokens) => Err(because_of(Reason::Syntax, tokens)),
        Ok(item) => match signature_of(item.signature) {
            Err(message) => Err(syntax_error(message)),
            Ok(signature) => match read_arguments(signature.arguments) {
                Err(e) => Err(e),
                Ok(arguments) => match read_optional_output(signature.output) {
                    Err(e) => Err(e),
                    Ok(output) => Ok(
                        FnItemView {
                            attributes: item.attributes,
                            visibility: item.visibility,
                            is_const: signature.is_const,
                            is_async: signature.is_async,
                            is_unsafe: signature.is_unsafe,
                            abi: signature.abi,
                            ident: signature.ident,
                            generics: signature.generics,
                            arguments,
                            argument_list: signature.argument_list,
                            variadic: signature.variadic,
                            output,
                            where_clause: signature.where_clause,
                            body: item.body,
                        },
                    ),
                },
            },
        },
    }
}

/// Refuses an item that does not parse.
fn reject_syntax(message: &str) -> (r: Rejection)
    ensures
        r@ == syntax_error(message@),
{
    reject_with(Reason::Syntax, report_error(message))
}

/// Reads an argument.
fn parse_one_argument(text: &str) -> (r: Result<Argument, Rejection>)
    ensures
        outcome(r) == read_argument(text@),
{
    match strip_end(text, "... : ...") {
        Some(before) => {
            let attributes: Vec<String> = vec![before];
            assert(views(attributes@) =~= seq![before@]);
            Ok(
                Argument::Typed {
                    attributes,
                    pattern: Pattern::Other("...".to_owned()),
                    ty: "...".to_owned(),
                },
            )
        },
        None => match parse_argument(text) {
            Err(message) => Err(reject_syntax(message.as_str())),
            Ok(argument) => Ok(argument),
        },
    }
}

/// Reads the arguments of a function.
fn parse_arguments(texts: &Vec<String>) -> (r: Result<Vec<Argument>, Rejection>)
    ensures
        match r {
            Ok(arguments) => read_arguments(views(texts@)) == Ok::<
                Seq<ArgumentView>,
                RejectionView,
            >(views(arguments@)),
            Err(e) => read_arguments(views(texts@)) == Err::<Seq<ArgumentView>, RejectionView>(e@),
        },
{
    let mut arguments: Vec<Argument> = Vec::new();
    let ghost all = views(texts@);
    let mut i: usize = 0;
    proof {
        assert(views(arguments@) == Seq::<ArgumentView>::empty());
    }
    while i < texts.len()
        invariant
            i <= texts.len(),
            all == views(texts@),
            read_arguments(all.take(i as int)) == Ok::<Seq<ArgumentView>, RejectionView>(
                views(arguments@),
            ),
        decreases texts.len() - i,
    {
        proof {
            assert(all.take(i + 1).drop_last() == all.take(i as int));
            assert(all.take(i + 1).last() == texts@[i as int]@);
        }
        match parse_one_argument(texts[i].as_str()) {
            Err(e) => {
                proof {
                    lemma_first_rejection(all, i + 1);
                }
                return Err(e);
            },
            Ok(argument) => {
                let ghost before = views(arguments@);
                arguments.push(argument);
                assert(views(arguments@) == before.push(argument@));
            },
        }
        i = i + 1;
    }
    assert(all.take(i as int) == all);
    Ok(arguments)
}

/// What refuses a prefix of the arguments refuses them all.
proof fn lemma_first_rejection(texts: Seq<Seq<char>>, n: int)
    requires
        0 <= n <= texts.len(),
        read_arguments(texts.take(n)) is Err,
    ensures
        read_arguments(texts) == read_arguments(texts.take(n)),
    decreases texts.len() - n,
{
    if n == texts.len() {
        assert(texts.take(n) == texts);
    } else {
        assert(texts.take(n + 1).drop_last() == texts.take(n));
        lemma_first_rejection(texts, n + 1);
    }
}

/// Reads a return type.
fn parse_output(text: &str) -> (r: Result<Output, Rejection>)
    ensures
        outcome(r) == read_output(text@),
{
    match parse_type(text) {
        Err(e) => Err(reject_with(Reason::ReturnTypeSyntax, e)),
        Ok(ty) => match lex(ty.text.as_str()) {
            Err(e) => Err(reject_with(Reason::ReturnTypeSyntax, e)),
            Ok(tokens) => Ok(Output { text: ty.text, tokens, path: ty.path }),
        },
    }
}

/// Reads the text of a function item.
pub fn parse_fn_item(text: &str) -> (r: Result<FnItem, Rejection>)
    ensures
        outcome(r) == read_item(text@),
{
    let item = match parse_item(text) {
        Err(tokens) => return Err(reject_with(Reason::Syntax, tokens)),
        Ok(item) => item,
    };
    let signature = match parse_signature(item.signature.as_str()) {
        Err(message) => return Err(reject_syntax(message.as_str())),
        Ok(signature) => signature,
    };
    let arguments = match parse_arguments(&signature.arguments) {
        Err(e) => return Err(e),
        Ok(arguments) => arguments,
    };
    let output = match &signature.output {
        None => None,
        Some(text) => match parse_output(text.as_str()) {
            Err(e) => return Err(e),
            Ok(output) => Some(output),
        },
    };
    Ok(
        FnItem {
            attributes: item.attributes,
            visibility: item.visibility,
            is_const: signature.is_const,
            is_async: signature.is_async,
            is_unsafe: signature.is_unsafe,
            abi: signature.abi,
            ident: signature.ident,
            generics: signature.generics,
            arguments,
            argument_list: signature.argument_list,
            variadic: signature.variadic,
            output,
            where_clause: signature.where_clause,
            body: item.body,
        },
    )
}

} // verus!
