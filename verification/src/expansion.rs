//! The frame of every expansion: the cache, the cached function, and the
//! function that primes the cache.

use crate::helpers::{
    argument_names, cached_doc, doc_attribute, doc_attribute_text, fill_in_attributes,
    filled_attributes, get_input_names, get_mut_signature, has_receiver, output_clause,
    output_clause_text, prime_doc, signature, static_doc,
};
use crate::item::{FnItem, FnItemView};
use crate::outside::{literal, string_literal};
use crate::text::{join, join_texts};
use vstd::prelude::*;
use vstd::string::*;

verus! {

/// The names of an expansion, and its doc comments as string literals.
#[derive(Debug, Clone, PartialEq, Eq)]
pub struct Names {
    /// The name of the cache.
    pub cache: String,
    /// The name of the function that primes it.
    pub prime: String,
    pub static_doc: String,
    pub prime_doc: String,
    pub cached_doc: String,
}

/// The view of [`Names`].
pub struct NamesView {
    pub cache: Seq<char>,
    pub prime: Seq<char>,
    pub static_doc: Seq<char>,
    pub prime_doc: Seq<char>,
    pub cached_doc: Seq<char>,
}

impl View for Names {
    type V = NamesView;

    open spec fn view(&self) -> NamesView {
        NamesView {
            cache: self.cache@,
            prime: self.prime@,
            static_doc: self.static_doc@,
            prime_doc: self.prime_doc@,
            cached_doc: self.cached_doc@,
        }
    }
}

/// The names of the expansion of the function `ident`.
pub open spec fn names_of(cache: Seq<char>, prime: Seq<char>, ident: Seq<char>) -> NamesView {
    NamesView {
        cache,
        prime,
        static_doc: literal(static_doc(ident)),
        prime_doc: literal(prime_doc(ident)),
        cached_doc: literal(cached_doc(cache)),
    }
}

/// Makes the names of the expansion of the function `ident`.
pub fn make_names(cache: String, prime: String, ident: &str) -> (r: Names)
    ensures
        r@ == names_of(cache@, prime@, ident@),
{
    let static_doc = "Cached static for the [`".to_owned().concat(ident).concat("`] function.");
    let prime_doc = "Primes the cached function [`".to_owned().concat(ident).concat("`].");
    let cached_doc = "This is a cached function that uses the [`".to_owned().concat(
        cache.as_str(),
    ).concat("`] cached static.");
    Names {
        cache,
        prime,
        static_doc: string_literal(static_doc.as_str()),
        prime_doc: string_literal(prime_doc.as_str()),
        cached_doc: string_literal(cached_doc.as_str()),
    }
}

/// The function itself, under another name, and a run of it.
pub open spec fn call_text(item: FnItemView) -> Seq<char> {
    (if item.is_async {
        "async fn inner( "@
    } else {
        "fn inner( "@
    }) + item.argument_list + " ) "@ + output_clause(item.output) + " "@ + item.body
        + " ; let result = inner( "@ + join(argument_names(item.arguments), " , "@) + (
    if item.is_async {
        " ).await;"@
    } else {
        " );"@
    })
}

/// Writes the function itself, under another name, and a run of it.
pub fn write_call(item: &FnItem) -> (r: String)
    requires
        !has_receiver(item@.arguments),
    ensures
        r@ == call_text(item@),
{
    (if item.is_async {
        "async fn inner( "
    } else {
        "fn inner( "
    }).to_owned().concat(item.argument_list.as_str()).concat(" ) ").concat(
        output_clause_text(&item.output).as_str(),
    ).concat(" ").concat(item.body.as_str()).concat(" ; let result = inner( ").concat(
        join_texts(&get_input_names(&item.arguments), " , ").as_str(),
    ).concat(
        if item.is_async {
            " ).await;"
        } else {
            " );"
        },
    )
}

/// A whole expansion: the cache with its doc comment, the cached function with
/// its attributes, and the function that primes the cache. Both functions begin
/// with `opening`.
pub open spec fn expansion(
    item: FnItemView,
    names: NamesView,
    cache: Seq<char>,
    opening: Seq<char>,
    body: Seq<char>,
    prime_body: Seq<char>,
) -> Seq<char> {
    doc_attribute(names.static_doc) + " "@ + cache + " "@ + join(
        filled_attributes(item.attributes, names.cached_doc),
        " "@,
    ) + " "@ + item.visibility + " "@ + signature(item, item.ident) + " { "@ + opening + " "@ + body
        + "} "@ + doc_attribute(names.prime_doc) + " #[allow(dead_code)] "@ + item.visibility + " "@
        + signature(item, names.prime) + " { "@ + opening + " "@ + prime_body + "}"@
}

/// Writes a whole expansion.
pub fn write_expansion(
    item: &FnItem,
    names: &Names,
    cache: &str,
    opening: &str,
    body: &str,
    prime_body: &str,
) -> (r: String)
    requires
        !has_receiver(item@.arguments),
    ensures
        r@ == expansion(item@, names@, cache@, opening@, body@, prime_body@),
{
    doc_attribute_text(names.static_doc.as_str()).concat(" ").concat(cache).concat(" ").concat(
        join_texts(
            &fill_in_attributes(&item.attributes, names.cached_doc.as_str()),
            " ",
        ).as_str(),
    ).concat(" ").concat(item.visibility.as_str()).concat(" ").concat(
        get_mut_signature(item, item.ident.as_str()).as_str(),
    ).concat(" { ").concat(opening).concat(" ").concat(body).concat("} ").concat(
        doc_attribute_text(names.prime_doc.as_str()).as_str(),
    ).concat(" #[allow(dead_code)] ").concat(item.visibility.as_str()).concat(" ").concat(
        get_mut_signature(item, names.prime.as_str()).as_str(),
    ).concat(" { ").concat(opening).concat(" ").concat(prime_body).concat("}")
}

} // verus!
