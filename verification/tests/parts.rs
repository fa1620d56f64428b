use cached_proc_macro::caching::{choose_caching, write_return, write_set, Caching};
use cached_proc_macro::helpers::{
    choose_key, doc_attribute_text, fill_in_attributes, find_inner_type, find_value_type, get_input_names,
    get_input_types, get_mut_signature, get_output_parts, is_valid_ident, key_from_arguments,
    make_cache_ident, make_ident, make_prime_ident, match_pattern_type, mentions_return,
    output_display_text, takes_self, write_pattern, KeySource,
};
use cached_proc_macro::io::{find_returned_type, make_timed_store, write_redis_create};
use cached_proc_macro::item::{parse_fn_item, FnItem, Output};
use cached_proc_macro::keyed::{
    choose_store, expand_cached, write_built_in_store, write_store_type, StoreKind,
};
use cached_proc_macro::single::write_once_store;
use cached_proc_macro::syntax::{
    Argument, Attribute, Pattern, Segment, SegmentArguments, Token, TypeText,
};
use cached_proc_macro::text::{
    decimal_text, join_texts, strip_end, text_contains, truth_text, without_spaces,
};
use cached_proc_macro::{cached, MacroArgs, Reason};

fn s(text: &str) -> String {
    text.to_string()
}

fn angle(ident: &str, inner: &[&str]) -> Segment {
    Segment {
        ident: s(ident),
        arguments: SegmentArguments::Angle(inner.iter().map(|t| s(t)).collect()),
    }
}

fn item() -> FnItem {
    parse_fn_item("#[a] pub fn f(mut x: u8, y: Vec<u8>) -> Result<Return<u8>, E> { x }").unwrap()
}

#[test]
fn joined_texts() {
    assert_eq!(join_texts(&vec![], ", "), "");
    assert_eq!(join_texts(&vec![s("a")], ", "), "a");
    assert_eq!(join_texts(&vec![s("a"), s(""), s("b")], "::"), "a::::b");
}

#[test]
fn contained_texts() {
    assert!(text_contains("cached::Return", "Return"));
    assert!(text_contains("Return", "Return"));
    assert!(text_contains("", ""));
    assert!(text_contains("ReReturn", "Return"));
    assert!(!text_contains("Retur", "Return"));
    assert!(!text_contains("return", "Return"));
    assert!(!text_contains("", "R"));
}

#[test]
fn spaces_dropped() {
    assert_eq!(without_spaces(" Vec < (u8 , u8) > "), "Vec<(u8,u8)>");
    assert_eq!(without_spaces("   "), "");
    assert_eq!(without_spaces("a\tb\n c"), "a\tb\nc");
}

#[test]
fn numbers_and_truth_values() {
    assert_eq!(decimal_text(0), "0");
    assert_eq!(decimal_text(9), "9");
    assert_eq!(decimal_text(10), "10");
    assert_eq!(decimal_text(1_000_305), "1000305");
    assert_eq!(decimal_text(u64::MAX), "18446744073709551615");
    assert_eq!(truth_text(true), "true");
    assert_eq!(truth_text(false), "false");
}

#[test]
fn patterns() {
    let binding = |by_ref, mutable, subpattern| Pattern::Binding {
        by_ref,
        mutable,
        ident: s("a"),
        subpattern,
    };
    assert_eq!(write_pattern(&binding(true, true, Some(s("1 ..= 9")))), "ref mut a @ 1 ..= 9");
    assert_eq!(write_pattern(&binding(false, true, None)), "mut a");
    assert_eq!(write_pattern(&Pattern::Other(s("(a , b)"))), "(a , b)");
    assert_eq!(match_pattern_type(&binding(true, true, None)), binding(true, false, None));
    assert_eq!(match_pattern_type(&binding(false, false, None)), binding(false, false, None));
    assert_eq!(match_pattern_type(&Pattern::Other(s("_"))), Pattern::Other(s("_")));
}

#[test]
fn items_are_cut_up() {
    let f = item();
    assert_eq!(f.attributes, vec![Attribute { path: s("a"), text: s("# [a]") }]);
    assert_eq!(f.visibility, "pub");
    assert_eq!((f.is_const, f.is_async, f.is_unsafe), (false, false, false));
    assert_eq!(f.ident, "f");
    assert_eq!(f.argument_list, "mut x : u8 , y : Vec < u8 >");
    assert_eq!(f.body, "{ x }");
    assert_eq!(f.arguments.len(), 2);
    let output = f.output.as_ref().unwrap();
    assert_eq!(output.text, "Result < Return < u8 > , E >");
    assert_eq!(output.path, Some(vec![angle("Result", &["Return < u8 >", "E"])]));
    let g = parse_fn_item("fn g() -> a::F(u8) -> u8 { todo() }").unwrap();
    assert_eq!(
        g.output.unwrap().path,
        Some(vec![
            Segment { ident: s("a"), arguments: SegmentArguments::Absent },
            Segment { ident: s("F"), arguments: SegmentArguments::Parenthesized(s("(u8) -> u8")) },
        ])
    );
    assert_eq!(parse_fn_item("fn g() -> (u8,) { todo() }").unwrap().output.unwrap().path, None);
    assert_eq!(get_output_parts(&output.tokens), vec![s("Result"), s("Return"), s("u8"), s("E")]);
    assert!(parse_fn_item("async fn g() {}").unwrap().is_async);
    assert!(parse_fn_item("unsafe fn g() {}").unwrap().is_unsafe);
    assert_eq!(parse_fn_item("fn g() {}").unwrap().output, None);
}

#[test]
fn arguments() {
    let f = item();
    assert!(!takes_self(&f.arguments));
    assert_eq!(get_input_names(&f.arguments), vec![s("x"), s("y")]);
    assert_eq!(get_input_types(&f.arguments), vec![s("u8"), s("Vec < u8 >")]);
    assert_eq!(
        without_spaces(&get_mut_signature(&f, "g")),
        "fng(x:u8,y:Vec<u8>)->Result<Return<u8>,E>"
    );
    let key = key_from_arguments(&f.arguments);
    assert_eq!(without_spaces(&key.ty), "(u8,Vec<u8>)");
    assert_eq!(without_spaces(&key.convert), "(x.clone(),y.clone())");
    let method = parse_fn_item("fn f(a: u8, &self) {}");
    assert!(method.is_err() || takes_self(&method.unwrap().arguments));
    assert!(takes_self(&parse_fn_item("fn f(&mut self) {}").unwrap().arguments));
}

#[test]
fn variadic_arguments() {
    let f = parse_fn_item("unsafe extern \"C\" fn f(a: u8, ...) { a }").unwrap();
    assert_eq!(without_spaces(&get_mut_signature(&f, "f")), "unsafeextern\"C\"fnf(a:u8,...)");
    let f = parse_fn_item("unsafe extern \"C\" fn f(...) { 1 }").unwrap();
    assert_eq!(without_spaces(&get_mut_signature(&f, "f")), "unsafeextern\"C\"fnf(...)");
}

#[test]
fn attributes() {
    let plain = vec![Attribute { path: s("a"), text: s("#[a]") }];
    assert_eq!(
        fill_in_attributes(&plain, "\"x\""),
        vec![s("#[a]"), s("#[doc = \"x\"]")]
    );
    let documented = vec![
        Attribute { path: s("doc"), text: s("#[doc = \"d\"]") },
        Attribute { path: s("a"), text: s("#[a]") },
    ];
    assert_eq!(
        fill_in_attributes(&documented, "\"x\""),
        vec![
            s("#[doc = \"d\"]"),
            s("#[a]"),
            s("#[doc = \"\"]"),
            s("#[doc = \"# Caching\"]"),
            s("#[doc = \"x\"]"),
        ]
    );
    assert_eq!(doc_attribute_text("\"x\""), "#[doc = \"x\"]");
}

#[test]
fn identifiers() {
    for good in ["a", "_", "A1_b", "\u{fc}ber", "fn"] {
        assert!(is_valid_ident(good));
        assert_eq!(make_ident(good).unwrap(), good);
    }
    for bad in ["", "1", "a-b", "a b", "r#a", "a\u{20ac}"] {
        assert!(!is_valid_ident(bad));
        assert_eq!(make_ident(bad).unwrap_err().reason, Reason::Name);
    }
    assert_eq!(make_cache_ident(&None, "get_x").unwrap(), "GET_X");
    assert_eq!(make_cache_ident(&Some(s("get_x")), "f").unwrap(), "get_x");
    assert_eq!(make_prime_ident("get_x").unwrap(), "get_x_prime_cache");
}

#[test]
fn return_types() {
    let f = item();
    assert!(mentions_return(&f.output));
    assert_eq!(output_display_text(&f.output), "Result<Return<u8>,E>");
    assert_eq!(output_display_text(&None), "()");
    assert!(!mentions_return(&None));
    assert_eq!(find_value_type(false, false, &None).unwrap(), "()");
    assert_eq!(find_value_type(true, false, &f.output).unwrap(), "Return < u8 >");
    let grouped = Some(Output {
        text: s("(Return)"),
        tokens: vec![Token::Group, Token::Punct, Token::Literal],
        path: None,
    });
    assert!(!mentions_return(&grouped));
    let split = Some(Output {
        text: s("Re turn"),
        tokens: vec![Token::Ident(s("Re")), Token::Ident(s("turn"))],
        path: Some(vec![]),
    });
    assert!(!mentions_return(&split));
}

#[test]
fn types_inside_return() {
    let ty = Ok(TypeText { text: s("Return < u8 >"), path: Some(vec![angle("Return", &["u8"])]) });
    assert_eq!(find_returned_type(&ty, &None).unwrap(), "u8");
    let tuple = Ok(TypeText { text: s("(u8 ,)"), path: None });
    assert_eq!(find_returned_type(&tuple, &None).unwrap_err().reason, Reason::IoValueType);
    let none = Err(s("Error(\"x\")"));
    assert_eq!(find_returned_type(&none, &None).unwrap_err().detail, "\"()\"");
    let empty = Ok(TypeText { text: s("Return < >"), path: Some(vec![angle("Return", &[])]) });
    assert_eq!(find_returned_type(&empty, &None).unwrap_err().reason, Reason::IoValueType);
}

#[test]
fn inner_types() {
    let plain = Segment { ident: s("b"), arguments: SegmentArguments::Absent };
    assert_eq!(find_inner_type(&vec![plain.clone(), angle("R", &["T", "E"])]), Some(s("T")));
    assert_eq!(find_inner_type(&vec![angle("R", &["T"]), plain]), None);
    assert_eq!(find_inner_type(&vec![angle("R", &[])]), None);
    assert_eq!(find_inner_type(&vec![]), None);
}

#[test]
fn ends_of_texts() {
    assert_eq!(strip_end("# [x] ... : ...", "... : ..."), Some(s("# [x] ")));
    assert_eq!(strip_end("...", "..."), Some(s("")));
    assert_eq!(strip_end("args : ...", "... : ..."), None);
    assert_eq!(strip_end("..", "..."), None);
}

#[test]
fn key_sources() {
    for ty in [false, true] {
        assert_eq!(choose_key(true, true, ty), Ok(KeySource::KeyAndConvert));
        assert_eq!(choose_key(false, false, ty), Ok(KeySource::Arguments));
        assert_eq!(choose_key(true, false, ty).unwrap_err().reason, Reason::KeyWithoutConvert);
    }
    assert_eq!(choose_key(false, true, true), Ok(KeySource::Convert));
    assert_eq!(choose_key(false, true, false).unwrap_err().reason, Reason::ConvertWithoutKey);
}

#[test]
fn store_kinds() {
    let args = MacroArgs { size: Some(4), time: Some(5), time_refresh: true, ..MacroArgs::default() };
    assert_eq!(
        choose_store(&args),
        Ok(StoreKind::TimedSized { size: 4, time: 5, refresh: true })
    );
    assert_eq!(choose_store(&MacroArgs::default()), Ok(StoreKind::Unbound));
    assert_eq!(write_store_type("S", "k", "v"), "S< k , v >");
    let store = write_built_in_store(StoreKind::Timed { time: 7, refresh: true }, "k", "v");
    assert_eq!(store.ty, "cached::TimedCache< k , v >");
    assert_eq!(store.create, "cached::TimedCache::with_lifespan_and_refresh(7u64, true)");
}

#[test]
fn returns_and_writes() {
    assert_eq!(choose_caching(false, false), Caching::All);
    assert_eq!(choose_caching(true, false), Caching::OkOnly);
    assert_eq!(choose_caching(false, true), Caching::SomeOnly);
    assert_eq!(write_return(Caching::All, false), "return result.clone()");
    assert_eq!(
        write_return(Caching::SomeOnly, true),
        "let mut r = result.clone(); r.was_cached = true; return Some(r)"
    );
    assert_eq!(write_set(Caching::All, "w;"), "w;");
    assert_eq!(write_set(Caching::OkOnly, "w;"), "if let Ok(result) = &result { w; }");
}

#[test]
fn redis_constructions() {
    assert_eq!(
        write_redis_create(false, "{ p }", 12, Some(false)),
        "cached::RedisCache::new( { p } , 12u64).set_refresh(false).build().expect(\"error constructing RedisCache in #[io_cached] macro\")"
    );
}

#[test]
fn timed_stores() {
    let store = make_timed_store(7, Some(true), "k", "v");
    assert_eq!(store.ty, "cached::TimedCache< k , v >");
    assert_eq!(store.create, "cached::TimedCache::with_lifespan_and_refresh(7u64, true)");
    assert_eq!(
        make_timed_store(7, None, "k", "v").create,
        "cached::TimedCache::with_lifespan_and_refresh(7u64, false)"
    );
    assert_eq!(write_once_store(Some(60), "u32").ty, "cached::TimedCache< () , u32 >");
    assert_eq!(write_once_store(None, "u32").ty, "Option< u32 >");
    assert_eq!(write_once_store(None, "u32").create, "None");
}

#[test]
fn an_item_in_hand_expands_like_its_text() {
    let args = MacroArgs { result: true, ..MacroArgs::default() };
    let text = "fn f(a: u8) -> Result<u8, E> { Ok(a) }";
    let f = parse_fn_item(text).unwrap();
    assert_eq!(expand_cached(&args, &f), cached(&args, text));
    let none = FnItem { arguments: vec![Argument::Receiver], ..f };
    assert_eq!(expand_cached(&args, &none).unwrap_err().reason, Reason::Method);
}
