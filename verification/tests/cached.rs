use cached_proc_macro::{cached, MacroArgs};
use proc_macro2::{Delimiter, TokenStream, TokenTree};

/// The tokens of a text, each with a space after it.
fn tokens(text: &str) -> String {
    flat(text.parse::<TokenStream>().unwrap())
}

fn flat(stream: TokenStream) -> String {
    let mut r = String::new();
    for tree in stream {
        match tree {
            TokenTree::Group(group) => {
                let (open, close) = match group.delimiter() {
                    Delimiter::Brace => ("{ ", "} "),
                    Delimiter::Bracket => ("[ ", "] "),
                    Delimiter::Parenthesis => ("( ", ") "),
                    Delimiter::None => ("", ""),
                };
                r = r + open + &flat(group.stream()) + close;
            }
            other => r = r + &other.to_string() + " ",
        }
    }
    r
}

/// Both texts have the same tokens.
fn same(got: &str, want: &str) {
    let got = tokens(got);
    let want = tokens(want);
    for (i, (g, w)) in got.split(' ').zip(want.split(' ')).enumerate() {
        let near = got.split(' ').skip(i).take(12).collect::<Vec<_>>().join(" ");
        assert_eq!(g, w, "at token {}: {}", i, near);
    }
    assert_eq!(got, want);
}

/// The tokens of `part` stand one after the other in `got`.
fn holds(got: &str, part: &str) -> bool {
    tokens(got).contains(&tokens(part))
}

fn expand(args: MacroArgs, input: &str) -> String {
    cached(&args, input).unwrap()
}

fn text(s: &str) -> Option<String> {
    Some(s.to_string())
}

#[test]
fn cached_plain_function() {
    let got = expand(
        MacroArgs::default(),
        "/// Adds.\n#[inline] pub(crate) fn add(a: u32, mut b: u32) -> u32 { b += a; b }",
    );
    same(
        &got,
        r##"
        #[doc = "Cached static for the [`add`] function."]
        pub(crate) static ADD: ::cached::once_cell::sync::Lazy<std::sync::Mutex<cached::UnboundCache<(u32, u32), u32> >> = ::cached::once_cell::sync::Lazy::new(|| std::sync::Mutex::new(cached::UnboundCache::new()));
        #[doc = " Adds."]
        #[inline]
        #[doc = ""]
        #[doc = "# Caching"]
        #[doc = "This is a cached function that uses the [`ADD`] cached static."]
        pub(crate) fn add(a: u32, b: u32) -> u32 {
            use cached::Cached;
            let key = (a.clone(), b.clone());
            {
                let mut cache = ADD.lock().unwrap();
                if let Some(result) = cache.cache_get(&key) {
                    return result.clone()
                }
            }
            fn inner(a: u32, mut b: u32) -> u32 { b += a; b };
            let result = inner(a, b);
            let mut cache = ADD.lock().unwrap();
            cache.cache_set(key, result.clone());
            result
        }
        #[doc = "Primes the cached function [`add`]."]
        #[allow(dead_code)]
        pub(crate) fn add_prime_cache(a: u32, b: u32) -> u32 {
            use cached::Cached;
            let key = (a.clone(), b.clone());
            let mut cache = ADD.lock().unwrap();
            fn inner(a: u32, mut b: u32) -> u32 { b += a; b };
            let result = inner(a, b);
            cache.cache_set(key, result.clone());
            result
        }
        "##,
    );
}

#[test]
fn cached_async_synced_result_with_flag() {
    let args = MacroArgs {
        name: text("LOOKUPS"),
        result: true,
        sync_writes: true,
        with_cached_flag: true,
        size: Some(10),
        time: Some(60),
        time_refresh: true,
        ..MacroArgs::default()
    };
    let got = expand(
        args,
        "async fn look<T: Clone>(id: T) -> Result<cached::Return<u8>, String> where T: Send { go(id).await }",
    );
    same(
        &got,
        r##"
        #[doc = "Cached static for the [`look`] function."]
        static LOOKUPS: ::cached::once_cell::sync::Lazy<::cached::async_sync::Mutex<cached::TimedSizedCache<(T), cached::Return<u8> > >> = ::cached::once_cell::sync::Lazy::new(|| ::cached::async_sync::Mutex::new(cached::TimedSizedCache::with_size_and_lifespan_and_refresh(10usize, 60u64, true)));
        #[doc = "This is a cached function that uses the [`LOOKUPS`] cached static."]
        async fn look<T: Clone>(id: T) -> Result<cached::Return<u8>, String> where T: Send {
            use cached::Cached;
            let key = (id.clone());
            let mut cache = LOOKUPS.lock().await;
            if let Some(result) = cache.cache_get(&key) {
                let mut r = result.clone(); r.was_cached = true; return Ok(r)
            }
            async fn inner(id: T) -> Result<cached::Return<u8>, String> { go(id).await };
            let result = inner(id).await;
            if let Ok(result) = &result {
                cache.cache_set(key, result.clone());
            }
            result
        }
        #[doc = "Primes the cached function [`look`]."]
        #[allow(dead_code)]
        async fn look_prime_cache<T: Clone>(id: T) -> Result<cached::Return<u8>, String> where T: Send {
            use cached::Cached;
            let key = (id.clone());
            let mut cache = LOOKUPS.lock().await;
            async fn inner(id: T) -> Result<cached::Return<u8>, String> { go(id).await };
            let result = inner(id).await;
            if let Ok(result) = &result {
                cache.cache_set(key, result.clone());
            }
            result
        }
        "##,
    );
}

#[test]
fn cached_option() {
    let args = MacroArgs { option: true, ..MacroArgs::default() };
    let got = expand(args, "fn find(k: u8) -> Option<String> { None }");
    assert!(holds(&got, "cached::UnboundCache<(u8), String>"));
    assert!(holds(&got, "{ return Some(result.clone()) }"));
    assert!(holds(&got, "if let Some(result) = &result { cache.cache_set(key, result.clone()); } result"));
}

#[test]
fn cached_option_with_flag() {
    let args = MacroArgs { option: true, with_cached_flag: true, ..MacroArgs::default() };
    let got = expand(args, "fn find(k: u8) -> Option<Return<String>> { None }");
    assert!(holds(&got, "let mut r = result.clone(); r.was_cached = true; return Some(r)"));
}

#[test]
fn cached_flag_without_result() {
    let args = MacroArgs { with_cached_flag: true, ..MacroArgs::default() };
    let got = expand(args, "fn find(k: u8) -> cached::Return<String> { todo() }");
    assert!(holds(&got, "{ let mut r = result.clone(); r.was_cached = true; return r }"));
    assert!(holds(&got, "cached::UnboundCache<(u8), cached::Return<String> >"));
}

#[test]
fn cached_result_without_flag() {
    let args = MacroArgs { result: true, ..MacroArgs::default() };
    let got = expand(args, "fn find(k: u8) -> Result<String, ()> { Err(()) }");
    assert!(holds(&got, "{ return Ok(result.clone()) }"));
    assert!(holds(&got, "if let Ok(result) = &result { cache.cache_set(key, result.clone()); } result"));
}

#[test]
fn cached_without_arguments_or_return_type() {
    let got = expand(MacroArgs::default(), "fn tick() { go() }");
    assert!(holds(&got, "cached::UnboundCache<(), ()>"));
    assert!(holds(&got, "let key = ();"));
    assert!(holds(&got, "fn inner() { go() }; let result = inner();"));
    assert!(holds(&got, "fn tick_prime_cache()"));
}

#[test]
fn cached_stores_by_size_and_time() {
    let input = "fn f(a: u8) -> u8 { a }";
    let sized = expand(MacroArgs { size: Some(3), ..MacroArgs::default() }, input);
    assert!(holds(&sized, "std::sync::Mutex<cached::SizedCache<(u8), u8> >>"));
    assert!(holds(&sized, "Mutex::new(cached::SizedCache::with_size(3usize))"));
    let timed = expand(MacroArgs { time: Some(90), ..MacroArgs::default() }, input);
    assert!(holds(&timed, "std::sync::Mutex<cached::TimedCache<(u8), u8> >>"));
    assert!(holds(&timed, "cached::TimedCache::with_lifespan_and_refresh(90u64, false)"));
    let both = expand(MacroArgs { size: Some(0), time: Some(u64::MAX), ..MacroArgs::default() }, input);
    assert!(holds(
        &both,
        "cached::TimedSizedCache::with_size_and_lifespan_and_refresh(0usize, 18446744073709551615u64, false)"
    ));
}

#[test]
fn cached_unbound_is_the_default_store() {
    let input = "fn f(a: u8) -> u8 { a }";
    let asked = expand(MacroArgs { unbound: true, ..MacroArgs::default() }, input);
    assert_eq!(asked, expand(MacroArgs::default(), input));
    assert!(holds(&asked, "cached::UnboundCache::new()"));
}

#[test]
fn cached_refresh_without_time_changes_nothing() {
    let input = "fn f(a: u8) -> u8 { a }";
    let refreshed = expand(MacroArgs { time_refresh: true, size: Some(2), ..MacroArgs::default() }, input);
    assert_eq!(refreshed, expand(MacroArgs { size: Some(2), ..MacroArgs::default() }, input));
}

#[test]
fn cached_own_store_and_key() {
    let args = MacroArgs {
        key: text("String"),
        convert: text(r#"{ format!("{}:{}", a, b) }"#),
        cache_type: text("SizedCache<String, usize>"),
        cache_create: text("{ SizedCache::with_size(100) }"),
        ..MacroArgs::default()
    };
    let got = expand(args, "fn keyed(a: &str, b: &str) -> usize { a.len() + b.len() }");
    assert!(holds(&got, "Lazy<std::sync::Mutex<SizedCache<String, usize> >>"));
    assert!(holds(&got, "std::sync::Mutex::new({ SizedCache::with_size(100) })"));
    assert!(holds(&got, r#"let key = { format!("{}:{}", a, b) };"#));
    assert!(holds(&got, "let result = inner(a, b);"));
}

#[test]
fn cached_convert_without_key_beside_a_type() {
    let args = MacroArgs {
        convert: text("{ a }"),
        cache_type: text("UnboundCache<u8, u8>"),
        cache_create: text("{ UnboundCache::new() }"),
        ..MacroArgs::default()
    };
    let got = expand(args, "fn f(a: u8) -> u8 { a }");
    assert!(holds(&got, "let key = { a };"));
    assert!(holds(&got, "Mutex<UnboundCache<u8, u8> >>"));
}

#[test]
fn cached_key_and_convert_in_a_built_in_store() {
    let args = MacroArgs { key: text("u64"), convert: text("{ a as u64 }"), ..MacroArgs::default() };
    let got = expand(args, "fn f(a: u8) -> u8 { a }");
    assert!(holds(&got, "cached::UnboundCache<u64, u8>"));
}

#[test]
fn cached_name_defaults_to_upper_case() {
    let input = "fn slow_fn(a: u8) -> u8 { a }";
    let named = expand(MacroArgs { name: text("SLOW_FN"), ..MacroArgs::default() }, input);
    assert_eq!(expand(MacroArgs::default(), input), named);
    let other = expand(MacroArgs { name: text("fast"), ..MacroArgs::default() }, input);
    assert!(holds(&other, "static fast:"));
    assert!(holds(&other, "fast.lock().unwrap()"));
    assert!(holds(&other, r#"#[doc = "This is a cached function that uses the [`fast`] cached static."]"#));
}

#[test]
fn cached_upper_case_of_other_letters() {
    let got = expand(MacroArgs::default(), "fn stra\u{df}e(a: u8) -> u8 { a }");
    assert!(holds(&got, "static STRASSE:"));
}

#[test]
fn cached_patterns_and_attributes_of_arguments() {
    let got = expand(
        MacroArgs::default(),
        "fn f(#[cfg(all())] mut a: u8, ref mut b: u8, c @ 1..=9: u8, _: u8) -> u8 { a }",
    );
    assert!(holds(&got, "fn f(#[cfg(all())] a: u8, ref b: u8, c @ 1..=9: u8, _: u8) -> u8"));
    assert!(holds(&got, "fn inner(#[cfg(all())] mut a: u8, ref mut b: u8, c @ 1..=9: u8, _: u8) -> u8 { a };"));
    assert!(holds(&got, "let result = inner(a, ref b, c @ 1..=9, _);"));
}

#[test]
fn cached_mut_shows_in_the_inner_function_only() {
    let with = expand(MacroArgs::default(), "fn f(mut a: u8, b: u8) -> u8 { a }");
    let without = expand(MacroArgs::default(), "fn f(a: u8, b: u8) -> u8 { a }");
    let hidden = tokens(&with).replace("inner ( mut a : u8", "inner ( a : u8");
    assert_ne!(tokens(&with), tokens(&without));
    assert_eq!(hidden, tokens(&without));
}

#[test]
fn cached_qualified_signatures() {
    let got = expand(
        MacroArgs::default(),
        r#"pub const unsafe extern "C" fn f<'a, const N: usize>(a: &'a [u8; N],) -> &'a u8 where u8: Copy { &a[0] }"#,
    );
    assert!(holds(
        &got,
        r#"pub const unsafe extern "C" fn f<'a, const N: usize>(a: &'a [u8; N]) -> &'a u8 where u8: Copy"#
    ));
    assert!(holds(
        &got,
        r#"pub const unsafe extern "C" fn f_prime_cache<'a, const N: usize>(a: &'a [u8; N]) -> &'a u8 where u8: Copy"#
    ));
    assert!(holds(&got, "fn inner(a: &'a [u8; N],) -> &'a u8 { &a[0] };"));
    assert!(holds(&got, "cached::UnboundCache<(&'a [u8; N]), &'a u8>"));
}

#[test]
fn cached_attributes_without_a_doc_comment() {
    let got = expand(MacroArgs::default(), "#[must_use] #[inline(never)] fn f(a: u8) -> u8 { a }");
    assert!(holds(
        &got,
        r#"#[must_use] #[inline(never)] #[doc = "This is a cached function that uses the [`F`] cached static."] fn f(a: u8) -> u8"#
    ));
    assert!(!holds(&got, r##"#[doc = "# Caching"]"##));
}

#[test]
fn cached_value_type_of_the_last_segment() {
    let args = MacroArgs { result: true, ..MacroArgs::default() };
    let got = expand(args.clone(), "fn f(a: u8) -> std::result::Result<u32, String> { Ok(1) }");
    assert!(holds(&got, "cached::UnboundCache<(u8), u32>"));
    let got = expand(args, "fn f(a: u8) -> Outer<u8>::Inner<u16, u32> { todo() }");
    assert!(holds(&got, "cached::UnboundCache<(u8), u16>"));
}

#[test]
fn cached_alternative_patterns() {
    let got = expand(MacroArgs::default(), "fn f(a | a: u8, mut b: u8) -> u8 { a }");
    assert!(holds(&got, "fn f(a | a: u8, b: u8) -> u8"));
    assert!(holds(&got, "let result = inner(a | a, b);"));
}

#[test]
fn cached_variadic_functions() {
    let plain = expand(MacroArgs::default(), "unsafe extern \"C\" fn f(a: u8, ...) -> u8 { a }");
    assert!(holds(&plain, "unsafe extern \"C\" fn f(a: u8, ...) -> u8"));
    let named = expand(
        MacroArgs::default(),
        "unsafe extern \"C\" fn f(a: u8, mut args: ...) -> u8 { a }",
    );
    assert!(holds(&named, "unsafe extern \"C\" fn f(a: u8, args: ...) -> u8"));
    assert!(holds(&named, "unsafe extern \"C\" fn f_prime_cache(a: u8, args: ...) -> u8"));
    let trailing = expand(
        MacroArgs::default(),
        "unsafe extern \"C\" fn f(a: u8, #[x] ...,) -> u8 { a }",
    );
    assert!(holds(&trailing, "unsafe extern \"C\" fn f(a: u8, #[x] ...) -> u8"));
}
