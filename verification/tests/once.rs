use cached_proc_macro::{once, OnceMacroArgs};
use proc_macro2::{Delimiter, TokenStream, TokenTree};

/// The tokens of a text, each with a space after it.
fn tokens(text: &str) -> String {
    flat(text.parse::<TokenStream>().unwrap())
}

fn flat(stream: TokenStream) -> String {
    let mut r = String::new();
    for tree in stream {
        match tree {
            TokenTree::Group(group) => {
                let (open, close) = match group.delimiter() {
                    Delimiter::Brace => ("{ ", "} "),
                    Delimiter::Bracket => ("[ ", "] "),
                    Delimiter::Parenthesis => ("( ", ") "),
                    Delimiter::None => ("", ""),
                };
                r = r + open + &flat(group.stream()) + close;
            }
            other => r = r + &other.to_string() + " ",
        }
    }
    r
}

/// Both texts have the same tokens.
fn same(got: &str, want: &str) {
    let got = tokens(got);
    let want = tokens(want);
    for (i, (g, w)) in got.split(' ').zip(want.split(' ')).enumerate() {
        let near = got.split(' ').skip(i).take(12).collect::<Vec<_>>().join(" ");
        assert_eq!(g, w, "at token {}: {}", i, near);
    }
    assert_eq!(got, want);
}

/// The tokens of `part` stand one after the other in `got`.
fn holds(got: &str, part: &str) -> bool {
    tokens(got).contains(&tokens(part))
}

fn expand(args: OnceMacroArgs, input: &str) -> String {
    once(&args, input).unwrap()
}

#[test]
fn once_plain_function() {
    let got = expand(OnceMacroArgs::default(), "pub fn load(mut n: u8) -> Vec<u8> { vec![n] }");
    same(
        &got,
        r##"
        #[doc = "Cached static for the [`load`] function."]
        pub static LOAD: ::cached::once_cell::sync::Lazy<std::sync::RwLock<Option<Vec<u8> > >> = ::cached::once_cell::sync::Lazy::new(|| std::sync::RwLock::new(None));
        #[doc = "This is a cached function that uses the [`LOAD`] cached static."]
        pub fn load(n: u8) -> Vec<u8> {
            let now = ::cached::instant::Instant::now();
            {
                let mut cached = LOAD.read().unwrap();
                if let Some(result) = &*cached {
                    return result.clone()
                }
            }
            fn inner(mut n: u8) -> Vec<u8> { vec![n] };
            let result = inner(n);
            let mut cached = LOAD.write().unwrap();
            *cached = Some(result.clone());
            result
        }
        #[doc = "Primes the cached function [`load`]."]
        #[allow(dead_code)]
        pub fn load_prime_cache(n: u8) -> Vec<u8> {
            let now = ::cached::instant::Instant::now();
            let mut cached = LOAD.write().unwrap();
            fn inner(mut n: u8) -> Vec<u8> { vec![n] };
            let result = inner(n);
            *cached = Some(result.clone());
            result
        }
        "##,
    );
}

#[test]
fn once_async_timed_synced_result_with_flag() {
    let args = OnceMacroArgs {
        name: Some("PAGE".to_string()),
        time: Some(3600),
        sync_writes: true,
        result: true,
        option: false,
        with_cached_flag: true,
    };
    let got = expand(args, "async fn page() -> Result<cached::Return<String>, Error> { fetch().await }");
    same(
        &got,
        r##"
        #[doc = "Cached static for the [`page`] function."]
        static PAGE: ::cached::once_cell::sync::Lazy<::cached::async_sync::RwLock<cached::TimedCache<(), cached::Return<String> > >> = ::cached::once_cell::sync::Lazy::new(|| ::cached::async_sync::RwLock::new(cached::TimedCache::with_lifespan_and_refresh(3600u64, false)));
        #[doc = "This is a cached function that uses the [`PAGE`] cached static."]
        async fn page() -> Result<cached::Return<String>, Error> {
            use cached::Cached;
            {
                let mut cached = PAGE.write().await;
                if let Some(result) = cached.cache_get(&()) {
                    let mut r = result.clone(); r.was_cached = true; return Ok(r)
                }
            }
            let mut cached = PAGE.write().await;
            async fn inner() -> Result<cached::Return<String>, Error> { fetch().await };
            let result = inner().await;
            if let Ok(result) = &result {
                cached.cache_set((), result.clone());
            }
            result
        }
        #[doc = "Primes the cached function [`page`]."]
        #[allow(dead_code)]
        async fn page_prime_cache() -> Result<cached::Return<String>, Error> {
            use cached::Cached;
            let mut cached = PAGE.write().await;
            async fn inner() -> Result<cached::Return<String>, Error> { fetch().await };
            let result = inner().await;
            if let Ok(result) = &result {
                cached.cache_set((), result.clone());
            }
            result
        }
        "##,
    );
}

#[test]
fn once_option() {
    let args = OnceMacroArgs { option: true, ..OnceMacroArgs::default() };
    let got = expand(args, "fn maybe() -> Option<u8> { None }");
    assert!(holds(&got, "std::sync::RwLock<Option<u8> >>"));
    assert!(holds(&got, "{ return Some(result.clone()) }"));
    assert!(holds(&got, "if let Some(result) = &result { *cached = Some(result.clone()); } result"));
}

#[test]
fn once_option_with_time() {
    let args = OnceMacroArgs { option: true, time: Some(1), ..OnceMacroArgs::default() };
    let got = expand(args, "fn maybe() -> Option<u8> { None }");
    assert!(holds(&got, "std::sync::RwLock<cached::TimedCache<(), u8> >>"));
    assert!(holds(&got, "cached::TimedCache::with_lifespan_and_refresh(1u64, false)"));
    assert!(holds(
        &got,
        "{ let mut cached = MAYBE.write().unwrap(); if let Some(result) = cached.cache_get(&()) { return Some(result.clone()) } }"
    ));
    assert!(holds(&got, "if let Some(result) = &result { cached.cache_set((), result.clone()); } result"));
}

#[test]
fn once_time_without_result() {
    let args = OnceMacroArgs { time: Some(5), ..OnceMacroArgs::default() };
    let got = expand(args, "fn f() -> u8 { 1 }");
    assert!(holds(&got, "let mut cached = F.write().unwrap(); cached.cache_set((), result.clone()); result"));
}

#[test]
fn once_synced_runs_under_the_write_lock() {
    let args = OnceMacroArgs { sync_writes: true, ..OnceMacroArgs::default() };
    let got = expand(args, "fn f() -> u8 { 1 }");
    assert!(holds(
        &got,
        "let mut cached = F.write().unwrap(); fn inner() -> u8 { 1 }; let result = inner(); *cached = Some(result.clone()); result"
    ));
    let free = expand(OnceMacroArgs::default(), "fn f() -> u8 { 1 }");
    assert!(holds(
        &free,
        "fn inner() -> u8 { 1 }; let result = inner(); let mut cached = F.write().unwrap(); *cached = Some(result.clone()); result"
    ));
}

#[test]
fn once_name_defaults_to_upper_case() {
    let input = "fn load_all() -> u8 { 1 }";
    let named = OnceMacroArgs { name: Some("LOAD_ALL".to_string()), ..OnceMacroArgs::default() };
    assert_eq!(expand(OnceMacroArgs::default(), input), expand(named, input));
}

#[test]
fn once_mut_shows_in_the_inner_function_only() {
    let with = expand(OnceMacroArgs::default(), "fn f(mut a: u8) -> u8 { a }");
    let without = expand(OnceMacroArgs::default(), "fn f(a: u8) -> u8 { a }");
    assert_eq!(tokens(&with).replace("inner ( mut a", "inner ( a"), tokens(&without));
}

#[test]
fn once_serves_all_arguments() {
    let got = expand(OnceMacroArgs::default(), "fn f(a: u8, b: u8) -> u8 { a + b }");
    assert!(!tokens(&got).split(' ').any(|token| token == "key"));
    assert!(holds(&got, "std::sync::RwLock<Option<u8> >>"));
}
