use cached_proc_macro::{io_cached, IOMacroArgs};
use proc_macro2::{Delimiter, TokenStream, TokenTree};

/// The tokens of a text, each with a space after it.
fn tokens(text: &str) -> String {
    flat(text.parse::<TokenStream>().unwrap())
}

fn flat(stream: TokenStream) -> String {
    let mut r = String::new();
    for tree in stream {
        match tree {
            TokenTree::Group(group) => {
                let (open, close) = match group.delimiter() {
                    Delimiter::Brace => ("{ ", "} "),
                    Delimiter::Bracket => ("[ ", "] "),
                    Delimiter::Parenthesis => ("( ", ") "),
                    Delimiter::None => ("", ""),
                };
                r = r + open + &flat(group.stream()) + close;
            }
            other => r = r + &other.to_string() + " ",
        }
    }
    r
}

/// Both texts have the same tokens.
fn same(got: &str, want: &str) {
    let got = tokens(got);
    let want = tokens(want);
    for (i, (g, w)) in got.split(' ').zip(want.split(' ')).enumerate() {
        let near = got.split(' ').skip(i).take(12).collect::<Vec<_>>().join(" ");
        assert_eq!(g, w, "at token {}: {}", i, near);
    }
    assert_eq!(got, want);
}

/// The tokens of `part` stand one after the other in `got`.
fn holds(got: &str, part: &str) -> bool {
    tokens(got).contains(&tokens(part))
}

/// The arguments of an attribute that gives only the required one.
fn plain() -> IOMacroArgs {
    IOMacroArgs {
        map_error: "|e| Oops::Store(e)".to_string(),
        redis: false,
        cache_prefix_block: None,
        name: None,
        time: None,
        time_refresh: None,
        key: None,
        convert: None,
        with_cached_flag: false,
        cache_type: None,
        cache_create: None,
    }
}

fn redis() -> IOMacroArgs {
    IOMacroArgs { redis: true, time: Some(30), ..plain() }
}

fn expand(args: IOMacroArgs, input: &str) -> String {
    io_cached(&args, input).unwrap()
}

fn text(s: &str) -> Option<String> {
    Some(s.to_string())
}

#[test]
fn io_redis_function() {
    let args = IOMacroArgs { time_refresh: Some(true), ..redis() };
    let got = expand(args, "pub fn fetch(id: u64) -> Result<String, Oops> { go(id) }");
    same(
        &got,
        r##"
        #[doc = "Cached static for the [`fetch`] function."]
        pub static FETCH: ::cached::once_cell::sync::Lazy<cached::RedisCache<(u64), String> > = ::cached::once_cell::sync::Lazy::new(|| cached::RedisCache::new({ "cached::proc_macro::io_cached::FETCH" }, 30u64).set_refresh(true).build().expect("error constructing RedisCache in #[io_cached] macro"));
        #[doc = "This is a cached function that uses the [`FETCH`] cached static."]
        pub fn fetch(id: u64) -> Result<String, Oops> {
            use cached::IOCached;
            let key = (id.clone());
            {
                let cache = &FETCH;
                if let Some(result) = cache.cache_get(&key).map_err(|e| Oops::Store(e))? {
                    return Ok(result.clone())
                }
            }
            fn inner(id: u64) -> Result<String, Oops> { go(id) };
            let result = inner(id);
            let cache = &FETCH;
            if let Ok(result) = &result {
                cache.cache_set(key, result.clone()).map_err(|e| Oops::Store(e))?;
            }
            result
        }
        #[doc = "Primes the cached function [`fetch`]."]
        #[allow(dead_code)]
        pub fn fetch_prime_cache(id: u64) -> Result<String, Oops> {
            use cached::IOCached;
            let key = (id.clone());
            fn inner(id: u64) -> Result<String, Oops> { go(id) };
            let result = inner(id);
            let cache = &FETCH;
            if let Ok(result) = &result {
                cache.cache_set(key, result.clone()).map_err(|e| Oops::Store(e))?;
            }
            result
        }
        "##,
    );
}

#[test]
fn io_async_redis_function_with_flag() {
    let args = IOMacroArgs {
        name: text("PAGES"),
        with_cached_flag: true,
        cache_prefix_block: text(r#"{ "my_prefix" }"#),
        ..redis()
    };
    let got = expand(
        args,
        "async fn fetch(mut id: u64) -> Result<cached::Return<String>, Oops> { go(id).await }",
    );
    same(
        &got,
        r##"
        #[doc = "Cached static for the [`fetch`] function."]
        ::cached::lazy_static::lazy_static! {
            static ref PAGES: ::cached::async_once::AsyncOnce<cached::AsyncRedisCache<(u64), String> > = ::cached::async_once::AsyncOnce::new(async move { cached::AsyncRedisCache::new({ "my_prefix" }, 30u64).build().await.expect("error constructing AsyncRedisCache in #[io_cached] macro") });
        }
        #[doc = "This is a cached function that uses the [`PAGES`] cached static."]
        async fn fetch(id: u64) -> Result<cached::Return<String>, Oops> {
            use cached::IOCachedAsync;
            let key = (id.clone());
            {
                let cache = &PAGES.get().await;
                if let Some(result) = cache.cache_get(&key).await.map_err(|e| Oops::Store(e))? {
                    let mut r = ::cached::Return::new(result.clone()); r.was_cached = true; return Ok(r)
                }
            }
            async fn inner(mut id: u64) -> Result<cached::Return<String>, Oops> { go(id).await };
            let result = inner(id).await;
            let cache = &PAGES.get().await;
            if let Ok(result) = &result {
                cache.cache_set(key, result.value.clone()).await.map_err(|e| Oops::Store(e))?;
            }
            result
        }
        #[doc = "Primes the cached function [`fetch`]."]
        #[allow(dead_code)]
        async fn fetch_prime_cache(id: u64) -> Result<cached::Return<String>, Oops> {
            use cached::IOCachedAsync;
            let key = (id.clone());
            async fn inner(mut id: u64) -> Result<cached::Return<String>, Oops> { go(id).await };
            let result = inner(id).await;
            let cache = &PAGES.get().await;
            if let Ok(result) = &result {
                cache.cache_set(key, result.value.clone()).await.map_err(|e| Oops::Store(e))?;
            }
            result
        }
        "##,
    );
}

#[test]
fn io_own_store() {
    let args = IOMacroArgs {
        key: text("String"),
        convert: text("{ id.to_string() }"),
        cache_type: text("Disk<String, u8>"),
        cache_create: text(r#"{ Disk::new("d") }"#),
        ..plain()
    };
    let got = expand(args, "fn f(id: u8) -> Result<u8, Oops> { Ok(id) }");
    assert!(holds(
        &got,
        r#"static F: ::cached::once_cell::sync::Lazy<Disk<String, u8> > = ::cached::once_cell::sync::Lazy::new(|| { Disk::new("d") });"#
    ));
    assert!(holds(&got, "let key = { id.to_string() };"));
}

#[test]
fn io_redis_with_a_type_and_a_construction() {
    let args = IOMacroArgs {
        redis: true,
        cache_type: text("MyRedis"),
        cache_create: text("{ MyRedis::new() }"),
        ..plain()
    };
    let got = expand(args, "async fn f(id: u8) -> Result<u8, Oops> { Ok(id) }");
    assert!(holds(
        &got,
        "static ref F: ::cached::async_once::AsyncOnce<MyRedis> = ::cached::async_once::AsyncOnce::new(async move { { MyRedis::new() } });"
    ));
}

#[test]
fn io_redis_refresh_in_async() {
    let args = IOMacroArgs { time_refresh: Some(false), ..redis() };
    let got = expand(args, "async fn f(id: u8) -> Result<u8, Oops> { Ok(id) }");
    assert!(holds(
        &got,
        r#"cached::AsyncRedisCache::new({ "cached::proc_macro::io_cached::F" }, 30u64).set_refresh(false).build().await"#
    ));
}

#[test]
fn io_redis_without_refresh() {
    let got = expand(redis(), "fn f(id: u8) -> Result<u8, Oops> { Ok(id) }");
    assert!(holds(
        &got,
        r#"cached::RedisCache::new({ "cached::proc_macro::io_cached::F" }, 30u64).build().expect("error constructing RedisCache in #[io_cached] macro")"#
    ));
}

#[test]
fn io_default_prefix() {
    let input = "fn f(id: u8) -> Result<u8, Oops> { Ok(id) }";
    let given = IOMacroArgs {
        cache_prefix_block: text(r#" { "cached::proc_macro::io_cached::F" }"#),
        ..redis()
    };
    assert_eq!(expand(redis(), input), expand(given, input));
}

#[test]
fn io_value_inside_return_without_the_flag() {
    let got = expand(redis(), "fn f(id: u8) -> Result<Return<Vec<u8>>, Oops> { todo() }");
    assert!(holds(&got, "cached::RedisCache<(u8), Vec<u8> >"));
    assert!(holds(&got, "{ return Ok(result.clone()) }"));
}

#[test]
fn io_flag_in_sync() {
    let args = IOMacroArgs { with_cached_flag: true, ..redis() };
    let got = expand(args, "fn f(id: u8) -> Result<cached::Return<u8>, Oops> { todo() }");
    assert!(holds(&got, "cached::RedisCache<(u8), u8>"));
    assert!(holds(
        &got,
        "cache.cache_set(key, result.value.clone()).map_err(|e| Oops::Store(e))?;"
    ));
    assert!(holds(
        &got,
        "{ let mut r = ::cached::Return::new(result.clone()); r.was_cached = true; return Ok(r) }"
    ));
}

#[test]
fn io_name_defaults_to_upper_case() {
    let input = "fn get_it(id: u8) -> Result<u8, Oops> { Ok(id) }";
    let named = IOMacroArgs { name: text("GET_IT"), ..redis() };
    assert_eq!(expand(redis(), input), expand(named, input));
}

#[test]
fn io_mut_shows_in_the_inner_function_only() {
    let with = expand(redis(), "fn f(mut a: u8) -> Result<u8, Oops> { Ok(a) }");
    let without = expand(redis(), "fn f(a: u8) -> Result<u8, Oops> { Ok(a) }");
    assert_eq!(tokens(&with).replace("inner ( mut a", "inner ( a"), tokens(&without));
}

#[test]
fn io_prefix_is_made_of_the_function_not_of_the_cache() {
    let args = IOMacroArgs { name: text("OTHER"), ..redis() };
    let got = expand(args, "fn f(n: u32) -> Result<u32, String> { Ok(n) }");
    assert!(holds(&got, r#"cached::RedisCache::new({ "cached::proc_macro::io_cached::F" }, 30u64)"#));
    assert!(holds(&got, "static OTHER:"));
    assert!(!tokens(&got).contains("io_cached::OTHER"));
}

#[test]
fn io_timed_store_in_memory() {
    let args = IOMacroArgs { time: Some(60), ..plain() };
    let got = expand(args, "fn f(n: u32) -> Result<u32, String> { Ok(n) }");
    same(
        &got,
        r##"
        #[doc = "Cached static for the [`f`] function."]
        static F: ::cached::once_cell::sync::Lazy<std::sync::Mutex<cached::TimedCache<(u32), u32> >> = ::cached::once_cell::sync::Lazy::new(|| std::sync::Mutex::new(cached::TimedCache::with_lifespan_and_refresh(60u64, false)));
        #[doc = "This is a cached function that uses the [`F`] cached static."]
        fn f(n: u32) -> Result<u32, String> {
            use cached::Cached;
            let key = (n.clone());
            {
                let mut cache = F.lock().unwrap();
                if let Some(result) = cache.cache_get(&key) {
                    return Ok(result.clone())
                }
            }
            fn inner(n: u32) -> Result<u32, String> { Ok(n) };
            let result = inner(n);
            let mut cache = F.lock().unwrap();
            if let Ok(result) = &result {
                cache.cache_set(key, result.clone());
            }
            result
        }
        #[doc = "Primes the cached function [`f`]."]
        #[allow(dead_code)]
        fn f_prime_cache(n: u32) -> Result<u32, String> {
            use cached::Cached;
            let key = (n.clone());
            let mut cache = F.lock().unwrap();
            fn inner(n: u32) -> Result<u32, String> { Ok(n) };
            let result = inner(n);
            if let Ok(result) = &result {
                cache.cache_set(key, result.clone());
            }
            result
        }
        "##,
    );
}

#[test]
fn io_timed_store_in_memory_async_with_flag() {
    let args = IOMacroArgs {
        time: Some(5),
        time_refresh: Some(true),
        with_cached_flag: true,
        cache_prefix_block: text(r#"{ "p" }"#),
        ..plain()
    };
    let got = expand(args, "async fn f(n: u32) -> Result<cached::Return<u32>, String> { go(n).await }");
    assert!(holds(&got, "::cached::async_sync::Mutex<cached::TimedCache<(u32), u32> >>"));
    assert!(holds(&got, "cached::TimedCache::with_lifespan_and_refresh(5u64, true)"));
    assert!(holds(
        &got,
        "let mut cache = F.lock().await; if let Some(result) = cache.cache_get(&key) { let mut r = ::cached::Return::new(result.clone()); r.was_cached = true; return Ok(r) }"
    ));
    assert!(holds(&got, "if let Ok(result) = &result { cache.cache_set(key, result.value.clone()); } result"));
    assert!(!tokens(&got).contains("map_err"));
}

#[test]
fn io_value_type_of_a_long_path() {
    let got = expand(redis(), "fn f(id: u8) -> std::result::Result<u32, Oops> { todo() }");
    assert!(holds(&got, "cached::RedisCache<(u8), u32>"));
    let got = expand(redis(), "fn f(id: u8) -> Result<cached::Return<u16>, Oops> { todo() }");
    assert!(holds(&got, "cached::RedisCache<(u8), u16>"));
}
