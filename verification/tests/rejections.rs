use cached_proc_macro::{
    cached, io_cached, once, IOMacroArgs, MacroArgs, OnceMacroArgs, Reason, Rejection,
};

fn text(s: &str) -> Option<String> {
    Some(s.to_string())
}

fn io() -> IOMacroArgs {
    IOMacroArgs {
        map_error: "|e| e".to_string(),
        redis: true,
        cache_prefix_block: None,
        name: None,
        time: Some(1),
        time_refresh: None,
        key: None,
        convert: None,
        with_cached_flag: false,
        cache_type: None,
        cache_create: None,
    }
}

const PLAIN: &str = "fn f(a: u8) -> u8 { a }";
const FALLIBLE: &str = "fn f(a: u8) -> Result<u8, String> { Ok(a) }";

/// A panic with exactly this message.
fn panics(r: Result<String, Rejection>, reason: Reason, message: &str) {
    let e = r.unwrap_err();
    assert_eq!(e.reason, reason);
    assert!(!e.is_tokens());
    assert_eq!(e.message(), message);
}

/// A panic whose message ends in the debug notation of a parse error.
fn panics_on_syntax(r: Result<String, Rejection>, reason: Reason, start: &str) {
    let e = r.unwrap_err();
    assert_eq!(e.reason, reason);
    assert!(!e.is_tokens());
    let message = e.message();
    assert!(message.starts_with(start), "{}", message);
    let error = &message[start.len()..];
    assert!(error.starts_with("Error(\"") && error.ends_with("\")"), "{}", message);
}

/// Tokens in place of the function.
fn compile_fails(r: Result<String, Rejection>, reason: Reason, message: &str) {
    let e = r.unwrap_err();
    assert_eq!(e.reason, reason);
    assert!(e.is_tokens());
    assert_eq!(e.message(), format!("compile_error ! {{ {:?} }}", message));
}

#[test]
fn not_a_function() {
    let input = "fn f(a: u8) -> u8;";
    compile_fails(cached(&MacroArgs::default(), input), Reason::Syntax, "expected curly braces");
    compile_fails(once(&OnceMacroArgs::default(), input), Reason::Syntax, "expected curly braces");
    compile_fails(io_cached(&io(), input), Reason::Syntax, "expected curly braces");
    let e = cached(&MacroArgs::default(), "fn f( {").unwrap_err();
    assert_eq!(e.reason, Reason::Syntax);
    assert!(e.message().starts_with("compile_error ! { \""));
}

#[test]
fn flag_without_return() {
    let message = "\nWhen specifying `with_cached_flag = true`, the return type must be wrapped in `cached::Return<T>`. \nThe following return types are supported: \n|    `cached::Return<T>`\n|    `std::result::Result<cached::Return<T>, E>`\n|    `std::option::Option<cached::Return<T>>`\nFound type: Vec<(u8,u8)>.";
    let input = "fn f(a: u8) -> Vec<(u8, u8)> { vec![] }";
    let args = MacroArgs { with_cached_flag: true, ..MacroArgs::default() };
    compile_fails(cached(&args, input), Reason::CachedFlag, message);
    let args = OnceMacroArgs { with_cached_flag: true, ..OnceMacroArgs::default() };
    compile_fails(once(&args, input), Reason::CachedFlag, message);
    let message = "\nWhen specifying `with_cached_flag = true`, the return type must be wrapped in `cached::Return<T>`. \nThe following return types are supported: \n|    `Result<cached::Return<T>, E>`\nFound type: ().";
    let args = IOMacroArgs { with_cached_flag: true, ..io() };
    compile_fails(io_cached(&args, "fn f() {}"), Reason::CachedFlag, message);
}

#[test]
fn return_inside_brackets_is_not_seen() {
    let args = MacroArgs { with_cached_flag: true, ..MacroArgs::default() };
    let e = cached(&args, "fn f() -> (cached::Return<u8>, u8) { todo() }").unwrap_err();
    assert_eq!(e.reason, Reason::CachedFlag);
    assert!(cached(&args, "fn f() -> NoReturnAtAll { todo() }").is_ok());
}

#[test]
fn methods() {
    let message = "methods (functions taking 'self') are not supported";
    for input in ["fn f(&self) -> u8 { 1 }", "fn f(mut self, a: u8) -> u8 { a }"] {
        panics(cached(&MacroArgs::default(), input), Reason::Method, message);
        panics(once(&OnceMacroArgs::default(), input), Reason::Method, message);
        panics(io_cached(&io(), input), Reason::Method, message);
    }
}

#[test]
fn result_and_option() {
    let message = "the result and option attributes are mutually exclusive";
    let args = MacroArgs { result: true, option: true, ..MacroArgs::default() };
    panics(cached(&args, FALLIBLE), Reason::ResultAndOption, message);
    let args = OnceMacroArgs { result: true, option: true, ..OnceMacroArgs::default() };
    panics(once(&args, FALLIBLE), Reason::ResultAndOption, message);
}

#[test]
fn no_value_type() {
    let args = MacroArgs { result: true, ..MacroArgs::default() };
    panics(
        cached(&args, "fn f() {}"),
        Reason::NoReturnType,
        "function must return something for result or option attributes",
    );
    panics(cached(&args, PLAIN), Reason::NoInnerType, "function return type has no inner type");
    for ty in ["Result<>", "Fn(u8) -> u8", "Result<u8, u8>::Inner"] {
        panics(
            cached(&args, &format!("fn f() -> {} {{ todo() }}", ty)),
            Reason::NoInnerType,
            "function return type has no inner type",
        );
    }
    panics(
        cached(&args, "fn f() -> &'static Result<u8, u8> { todo() }"),
        Reason::ReturnTypeTooComplex,
        "function return type too complex",
    );
    let args = OnceMacroArgs { option: true, ..OnceMacroArgs::default() };
    panics(once(&args, PLAIN), Reason::NoInnerType, "function return type has no inner type");
}

#[test]
fn names_that_are_no_identifiers() {
    for (name, shown) in [
        ("a b", "\"a b\" is not a valid Ident"),
        ("", "\"\" is not a valid Ident"),
        ("1a", "\"1a\" is not a valid Ident"),
        ("r#fn", "\"r#fn\" is not a valid Ident"),
    ] {
        let args = MacroArgs { name: text(name), ..MacroArgs::default() };
        panics(cached(&args, PLAIN), Reason::Name, shown);
        let args = OnceMacroArgs { name: text(name), ..OnceMacroArgs::default() };
        panics(once(&args, PLAIN), Reason::Name, shown);
        let args = IOMacroArgs { name: text(name), ..io() };
        panics(io_cached(&args, FALLIBLE), Reason::Name, shown);
    }
    panics(
        cached(&MacroArgs::default(), "fn r#try(a: u8) -> u8 { a }"),
        Reason::Name,
        "\"R#TRY\" is not a valid Ident",
    );
    let args = MacroArgs { name: text("TRY"), ..MacroArgs::default() };
    panics(
        cached(&args, "fn r#try(a: u8) -> u8 { a }"),
        Reason::Name,
        "\"r#try_prime_cache\" is not a valid Ident",
    );
    for name in ["_", "_1", "\u{e4}b", "Mixed_2"] {
        let args = MacroArgs { name: text(name), ..MacroArgs::default() };
        assert!(cached(&args, PLAIN).is_ok());
    }
}

#[test]
fn keys() {
    let args = MacroArgs { key: text("u8"), ..MacroArgs::default() };
    panics(cached(&args, PLAIN), Reason::KeyWithoutConvert, "key requires convert to be set");
    let args = MacroArgs { convert: text("{ a }"), ..MacroArgs::default() };
    panics(
        cached(&args, PLAIN),
        Reason::ConvertWithoutKey,
        "convert requires key or type to be set",
    );
    let args = IOMacroArgs { key: text("u8"), ..io() };
    panics(io_cached(&args, FALLIBLE), Reason::KeyWithoutConvert, "key requires convert to be set");
    let args = IOMacroArgs { convert: text("{ a }"), ..io() };
    panics(
        io_cached(&args, FALLIBLE),
        Reason::ConvertWithoutKey,
        "convert requires key or type to be set",
    );
    let args = MacroArgs { key: text("u8 u8"), convert: text("{ a }"), ..MacroArgs::default() };
    panics(
        cached(&args, PLAIN),
        Reason::KeySyntax,
        "unable to parse cache key type: Error(\"unexpected token\")",
    );
    let args = MacroArgs { key: text("u8"), convert: text("a"), ..MacroArgs::default() };
    panics(
        cached(&args, PLAIN),
        Reason::ConvertSyntax,
        "unable to parse key convert block: Error(\"expected curly braces\")",
    );
}

#[test]
fn stores() {
    let own = MacroArgs {
        cache_type: text("S"),
        cache_create: text("{ S }"),
        ..MacroArgs::default()
    };
    assert!(cached(&own, PLAIN).is_ok());
    let conflict =
        "cache types (unbound, size and/or time, or type and create) are mutually exclusive";
    for args in [
        MacroArgs { unbound: true, ..own.clone() },
        MacroArgs { size: Some(1), ..own.clone() },
        MacroArgs { time: Some(1), ..own.clone() },
        MacroArgs { cache_create: None, size: Some(1), ..own.clone() },
        MacroArgs { unbound: true, size: Some(1), ..MacroArgs::default() },
        MacroArgs { unbound: true, time: Some(1), ..MacroArgs::default() },
    ] {
        panics(cached(&args, PLAIN), Reason::StoreConflict, conflict);
    }
    panics(
        cached(&MacroArgs { cache_create: None, ..own.clone() }, PLAIN),
        Reason::TypeWithoutCreate,
        "type requires create to also be set",
    );
    panics(
        cached(&MacroArgs { cache_type: None, ..own.clone() }, PLAIN),
        Reason::CreateWithoutType,
        "create requires type to also be set",
    );
    panics_on_syntax(
        cached(&MacroArgs { cache_type: text("1"), ..own.clone() }, PLAIN),
        Reason::CacheTypeSyntax,
        "unable to parse cache type: ",
    );
    panics_on_syntax(
        cached(&MacroArgs { cache_create: text("S"), ..own.clone() }, PLAIN),
        Reason::CreateSyntax,
        "unable to parse cache create block: ",
    );
}

#[test]
fn io_value_types() {
    panics(
        io_cached(&io(), "fn f() {}"),
        Reason::IoNoReturnType,
        "#[io_cached] functions must return `Result`s, found \"()\"",
    );
    panics(
        io_cached(&io(), PLAIN),
        Reason::IoNoResult,
        "#[io_cached] functions must return `Result`s",
    );
    panics(
        io_cached(&io(), "fn f() -> (u8, u8) { todo() }"),
        Reason::IoReturnTypeTooComplex,
        "function return type too complex, #[io_cached] functions must return `Result`s",
    );
    panics(
        io_cached(&io(), "fn f() -> Result<> { todo() }"),
        Reason::IoNoResult,
        "#[io_cached] functions must return `Result`s",
    );
    panics(
        io_cached(&io(), "fn f() -> Result<Return, E> { todo() }"),
        Reason::IoValueType,
        "#[io_cached] unable to determine cache value type, found \"Result<Return,E>\"",
    );
    panics(
        io_cached(&io(), "fn f() -> Result<'a, Return<u8>> { todo() }"),
        Reason::IoValueType,
        "#[io_cached] unable to determine cache value type, found \"Result<'a,Return<u8>>\"",
    );
    panics(
        io_cached(&io(), "fn f() -> Result<&u8, Return<u8>> { todo() }"),
        Reason::IoValueType,
        "#[io_cached] unable to determine cache value type, found \"Result<&u8,Return<u8>>\"",
    );
    panics(
        io_cached(&io(), "fn f() -> Result<Return<>, E> { todo() }"),
        Reason::IoValueType,
        "#[io_cached] unable to determine cache value type, found \"Result<Return<>,E>\"",
    );
}

#[test]
fn io_stores() {
    let create = IOMacroArgs { time: None, cache_create: text("{ R }"), ..io() };
    assert!(io_cached(&create, FALLIBLE).is_ok());
    let conflict =
        "cannot specify `time`, `time_refresh`, or `cache_prefix` when passing `create block";
    for redis in [true, false] {
        let create = IOMacroArgs { redis, cache_type: text("R"), ..create.clone() };
        for args in [
            IOMacroArgs { time: Some(1), ..create.clone() },
            IOMacroArgs { time_refresh: Some(false), ..create.clone() },
            IOMacroArgs { cache_prefix_block: text("{ 1 }"), ..create.clone() },
        ] {
            panics(io_cached(&args, FALLIBLE), Reason::IoCreateConflict, conflict);
        }
        panics_on_syntax(
            io_cached(&IOMacroArgs { cache_type: text("1"), ..create.clone() }, FALLIBLE),
            Reason::CacheTypeSyntax,
            "unable to parse cache type: ",
        );
        panics_on_syntax(
            io_cached(&IOMacroArgs { cache_create: text("R"), ..create.clone() }, FALLIBLE),
            Reason::CreateSyntax,
            "unable to parse cache create block: ",
        );
    }
    panics(
        io_cached(&IOMacroArgs { time: None, ..io() }, FALLIBLE),
        Reason::IoRedisTime,
        "RedisCache requires a `time` when `create` block is not specified",
    );
    panics(
        io_cached(
            &IOMacroArgs { time: None, ..io() },
            "async fn f(a: u8) -> Result<u8, String> { Ok(a) }",
        ),
        Reason::IoAsyncRedisTime,
        "AsyncRedisCache requires a `time` when `create` block is not specified",
    );
    panics(
        io_cached(&IOMacroArgs { redis: false, time: None, ..io() }, FALLIBLE),
        Reason::IoNoType,
        "#[io_cached] cache `type` must be specified",
    );
    panics(
        io_cached(&IOMacroArgs { redis: false, cache_type: text("R"), ..io() }, FALLIBLE),
        Reason::IoNoCreate,
        "#[io_cached] cache `create` block must be specified",
    );
    panics(
        io_cached(&IOMacroArgs { redis: false, cache_create: text("{ R }"), ..io() }, FALLIBLE),
        Reason::IoCreateConflict,
        conflict,
    );
    for redis in [true, false] {
        let args = IOMacroArgs { redis, cache_prefix_block: text("\"p\""), ..io() };
        panics_on_syntax(
            io_cached(&args, FALLIBLE),
            Reason::PrefixSyntax,
            "unable to parse cache_prefix_block: ",
        );
    }
}

#[test]
fn io_error_maps() {
    let args = IOMacroArgs { map_error: "e".to_string(), ..io() };
    panics_on_syntax(
        io_cached(&args, FALLIBLE),
        Reason::MapErrorSyntax,
        "unable to parse map_error block: ",
    );
}

#[test]
fn first_things_first() {
    // The flag is looked at before the names, the value type before the key, and
    // the key before the store.
    let args = MacroArgs {
        name: text("1"),
        with_cached_flag: true,
        key: text("u8"),
        unbound: true,
        size: Some(1),
        result: true,
        ..MacroArgs::default()
    };
    assert_eq!(cached(&args, PLAIN).unwrap_err().reason, Reason::CachedFlag);
    let args = MacroArgs { with_cached_flag: false, ..args };
    assert_eq!(cached(&args, PLAIN).unwrap_err().reason, Reason::NoInnerType);
    let args = MacroArgs { result: false, ..args };
    assert_eq!(cached(&args, PLAIN).unwrap_err().reason, Reason::Name);
    let args = MacroArgs { name: None, ..args };
    assert_eq!(cached(&args, PLAIN).unwrap_err().reason, Reason::KeyWithoutConvert);
    let args = MacroArgs { key: None, ..args };
    assert_eq!(cached(&args, PLAIN).unwrap_err().reason, Reason::StoreConflict);
}

#[test]
fn report_of_a_return_type_that_does_not_parse() {
    let e = Rejection { reason: Reason::ReturnTypeSyntax, detail: "LexError".to_string() };
    assert!(!e.is_tokens());
    assert_eq!(e.message(), "unable to parse return type: LexError");
}
