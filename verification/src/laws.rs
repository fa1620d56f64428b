//! What holds of the expansions as a whole: when an attribute is accepted, what
//! its arguments decide, and what they leave alone.

use crate::args::{IOMacroArgs, MacroArgs, OnceMacroArgs};
use crate::expansion::{call_text, expansion, NamesView};
use crate::helpers::{
    argument_declarations, argument_key, argument_names, argument_types, doc_attribute,
    filled_attributes, flag_rejection, has_receiver, inner_type, names_return, signature,
    value_type, without_mut,
};
use crate::io::{
    io_body, io_flag_rejection, io_opening, io_outcome, io_plan, io_prime_body, io_static, io_texts,
    io_value_type, prefix_source, redis_create, timed_store,
};
use crate::item::{FnItemView, OutputView};
use crate::keyed::{
    built_in_store, cached_outcome, cached_plan, cached_texts, locked_opening, locked_static,
    store_type, StoreKind,
};
use crate::outside::{block_of, closure_of, is_ident, type_of, upper};
use crate::rejection::{because, Reason};
use crate::single::{
    once_opening, once_outcome, once_plan, once_static, once_store, once_texts,
};
use crate::steps::{body_text, cached_steps, once_steps, prime_steps};
use crate::syntax::{ArgumentView, AttributeView};
use crate::text::{contains, occurs_at, opt};
use vstd::prelude::*;

verus! {

// ---------------------------------------------------------------------------
// When an attribute is accepted
// ---------------------------------------------------------------------------
/// What all three attributes ask of a function and of its names: it takes no
/// `self`, it returns a `Return` where the cached flag is asked for, and the names
/// of the cache and of the priming function are identifiers.
pub open spec fn function_accepted(
    name: Option<Seq<char>>,
    with_cached_flag: bool,
    item: FnItemView,
) -> bool {
    &&& !has_receiver(item.arguments)
    &&& with_cached_flag ==> names_return(item.output)
    &&& is_ident(cache_ident(name, item))
    &&& is_ident(item.ident + "_prime_cache"@)
}

/// The name of the cache.
pub open spec fn cache_ident(name: Option<Seq<char>>, item: FnItemView) -> Seq<char> {
    match name {
        Some(name) => name,
        None => upper(item.ident),
    }
}

/// The function returns a path with an inner type: its last segment has something
/// in angle brackets.
pub open spec fn has_inner_type(output: Option<OutputView>) -> bool {
    output matches Some(o) && o.path matches Some(path) && inner_type(path) is Some
}

/// A value type can be found: `result` and `option` are not both set, and where
/// one is, the return type has an inner type.
pub open spec fn value_accepted(result: bool, option: bool, output: Option<OutputView>) -> bool {
    &&& !(result && option)
    &&& result || option ==> has_inner_type(output)
}

/// The arguments that make the key go together: `key` comes with `convert`, and
/// `convert` with `key` or `type`. What is given is a type and a block.
pub open spec fn key_accepted(
    key: Option<Seq<char>>,
    convert: Option<Seq<char>>,
    cache_type: bool,
) -> bool {
    &&& key matches Some(text) ==> convert is Some && type_of(text) is Ok
    &&& convert matches Some(text) ==> (key is Some || cache_type) && block_of(text) is Ok
}

/// At most one kind of store is asked for, `type` and `create` come together, and
/// are a type and a block.
pub open spec fn store_accepted(args: MacroArgs) -> bool {
    let bounded = args.size is Some || args.time is Some;
    let custom = args.cache_type is Some || args.cache_create is Some;
    &&& !(args.unbound && bounded)
    &&& !(args.unbound && custom)
    &&& !(bounded && custom)
    &&& args.cache_type is Some <==> args.cache_create is Some
    &&& args.cache_type matches Some(text) ==> type_of(text@) is Ok
    &&& args.cache_create matches Some(text) ==> block_of(text@) is Ok
}

/// `cached` expands exactly the functions that are accepted with arguments that
/// are: it refuses nothing else, in whatever order it looks.
pub proof fn law_cached_accepts(args: MacroArgs, item: FnItemView)
    ensures
        cached_outcome(args, item) is Ok <==> {
            &&& function_accepted(opt(args.name), args.with_cached_flag, item)
            &&& value_accepted(args.result, args.option, item.output)
            &&& key_accepted(opt(args.key), opt(args.convert), args.cache_type is Some)
            &&& store_accepted(args)
        },
{
}

/// `once` expands exactly the functions that are accepted with arguments that are.
pub proof fn law_once_accepts(args: OnceMacroArgs, item: FnItemView)
    ensures
        once_outcome(args, item) is Ok <==> {
            &&& function_accepted(opt(args.name), args.with_cached_flag, item)
            &&& value_accepted(args.result, args.option, item.output)
        },
{
}

/// The function returns a path with an inner type, which where the return type
/// names `Return` is itself a path with an inner type.
pub open spec fn io_value_accepted(output: Option<OutputView>) -> bool {
    &&& has_inner_type(output)
    &&& names_return(output) ==> {
        let inner = inner_type(output->0.path->0)->0;
        &&& type_of(inner) matches Ok(ty)
        &&& ty.path matches Some(path)
        &&& inner_type(path) is Some
    }
}

/// A store is given, or made: a type unless Redis or a lifespan is asked for, and a
/// construction, which goes with none of the arguments of the default ones, unless
/// there is a lifespan, and Redis is asked for or no type is given.
pub open spec fn io_store_accepted(args: IOMacroArgs, item: FnItemView) -> bool {
    &&& args.cache_type matches Some(text) ==> type_of(text@) is Ok
    &&& args.cache_type is None ==> args.redis || args.time is Some
    &&& args.cache_create matches Some(text) ==> {
        &&& args.time is None
        &&& args.time_refresh is None
        &&& args.cache_prefix_block is None
        &&& block_of(text@) is Ok
    }
    &&& args.cache_create is None ==> {
        &&& args.redis || args.cache_type is None
        &&& args.time is Some
        &&& args.redis || args.cache_prefix_block is Some ==> block_of(
            prefix_source(opt(args.cache_prefix_block), item.ident),
        ) is Ok
    }
}

/// `io_cached` expands exactly the functions that are accepted with arguments that
/// are.
pub proof fn law_io_cached_accepts(args: IOMacroArgs, item: FnItemView)
    ensures
        io_outcome(args, item) is Ok <==> {
            &&& function_accepted(opt(args.name), args.with_cached_flag, item)
            &&& io_value_accepted(item.output)
            &&& key_accepted(opt(args.key), opt(args.convert), args.cache_type is Some)
            &&& io_store_accepted(args, item)
            &&& closure_of(args.map_error@) is Ok
        },
{
}

/// No attribute is accepted on a method, and that is what the report says.
pub proof fn law_methods_refused(
    args: MacroArgs,
    once: OnceMacroArgs,
    io: IOMacroArgs,
    item: FnItemView,
)
    requires
        has_receiver(item.arguments),
    ensures
        cached_outcome(args, item) == Err::<Seq<char>, _>(because(Reason::Method)),
        once_outcome(once, item) == Err::<Seq<char>, _>(because(Reason::Method)),
        io_outcome(io, item) == Err::<Seq<char>, _>(because(Reason::Method)),
{
}

/// Where the cached flag is asked for on a function that returns no `Return`, the
/// answer is a compile error that shows the return type, whatever else the
/// arguments say.
pub proof fn law_flag_needs_return(
    args: MacroArgs,
    once: OnceMacroArgs,
    io: IOMacroArgs,
    item: FnItemView,
)
    requires
        !has_receiver(item.arguments),
        !names_return(item.output),
    ensures
        args.with_cached_flag ==> cached_outcome(args, item) == Err::<Seq<char>, _>(
            flag_rejection(item.output),
        ),
        once.with_cached_flag ==> once_outcome(once, item) == Err::<Seq<char>, _>(
            flag_rejection(item.output),
        ),
        io.with_cached_flag ==> io_outcome(io, item) == Err::<Seq<char>, _>(
            io_flag_rejection(item.output),
        ),
{
}

/// A return type that names `cached::Return` names `Return`.
pub proof fn law_qualified_return(path: Seq<char>)
    requires
        contains(path, "cached::Return"@),
    ensures
        contains(path, "Return"@),
{
    reveal_strlit("cached::Return");
    reveal_strlit("Return");
    let i = choose|i: int| #[trigger] occurs_at(path, "cached::Return"@, i);
    let whole = path.subrange(i, i + 14);
    assert(whole == "cached::Return"@);
    assert(whole.subrange(8, 14) == "Return"@);
    assert(path.subrange(i + 8, i + 14) == whole.subrange(8, 14));
    assert(occurs_at(path, "Return"@, i + 8));
}

// ---------------------------------------------------------------------------
// What the arguments decide
// ---------------------------------------------------------------------------
/// The names of an expansion: the cache has the given name or the function's in
/// upper case, and the priming function the function's with an ending, so that it
/// is never the function's own.
pub proof fn law_names(args: MacroArgs, once: OnceMacroArgs, io: IOMacroArgs, item: FnItemView)
    ensures
        cached_plan(args, item) matches Ok(plan) ==> {
            &&& plan.names.cache == cache_ident(opt(args.name), item)
            &&& plan.names.prime == item.ident + "_prime_cache"@
        },
        once_plan(once, item) matches Ok(plan) ==> {
            &&& plan.names.cache == cache_ident(opt(once.name), item)
            &&& plan.names.prime == item.ident + "_prime_cache"@
        },
        io_plan(io, item) matches Ok(plan) ==> {
            &&& plan.names.cache == cache_ident(opt(io.name), item)
            &&& plan.names.prime == item.ident + "_prime_cache"@
        },
        item.ident + "_prime_cache"@ != item.ident,
{
    reveal_strlit("_prime_cache");
    assert((item.ident + "_prime_cache"@).len() == item.ident.len() + 12);
}

/// The store of `cached`: without bounds unless a size, a lifespan, both, or a
/// store of its own is given.
pub proof fn law_store(args: MacroArgs, item: FnItemView)
    requires
        cached_plan(args, item) is Ok,
    ensures
        ({
            let plan = cached_plan(args, item)->Ok_0;
            let key = plan.key.ty;
            let value = value_type(args.result, args.option, item.output)->Ok_0;
            match (args.cache_type, args.size, args.time) {
                (Some(ty), _, _) => {
                    &&& plan.store.ty == type_of(ty@)->Ok_0.text
                    &&& plan.store.create == block_of(args.cache_create->0@)->Ok_0
                },
                (None, None, None) => plan.store == built_in_store(StoreKind::Unbound, key, value),
                (None, Some(size), None) => plan.store == built_in_store(
                    StoreKind::Sized { size },
                    key,
                    value,
                ),
                (None, None, Some(time)) => plan.store == built_in_store(
                    StoreKind::Timed { time, refresh: args.time_refresh },
                    key,
                    value,
                ),
                (None, Some(size), Some(time)) => plan.store == built_in_store(
                    StoreKind::TimedSized { size, time, refresh: args.time_refresh },
                    key,
                    value,
                ),
            }
        }),
{
}

/// The store of `io_cached`, where Redis is asked for and neither a type nor a
/// construction is given: the asynchronous Redis store for an asynchronous
/// function, and the other one for the others.
pub proof fn law_redis_store(io: IOMacroArgs, item: FnItemView)
    requires
        io_plan(io, item) is Ok,
        io.redis,
        io.cache_type is None,
        io.cache_create is None,
    ensures
        ({
            let plan = io_plan(io, item)->Ok_0;
            let value = io_value_type(item.output)->Ok_0;
            let prefix = prefix_source(opt(io.cache_prefix_block), item.ident);
            &&& plan.store.ty == store_type(
                if item.is_async {
                    "cached::AsyncRedisCache"@
                } else {
                    "cached::RedisCache"@
                },
                plan.key.ty,
                value,
            )
            &&& plan.store.create == redis_create(
                item.is_async,
                block_of(prefix)->Ok_0,
                io.time->0,
                io.time_refresh,
            )
        }),
{
}

/// Asking for a store without bounds is asking for nothing.
pub proof fn law_unbound_is_the_default(args: MacroArgs, item: FnItemView)
    requires
        args.size is None,
        args.time is None,
        args.cache_type is None,
        args.cache_create is None,
    ensures
        cached_outcome(MacroArgs { unbound: true, ..args }, item) == cached_outcome(
            MacroArgs { unbound: false, ..args },
            item,
        ),
{
    let with = MacroArgs { unbound: true, ..args };
    let without = MacroArgs { unbound: false, ..args };
    assert(cached_plan(with, item) == cached_plan(without, item));
}

/// Renewing the lifespan is of no consequence where there is no lifespan.
pub proof fn law_refresh_needs_time(args: MacroArgs, item: FnItemView)
    requires
        args.time is None,
    ensures
        cached_outcome(MacroArgs { time_refresh: true, ..args }, item) == cached_outcome(
            MacroArgs { time_refresh: false, ..args },
            item,
        ),
{
    let with = MacroArgs { time_refresh: true, ..args };
    let without = MacroArgs { time_refresh: false, ..args };
    assert(cached_plan(with, item) == cached_plan(without, item));
}

/// Not to give a name is to give the function's in upper case.
pub proof fn law_default_name(
    args: MacroArgs,
    once: OnceMacroArgs,
    io: IOMacroArgs,
    item: FnItemView,
    name: String,
)
    requires
        name@ == upper(item.ident),
    ensures
        cached_outcome(MacroArgs { name: None, ..args }, item) == cached_outcome(
            MacroArgs { name: Some(name), ..args },
            item,
        ),
        once_outcome(OnceMacroArgs { name: None, ..once }, item) == once_outcome(
            OnceMacroArgs { name: Some(name), ..once },
            item,
        ),
        io_outcome(IOMacroArgs { name: None, ..io }, item) == io_outcome(
            IOMacroArgs { name: Some(name), ..io },
            item,
        ),
{
    assert(cached_plan(MacroArgs { name: None, ..args }, item) == cached_plan(
        MacroArgs { name: Some(name), ..args },
        item,
    ));
    assert(once_plan(OnceMacroArgs { name: None, ..once }, item) == once_plan(
        OnceMacroArgs { name: Some(name), ..once },
        item,
    ));
    assert(io_plan(IOMacroArgs { name: None, ..io }, item) == io_plan(
        IOMacroArgs { name: Some(name), ..io },
        item,
    ));
}

/// The lifespan of `once` makes its store a timed one, with that lifespan.
pub proof fn law_once_timed_store(args: OnceMacroArgs, value: Seq<char>)
    ensures
        args.time matches Some(time) ==> once_store(args.time, value) == built_in_store(
            StoreKind::Timed { time, refresh: false },
            "()"@,
            value,
        ),
        args.time matches Some(time) ==> once_store(args.time, value).ty == store_type(
            "cached::TimedCache"@,
            "()"@,
            value,
        ),
{
}

/// The store of `io_cached`, where a lifespan is asked for, and neither Redis nor a
/// type: a timed one, with that lifespan.
pub proof fn law_io_timed_store(io: IOMacroArgs, item: FnItemView)
    requires
        io_plan(io, item) is Ok,
        !io.redis,
        io.cache_type is None,
    ensures
        ({
            let plan = io_plan(io, item)->Ok_0;
            let value = io_value_type(item.output)->Ok_0;
            &&& io.time is Some
            &&& plan.store == timed_store(io.time->0, io.time_refresh, plan.key.ty, value)
            &&& plan.store.ty == store_type("cached::TimedCache"@, plan.key.ty, value)
        }),
{
}

/// Of a Redis store, not to give a prefix is to give the name of the function in
/// upper case, under a prefix of all such caches.
pub proof fn law_default_prefix(io: IOMacroArgs, item: FnItemView, prefix: String)
    requires
        io.cache_create is None,
        io.redis,
        prefix@ == " { \"cached::proc_macro::io_cached::"@ + upper(item.ident) + "\" }"@,
    ensures
        io_outcome(IOMacroArgs { cache_prefix_block: None, ..io }, item) == io_outcome(
            IOMacroArgs { cache_prefix_block: Some(prefix), ..io },
            item,
        ),
{
    assert(io_plan(IOMacroArgs { cache_prefix_block: None, ..io }, item) == io_plan(
        IOMacroArgs { cache_prefix_block: Some(prefix), ..io },
        item,
    ));
}

/// The store of `io_cached`, with the prefix of its keys, does not depend on the
/// name that the cache is given.
pub proof fn law_prefix_ignores_the_name(
    io: IOMacroArgs,
    item: FnItemView,
    name: Option<String>,
)
    ensures
        ({
            let one = io_plan(io, item);
            let other = io_plan(IOMacroArgs { name, ..io }, item);
            one is Ok && other is Ok ==> one->Ok_0.store == other->Ok_0.store
        }),
{
}

// ---------------------------------------------------------------------------
// What an expansion leaves alone
// ---------------------------------------------------------------------------
/// The arguments, none of them mutable.
pub open spec fn immutable(arguments: Seq<ArgumentView>) -> Seq<ArgumentView> {
    Seq::new(
        arguments.len(),
        |i: int|
            match arguments[i] {
                ArgumentView::Receiver => ArgumentView::Receiver,
                ArgumentView::Typed { attributes, pattern, ty } => ArgumentView::Typed {
                    attributes,
                    pattern: without_mut(pattern),
                    ty,
                },
            },
    )
}

/// What the expansions read of the arguments does not show a `mut`.
proof fn lemma_immutable(item: FnItemView)
    ensures
        ({
            let fixed = FnItemView { arguments: immutable(item.arguments), ..item };
            &&& has_receiver(fixed.arguments) == has_receiver(item.arguments)
            &&& argument_key(fixed.arguments) == argument_key(item.arguments)
            &&& call_text(fixed) == call_text(item)
            &&& forall|ident: Seq<char>| #[trigger]
                signature(fixed, ident) == signature(item, ident)
        }),
{
    let fixed = FnItemView { arguments: immutable(item.arguments), ..item };
    assert forall|i: int| 0 <= i < item.arguments.len() implies (#[trigger] fixed.arguments[
        i
    ] is Receiver) == (item.arguments[i] is Receiver) by {}
    if has_receiver(item.arguments) {
        let i = choose|i: int|
            0 <= i < item.arguments.len() && #[trigger] item.arguments[i] is Receiver;
        assert(fixed.arguments[i] is Receiver);
    }
    assert(argument_types(fixed.arguments) =~= argument_types(item.arguments));
    assert(argument_names(fixed.arguments) =~= argument_names(item.arguments));
    assert(argument_declarations(fixed.arguments) =~= argument_declarations(item.arguments));
}

/// Outside the function's own argument list, a `mut` on an argument is nowhere to
/// be seen.
pub proof fn law_mut_is_hidden(
    args: MacroArgs,
    once: OnceMacroArgs,
    io: IOMacroArgs,
    item: FnItemView,
)
    ensures
        cached_outcome(args, FnItemView { arguments: immutable(item.arguments), ..item })
            == cached_outcome(args, item),
        once_outcome(once, FnItemView { arguments: immutable(item.arguments), ..item })
            == once_outcome(once, item),
        io_outcome(io, FnItemView { arguments: immutable(item.arguments), ..item }) == io_outcome(
            io,
            item,
        ),
{
    let fixed = FnItemView { arguments: immutable(item.arguments), ..item };
    lemma_immutable(item);
    assert(cached_plan(args, fixed) == cached_plan(args, item));
    if let Ok(plan) = cached_plan(args, item) {
        assert(cached_texts(args, fixed, plan) == cached_texts(args, item, plan));
        lemma_same_frame(
            fixed,
            item,
            plan.names,
            locked_static(item, plan.names.cache, plan.store),
            locked_opening(plan.key),
            body_text(cached_steps(args.sync_writes), cached_texts(args, item, plan)),
            body_text(prime_steps(), cached_texts(args, item, plan)),
        );
    }
    assert(once_plan(once, fixed) == once_plan(once, item));
    if let Ok(plan) = once_plan(once, item) {
        assert(once_texts(once, fixed, plan) == once_texts(once, item, plan));
        lemma_same_frame(
            fixed,
            item,
            plan.names,
            once_static(once, item, plan),
            once_opening(once.time),
            body_text(
                once_steps(once.sync_writes, once.time is Some),
                once_texts(once, item, plan),
            ),
            body_text(prime_steps(), once_texts(once, item, plan)),
        );
    }
    assert(io_plan(io, fixed) == io_plan(io, item));
    if let Ok(plan) = io_plan(io, item) {
        assert(io_texts(io, fixed, plan) == io_texts(io, item, plan));
        lemma_same_frame(
            fixed,
            item,
            plan.names,
            io_static(io, item, plan),
            io_opening(io, item.is_async, plan),
            body_text(io_body(io), io_texts(io, item, plan)),
            body_text(io_prime_body(io), io_texts(io, item, plan)),
        );
    }
}

/// Two functions with the same signatures have the same frame.
proof fn lemma_same_frame(
    one: FnItemView,
    other: FnItemView,
    names: NamesView,
    cache: Seq<char>,
    opening: Seq<char>,
    body: Seq<char>,
    prime_body: Seq<char>,
)
    requires
        one.attributes == other.attributes,
        one.visibility == other.visibility,
        one.ident == other.ident,
        signature(one, one.ident) == signature(other, one.ident),
        signature(one, names.prime) == signature(other, names.prime),
    ensures
        expansion(one, names, cache, opening, body, prime_body) == expansion(
            other,
            names,
            cache,
            opening,
            body,
            prime_body,
        ),
{
}

/// The cached function keeps its attributes, in their order, and its doc comment
/// ends by saying which cache it uses.
pub proof fn law_attributes_kept(attributes: Seq<AttributeView>, lit: Seq<char>)
    ensures
        ({
            let filled = filled_attributes(attributes, lit);
            &&& filled.len() > attributes.len()
            &&& forall|i: int|
                0 <= i < attributes.len() ==> #[trigger] filled[i] == attributes[i].text
            &&& filled.last() == doc_attribute(lit)
        }),
{
}

} // verus!
