# cached_proc_macro

The expansion of the caching attributes `#[cached]`, `#[once]` and `#[io_cached]`,
verified with Verus.

Each attribute turns a function into three items: a static that holds a cache, the
function with a lookup before its body and a write after it, and a function
`.._prime_cache` that fills the cache.

- `src/` is the library, from source text to source text.
  - `keyed`, `single` and `io` hold one attribute each: which arguments are accepted,
    and what text comes out.
  - `helpers`, `caching`, `expansion`, `steps`, `item`, `syntax` and `text` are what
    they share.
  - `rejection` says why an attribute is refused and what is reported.
  - `outside` holds the calls into `syn`, `quote`, `proc_macro2`, `unicode_ident` and
    std that are believed, not proved.
  - `laws` states what holds of all expansions; `meaning` what their code does when it
    runs, and `concurrency` what it does when calls run at the same time.
- `tests/` runs the library.
- `app/` reads the arguments of an attribute with `darling` and passes token streams
  between the compiler and the library. Built as a `proc-macro` crate, with the
  feature of that name, it exports the attributes.
