//! Expansion of the caching attributes `cached`, `once` and `io_cached`.
//!
//! An attribute on a function expands to three items: a static that holds the
//! cache, the function with a lookup before its body and a write after it, and a
//! function that primes the cache. This library is that expansion, from source
//! text to source text: [`cached`], [`once`] and [`io_cached`] take the arguments
//! of the attribute and the text of the function, and return the text of the
//! items, or a [`Rejection`] with what is to be reported.
//!
//! The contracts say what text comes out, and when. What the text does when it is
//! compiled and run is stated over the steps of the bodies, in [`meaning`], and of
//! calls that run at the same time in [`concurrency`]. What an expansion says is read
//! off its text in [`reading`], what expansions have in common is said in
//! [`comparing`], what is refused in [`refusing`], and what else holds of them as a
//! whole in [`laws`]; [`viewing`] says that the views leave nothing out. Rust source
//! is parsed and printed by outside crates, behind the functions of [`outside`].

pub mod args;
pub mod caching;
pub mod comparing;
pub mod concurrency;
pub mod expansion;
pub mod helpers;
pub mod io;
pub mod item;
pub mod keyed;
pub mod laws;
pub mod meaning;
pub mod outside;
pub mod reading;
pub mod refusing;
pub mod rejection;
pub mod single;
pub mod steps;
pub mod syntax;
pub mod text;
pub mod viewing;

pub use args::{IOMacroArgs, MacroArgs, OnceMacroArgs};
pub use io::io_cached;
pub use keyed::cached;
pub use rejection::{Reason, Rejection};
pub use single::once;
