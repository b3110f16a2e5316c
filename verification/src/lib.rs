//! A regular-expression adapter with JavaScript-flavored semantics.
//!
//! The adapter owns a compiled pattern together with its original flag
//! string, and exposes the JS-style operations `test`, `exec`, `match`,
//! `replace`, `search` and `split`. Matching itself is delegated to the
//! `regex` crate; the adapter's own logic (flag handling, global-mode
//! branching, result shaping) is verified.

mod adapter;
pub mod engine;

pub use adapter::InvalidPattern;
pub use adapter::Regolith;
pub use adapter::flag_seq;
