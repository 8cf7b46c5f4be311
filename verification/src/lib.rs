//! Source generation for a `ToTokenStream` derive.
//!
//! Given the declared shape of a struct or enum — its name, its attributes,
//! its generic text and its field layout — this crate builds the source text
//! of an `impl rustifact::ToTokenStream` block that turns a runtime value of
//! that type back into a matching literal expression, delegating to each
//! field's own conversion. The text of every generated impl is pinned down
//! exactly by spec functions, and a thin trusted layer hands the finished
//! text to `proc_macro2` to be lexed into a token stream.

pub mod driver;
pub mod model;
pub mod generate;
pub mod text;
