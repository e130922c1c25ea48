//! Pseudo-default trait implementations.
//!
//! A developer records a "default" implementation of a trait under an alias
//! name, and later splices the recorded members into concrete implementation
//! blocks: members the target block defines itself win, the remaining
//! defaults are appended in their recorded order, and the trait reference is
//! rewritten from the alias to the real trait name.
//!
//! The crate works on source text: [`transform::default_trait_impl`] records
//! a block under its alias and emits nothing, [`transform::trait_impl`] looks
//! the alias up in a [`registry::Registry`], merges, and emits the finished
//! block as replacement source text.

pub mod block;
pub mod laws;
pub mod member;
pub mod parse;
pub mod registry;
pub mod render;
pub mod transform;
