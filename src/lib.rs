//! Typestate builder synthesis.
//!
//! Given a normalized description of a callable's parameters (or a struct's
//! fields), this library decides which setters a builder exposes, which of
//! them accept "anything convertible" values, how each setter transitions the
//! builder's per-field state tuple, and how an impl block is split and
//! reassembled around the generated items.
pub mod error;
pub mod field;
pub mod item_impl;
pub mod setters;
pub mod text;
pub mod ty;
pub mod typestate;
