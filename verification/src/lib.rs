//! A typed event projection pipeline for an append-only stream of chain
//! events: a lossless numeric/identifier codec between domain scalars and
//! relational column encodings, a defensive event decoder, an
//! invariant-checked projector, and the small read-side utilities that
//! consume the projected tables.

pub mod component;
pub mod domain;
pub mod error;
pub mod pagination;
pub mod sql;
pub mod text;
pub mod web;
