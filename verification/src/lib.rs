//! Lazy composition of weighted finite-state transducers: the matcher
//! abstraction that locates candidate transitions by label, the sequence
//! compose-filter that disambiguates epsilon interleavings, the append-only
//! result cache for on-demand state expansion, and the topological-order
//! queue discipline used by graph-exploration passes over the composed
//! result.

pub mod cache;
pub mod closure;
pub mod compare;
pub mod error;
pub mod filter;
pub mod fst;
pub mod matcher;
pub mod queue;
pub mod semiring;
pub mod topsort;
pub mod tr;
