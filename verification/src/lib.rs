//! Core of a turn-based monster-battle engine: exact damage arithmetic,
//! stage-modifier bookkeeping, type effectiveness, and the parsing of the
//! flat-file move and monster records.
//!
//! All multipliers in the damage model (stage multipliers, the same-type
//! bonus, type effectiveness, the fixed 30/100 scaling) are rational, so the
//! engine carries damage as an exact fraction of integers; callers that want
//! an approximate decimal divide the two parts at the edge.

pub mod chart;
pub mod monster;
pub mod parse;
pub mod stages;
pub mod strutil;
