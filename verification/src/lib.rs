//! Projects the performance-point (PP) gain of a hypothetical rhythm-game play.
//!
//! The crate covers the pure core of that estimate: the per-mode modifier
//! catalog and its bitmask resolution, the normalization of user judgement
//! input into a per-mode record, the mapping of that record onto the field
//! names of the external performance calculator, and the weighted total-PP
//! aggregation (descending sort, geometric decay, top-100 truncation).
//!
//! Network retrieval, terminal prompting, and the performance calculator
//! itself are external collaborators; they exchange plain values with this
//! crate and are not part of it.

pub mod judgements;
pub mod modes;
pub mod mods;
pub mod weighting;

pub use modes::GameMode;
