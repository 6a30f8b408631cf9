//! Judgement input and its mapping onto the external calculator.
//!
//! A play is described in one of two styles: by overall accuracy and miss
//! count, or by exact per-category judgement counts whose shape depends
//! on the game mode. Either style, together with mode, mod bitmask and an
//! optional combo, forms the read-only parameter set handed to the
//! external performance calculator.

use vstd::prelude::*;
use crate::modes::GameMode;

verus! {

/// How the user chose to describe the play.
#[derive(Clone, Copy, Debug, PartialEq, Eq, Structural)]
pub enum ScoreInputMode {
    /// Accuracy, combo and misses.
    Simple,
    /// Exact judgement counts.
    Detailed,
}

impl ScoreInputMode {
    /// The display name of the input style.
    pub open spec fn label_spec(self) -> Seq<char> {
        match self {
            ScoreInputMode::Simple => "Simple"@,
            ScoreInputMode::Detailed => "Detailed"@,
        }
    }

    /// Returns the display name of the input style.
    pub fn label(&self) -> (s: String)
        ensures
            s@ == self.label_spec(),
    {
        match self {
            ScoreInputMode::Simple => "Simple".to_owned(),
            ScoreInputMode::Detailed => "Detailed".to_owned(),
        }
    }
}

/// Exact judgement counts, one shape per game mode. The shape of a value
/// must match the mode of the play it describes; the per-mode builders
/// below enforce that by construction.
#[derive(Clone, Copy, Debug, PartialEq, Eq, Structural)]
pub enum DetailedJudgements {
    /// osu!standard counts.
    Osu { n300: u32, n100: u32, n50: u32, misses: u32 },
    /// osu!taiko counts.
    Taiko { n300: u32, n100: u32, misses: u32 },
    /// osu!catch counts.
    Catch {
        fruits: u32,
        droplets: u32,
        tiny_droplets: u32,
        tiny_droplet_misses: u32,
        misses: u32,
    },
    /// osu!mania counts.
    Mania { n320: u32, n300: u32, n200: u32, n100: u32, n50: u32, misses: u32 },
}

impl DetailedJudgements {
    /// Whether this value's shape belongs to the given mode.
    pub open spec fn matches_mode(self, mode: GameMode) -> bool {
        match (self, mode) {
            (DetailedJudgements::Osu { .. }, GameMode::Osu) => true,
            (DetailedJudgements::Taiko { .. }, GameMode::Taiko) => true,
            (DetailedJudgements::Catch { .. }, GameMode::Catch) => true,
            (DetailedJudgements::Mania { .. }, GameMode::Mania) => true,
            _ => false,
        }
    }
}

/// Builds the osu!standard judgement record.
pub fn detailed_osu(n300: u32, n100: u32, n50: u32, misses: u32) -> (d: DetailedJudgements)
    ensures
        d == (DetailedJudgements::Osu { n300, n100, n50, misses }),
        d.matches_mode(GameMode::Osu),
{
    DetailedJudgements::Osu { n300, n100, n50, misses }
}

/// Builds the osu!taiko judgement record.
pub fn detailed_taiko(n300: u32, n100: u32, misses: u32) -> (d: DetailedJudgements)
    ensures
        d == (DetailedJudgements::Taiko { n300, n100, misses }),
        d.matches_mode(GameMode::Taiko),
{
    DetailedJudgements::Taiko { n300, n100, misses }
}

/// Builds the osu!catch judgement record.
pub fn detailed_catch(
    fruits: u32,
    droplets: u32,
    tiny_droplets: u32,
    tiny_droplet_misses: u32,
    misses: u32,
) -> (d: DetailedJudgements)
    ensures
        d == (DetailedJudgements::Catch {
            fruits,
            droplets,
            tiny_droplets,
            tiny_droplet_misses,
            misses,
        }),
        d.matches_mode(GameMode::Catch),
{
    DetailedJudgements::Catch { fruits, droplets, tiny_droplets, tiny_droplet_misses, misses }
}

/// Builds the osu!mania judgement record.
pub fn detailed_mania(
    n320: u32,
    n300: u32,
    n200: u32,
    n100: u32,
    n50: u32,
    misses: u32,
) -> (d: DetailedJudgements)
    ensures
        d == (DetailedJudgements::Mania { n320, n300, n200, n100, n50, misses }),
        d.matches_mode(GameMode::Mania),
{
    DetailedJudgements::Mania { n320, n300, n200, n100, n50, misses }
}

/// The normalized description of a play: exactly one of the two input
/// styles is active.
#[derive(Clone, Copy, Debug, PartialEq, Eq, Structural)]
pub enum JudgementInput {
    /// Accuracy and miss count. The accuracy percentage is carried as the
    /// bit pattern of its 64-bit floating-point value and passed through
    /// uninterpreted to the external calculator, which owns its domain
    /// validation.
    Simple { accuracy_bits: u64, misses: u32 },
    /// Exact per-category judgement counts.
    Detailed(DetailedJudgements),
}

impl JudgementInput {
    /// Whether the value may describe a play of the given mode: a simple
    /// description fits every mode, a detailed one only its own.
    pub open spec fn matches_mode(self, mode: GameMode) -> bool {
        match self {
            JudgementInput::Simple { .. } => true,
            JudgementInput::Detailed(d) => d.matches_mode(mode),
        }
    }
}

/// Normalizes the simple input style: accuracy (as its bit pattern) and
/// a miss count.
pub fn normalize_simple(accuracy_bits: u64, misses: u32) -> (j: JudgementInput)
    ensures
        j == (JudgementInput::Simple { accuracy_bits, misses }),
        forall|mode: GameMode| j.matches_mode(mode),
{
    JudgementInput::Simple { accuracy_bits, misses }
}

/// Normalizes the detailed input style. The record's shape must belong
/// to the given mode: a cross-mode record is a contract violation of the
/// caller, not a recoverable condition.
pub fn normalize_detailed(mode: GameMode, d: DetailedJudgements) -> (j: JudgementInput)
    requires
        d.matches_mode(mode),
    ensures
        j == JudgementInput::Detailed(d),
        j.matches_mode(mode),
{
    JudgementInput::Detailed(d)
}

/// The fully-resolved parameter set for the external calculator: mode,
/// mod bitmask, optional combo (absent means "assume full combo"), and
/// the judgement description. Read-only once built.
#[derive(Clone, Copy, Debug, PartialEq, Eq, Structural)]
pub struct PerformanceInput {
    pub mode: GameMode,
    pub mod_bits: u32,
    pub combo: Option<u32>,
    pub judgement: JudgementInput,
}

impl PerformanceInput {
    /// A detailed judgement's shape agrees with the mode.
    pub open spec fn well_formed(self) -> bool {
        self.judgement.matches_mode(self.mode)
    }

    /// Assembles the parameter set. Pure value assembly; the judgement
    /// must fit the mode.
    pub fn new(
        mode: GameMode,
        mod_bits: u32,
        combo: Option<u32>,
        judgement: JudgementInput,
    ) -> (p: PerformanceInput)
        requires
            judgement.matches_mode(mode),
        ensures
            p == (PerformanceInput { mode, mod_bits, combo, judgement }),
            p.well_formed(),
    {
        PerformanceInput { mode, mod_bits, combo, judgement }
    }
}

/// Judgement counts under the external calculator's field names. `None`
/// means the field is not set for the play's mode.
#[derive(Clone, Copy, Debug, PartialEq, Eq, Structural)]
pub struct CalculatorCounts {
    pub n_geki: Option<u32>,
    pub n300: Option<u32>,
    pub n_katu: Option<u32>,
    pub n100: Option<u32>,
    pub n50: Option<u32>,
    pub large_tick_hits: Option<u32>,
    pub small_tick_hits: Option<u32>,
    pub misses: u32,
}

/// The fixed, mode-keyed mapping of judgement categories onto the
/// calculator's field names. Standard and taiko counts map onto the
/// fields of the same name. For catch, fruits fill the calculator's
/// `n300` slot, droplets its large-tick slot, tiny droplets its
/// small-tick slot, and tiny droplet misses its `n_katu` slot. For
/// mania, MAX judgements fill `n_geki` and 200s fill `n_katu`.
pub open spec fn calculator_counts_spec(d: DetailedJudgements) -> CalculatorCounts {
    match d {
        DetailedJudgements::Osu { n300, n100, n50, misses } => CalculatorCounts {
            n_geki: None,
            n300: Some(n300),
            n_katu: None,
            n100: Some(n100),
            n50: Some(n50),
            large_tick_hits: None,
            small_tick_hits: None,
            misses,
        },
        DetailedJudgements::Taiko { n300, n100, misses } => CalculatorCounts {
            n_geki: None,
            n300: Some(n300),
            n_katu: None,
            n100: Some(n100),
            n50: None,
            large_tick_hits: None,
            small_tick_hits: None,
            misses,
        },
        DetailedJudgements::Catch {
            fruits,
            droplets,
            tiny_droplets,
            tiny_droplet_misses,
            misses,
        } => CalculatorCounts {
            n_geki: None,
            n300: Some(fruits),
            n_katu: Some(tiny_droplet_misses),
            n100: None,
            n50: None,
            large_tick_hits: Some(droplets),
            small_tick_hits: Some(tiny_droplets),
            misses,
        },
        DetailedJudgements::Mania { n320, n300, n200, n100, n50, misses } => CalculatorCounts {
            n_geki: Some(n320),
            n300: Some(n300),
            n_katu: Some(n200),
            n100: Some(n100),
            n50: Some(n50),
            large_tick_hits: None,
            small_tick_hits: None,
            misses,
        },
    }
}

/// Maps a detailed judgement record onto the calculator's field names,
/// following the fixed mode-keyed table of [`calculator_counts_spec`].
pub fn calculator_counts(d: &DetailedJudgements) -> (c: CalculatorCounts)
    ensures
        c == calculator_counts_spec(*d),
{
    match *d {
        DetailedJudgements::Osu { n300, n100, n50, misses } => CalculatorCounts {
            n_geki: None,
            n300: Some(n300),
            n_katu: None,
            n100: Some(n100),
            n50: Some(n50),
            large_tick_hits: None,
            small_tick_hits: None,
            misses,
        },
        DetailedJudgements::Taiko { n300, n100, misses } => CalculatorCounts {
            n_geki: None,
            n300: Some(n300),
            n_katu: None,
            n100: Some(n100),
            n50: None,
            large_tick_hits: None,
            small_tick_hits: None,
            misses,
        },
        DetailedJudgements::Catch {
            fruits,
            droplets,
            tiny_droplets,
            tiny_droplet_misses,
            misses,
        } => CalculatorCounts {
            n_geki: None,
            n300: Some(fruits),
            n_katu: Some(tiny_droplet_misses),
            n100: None,
            n50: None,
            large_tick_hits: Some(droplets),
            small_tick_hits: Some(tiny_droplets),
            misses,
        },
        DetailedJudgements::Mania { n320, n300, n200, n100, n50, misses } => CalculatorCounts {
            n_geki: Some(n320),
            n300: Some(n300),
            n_katu: Some(n200),
            n100: Some(n100),
            n50: Some(n50),
            large_tick_hits: None,
            small_tick_hits: None,
            misses,
        },
    }
}

} // verus!
