//! The closed set of game modes a play can belong to.

use vstd::prelude::*;

verus! {

/// One of the four game modes. The mode chosen for a session decides which
/// modifiers may be selected and which judgement categories a detailed
/// score description carries.
#[derive(Clone, Copy, Debug, PartialEq, Eq, Structural)]
pub enum GameMode {
    /// Circles, sliders and spinners.
    Osu,
    /// Drum rolls.
    Taiko,
    /// Catching fruits.
    Catch,
    /// Key-based play.
    Mania,
}

impl GameMode {
    /// The display name of the mode.
    pub open spec fn label_spec(self) -> Seq<char> {
        match self {
            GameMode::Osu => "osu!standard"@,
            GameMode::Taiko => "osu!taiko"@,
            GameMode::Catch => "osu!catch"@,
            GameMode::Mania => "osu!mania"@,
        }
    }

    /// Returns the display name of the mode.
    pub fn label(&self) -> (s: String)
        ensures
            s@ == self.label_spec(),
    {
        match self {
            GameMode::Osu => "osu!standard".to_owned(),
            GameMode::Taiko => "osu!taiko".to_owned(),
            GameMode::Catch => "osu!catch".to_owned(),
            GameMode::Mania => "osu!mania".to_owned(),
        }
    }
}

} // verus!
