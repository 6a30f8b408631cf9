//! The modifier catalog and its bitmask resolution.
//!
//! Every known gameplay modifier has a short acronym, a legacy bit
//! pattern (`0` for modifiers without a scoring effect in that encoding),
//! and the set of game modes it applies to. Resolving a selection means
//! filtering the catalog to the chosen mode and OR-ing the bits of every
//! selected entry; unknown acronyms are ignored rather than rejected.

use vstd::prelude::*;
use crate::modes::GameMode;

verus! {

/// The game modes a catalog entry applies to.
#[derive(Clone, Copy, Debug, PartialEq, Eq, Structural)]
pub struct ModeSet {
    pub osu: bool,
    pub taiko: bool,
    pub catch: bool,
    pub mania: bool,
}

impl ModeSet {
    /// Whether the set holds the given mode.
    pub open spec fn contains_spec(self, mode: GameMode) -> bool {
        match mode {
            GameMode::Osu => self.osu,
            GameMode::Taiko => self.taiko,
            GameMode::Catch => self.catch,
            GameMode::Mania => self.mania,
        }
    }

    /// Tests whether the set holds the given mode.
    pub fn contains(&self, mode: GameMode) -> (b: bool)
        ensures
            b == self.contains_spec(mode),
    {
        match mode {
            GameMode::Osu => self.osu,
            GameMode::Taiko => self.taiko,
            GameMode::Catch => self.catch,
            GameMode::Mania => self.mania,
        }
    }
}

/// One catalog record, as the contracts speak of it: the acronym and
/// description as character sequences, the legacy bits, and the modes.
pub struct CatalogEntry {
    pub acronym: Seq<char>,
    pub bits: u32,
    pub modes: ModeSet,
    pub description: Seq<char>,
}

/// One modifier of the catalog: a unique acronym, its legacy bit pattern,
/// the modes it applies to, and a description for presentation.
pub struct ModDef {
    pub acronym: String,
    pub bits: u32,
    pub modes: ModeSet,
    pub description: String,
}

impl ModDef {
    /// The record this definition stands for.
    pub open spec fn abs(self) -> CatalogEntry {
        CatalogEntry {
            acronym: self.acronym@,
            bits: self.bits,
            modes: self.modes,
            description: self.description@,
        }
    }
}

/// Number of entries in the modifier catalog.
pub open spec fn catalog_len() -> int {
    40
}

/// The modifier catalog as a fixed table, entry by entry. Acronyms are
/// unique across the table; several entries deliberately share bits
/// (a "Perfect" play combines the "Sudden Death" bit with one of its
/// own), and entries with bits `0` are offered for display only.
pub open spec fn entry_spec(i: int) -> CatalogEntry {
    if i == 0 {
        CatalogEntry { acronym: "EZ"@, bits: 2, modes: ModeSet { osu: true, taiko: true, catch: true, mania: true }, description: "Easy"@ }
    } else if i == 1 {
        CatalogEntry { acronym: "NF"@, bits: 1, modes: ModeSet { osu: true, taiko: true, catch: true, mania: true }, description: "No Fail"@ }
    } else if i == 2 {
        CatalogEntry { acronym: "HT"@, bits: 256, modes: ModeSet { osu: true, taiko: true, catch: true, mania: true }, description: "Half Time"@ }
    } else if i == 3 {
        CatalogEntry { acronym: "DC"@, bits: 0, modes: ModeSet { osu: true, taiko: true, catch: true, mania: true }, description: "Daycore (lazer only, no PP effect here)"@ }
    } else if i == 4 {
        CatalogEntry { acronym: "NR"@, bits: 0, modes: ModeSet { osu: false, taiko: false, catch: false, mania: true }, description: "No Release (mania only, no PP effect here)"@ }
    } else if i == 5 {
        CatalogEntry { acronym: "HR"@, bits: 16, modes: ModeSet { osu: true, taiko: true, catch: true, mania: true }, description: "Hard Rock"@ }
    } else if i == 6 {
        CatalogEntry { acronym: "SD"@, bits: 32, modes: ModeSet { osu: true, taiko: true, catch: true, mania: true }, description: "Sudden Death"@ }
    } else if i == 7 {
        CatalogEntry { acronym: "PF"@, bits: 16416, modes: ModeSet { osu: true, taiko: true, catch: true, mania: true }, description: "Perfect (full combo SD)"@ }
    } else if i == 8 {
        CatalogEntry { acronym: "DT"@, bits: 64, modes: ModeSet { osu: true, taiko: true, catch: true, mania: true }, description: "Double Time"@ }
    } else if i == 9 {
        CatalogEntry { acronym: "NC"@, bits: 576, modes: ModeSet { osu: true, taiko: true, catch: true, mania: true }, description: "Nightcore (DT variant)"@ }
    } else if i == 10 {
        CatalogEntry { acronym: "HD"@, bits: 8, modes: ModeSet { osu: true, taiko: true, catch: true, mania: true }, description: "Hidden"@ }
    } else if i == 11 {
        CatalogEntry { acronym: "FI"@, bits: 0, modes: ModeSet { osu: false, taiko: false, catch: false, mania: true }, description: "Fade In (mania only in stable)"@ }
    } else if i == 12 {
        CatalogEntry { acronym: "CO"@, bits: 0, modes: ModeSet { osu: true, taiko: true, catch: true, mania: true }, description: "Cover (lazer only, no PP effect here)"@ }
    } else if i == 13 {
        CatalogEntry { acronym: "FL"@, bits: 1024, modes: ModeSet { osu: true, taiko: false, catch: true, mania: true }, description: "Flashlight"@ }
    } else if i == 14 {
        CatalogEntry { acronym: "BL"@, bits: 0, modes: ModeSet { osu: true, taiko: false, catch: true, mania: true }, description: "Blinds (lazer fun mod, no PP effect here)"@ }
    } else if i == 15 {
        CatalogEntry { acronym: "ST"@, bits: 0, modes: ModeSet { osu: false, taiko: true, catch: false, mania: false }, description: "Strict Tracking (taiko only, no PP effect here)"@ }
    } else if i == 16 {
        CatalogEntry { acronym: "AC"@, bits: 0, modes: ModeSet { osu: true, taiko: true, catch: true, mania: true }, description: "Accuracy Challenge (lazer only, no PP effect here)"@ }
    } else if i == 17 {
        CatalogEntry { acronym: "AT"@, bits: 128, modes: ModeSet { osu: true, taiko: true, catch: true, mania: true }, description: "Autoplay (no PP)"@ }
    } else if i == 18 {
        CatalogEntry { acronym: "AP"@, bits: 512, modes: ModeSet { osu: true, taiko: false, catch: false, mania: false }, description: "AutoPilot (osu!, no PP)"@ }
    } else if i == 19 {
        CatalogEntry { acronym: "CN"@, bits: 0, modes: ModeSet { osu: true, taiko: false, catch: true, mania: false }, description: "Cinema (no PP)"@ }
    } else if i == 20 {
        CatalogEntry { acronym: "RL"@, bits: 0, modes: ModeSet { osu: true, taiko: false, catch: true, mania: false }, description: "Relax (no PP)"@ }
    } else if i == 21 {
        CatalogEntry { acronym: "RX"@, bits: 0, modes: ModeSet { osu: true, taiko: false, catch: true, mania: false }, description: "Classic Relax acronym (no PP)"@ }
    } else if i == 22 {
        CatalogEntry { acronym: "TD"@, bits: 0, modes: ModeSet { osu: true, taiko: false, catch: false, mania: false }, description: "Target Practice / Touch Device (no PP)"@ }
    } else if i == 23 {
        CatalogEntry { acronym: "SO"@, bits: 4096, modes: ModeSet { osu: true, taiko: false, catch: false, mania: false }, description: "Spun Out (osu! only)"@ }
    } else if i == 24 {
        CatalogEntry { acronym: "DA"@, bits: 0, modes: ModeSet { osu: true, taiko: true, catch: true, mania: true }, description: "Difficulty Adjust (lazer only, no PP here)"@ }
    } else if i == 25 {
        CatalogEntry { acronym: "TC"@, bits: 0, modes: ModeSet { osu: true, taiko: false, catch: false, mania: false }, description: "Traceable (lazer only)"@ }
    } else if i == 26 {
        CatalogEntry { acronym: "WI"@, bits: 0, modes: ModeSet { osu: true, taiko: false, catch: false, mania: false }, description: "Wiggle (lazer only)"@ }
    } else if i == 27 {
        CatalogEntry { acronym: "CL"@, bits: 0, modes: ModeSet { osu: true, taiko: true, catch: false, mania: false }, description: "Classic (lazer: emulate stable quirks)"@ }
    } else if i == 28 {
        CatalogEntry { acronym: "RD"@, bits: 0, modes: ModeSet { osu: false, taiko: false, catch: false, mania: true }, description: "Random (mania only, no PP)"@ }
    } else if i == 29 {
        CatalogEntry { acronym: "MR"@, bits: 0, modes: ModeSet { osu: false, taiko: false, catch: false, mania: true }, description: "Mirror (mania only, no PP)"@ }
    } else if i == 30 {
        CatalogEntry { acronym: "ATC"@, bits: 0, modes: ModeSet { osu: true, taiko: true, catch: true, mania: true }, description: "Adaptive Speed / Challenge (lazer system, no PP)"@ }
    } else if i == 31 {
        CatalogEntry { acronym: "1K"@, bits: 0, modes: ModeSet { osu: false, taiko: false, catch: false, mania: true }, description: "1 key (mania only, no legacy bit)"@ }
    } else if i == 32 {
        CatalogEntry { acronym: "2K"@, bits: 0, modes: ModeSet { osu: false, taiko: false, catch: false, mania: true }, description: "2 keys"@ }
    } else if i == 33 {
        CatalogEntry { acronym: "3K"@, bits: 0, modes: ModeSet { osu: false, taiko: false, catch: false, mania: true }, description: "3 keys"@ }
    } else if i == 34 {
        CatalogEntry { acronym: "4K"@, bits: 32768, modes: ModeSet { osu: false, taiko: false, catch: false, mania: true }, description: "4 keys"@ }
    } else if i == 35 {
        CatalogEntry { acronym: "5K"@, bits: 65536, modes: ModeSet { osu: false, taiko: false, catch: false, mania: true }, description: "5 keys"@ }
    } else if i == 36 {
        CatalogEntry { acronym: "6K"@, bits: 131072, modes: ModeSet { osu: false, taiko: false, catch: false, mania: true }, description: "6 keys"@ }
    } else if i == 37 {
        CatalogEntry { acronym: "7K"@, bits: 262144, modes: ModeSet { osu: false, taiko: false, catch: false, mania: true }, description: "7 keys"@ }
    } else if i == 38 {
        CatalogEntry { acronym: "8K"@, bits: 524288, modes: ModeSet { osu: false, taiko: false, catch: false, mania: true }, description: "8 keys"@ }
    } else if i == 39 {
        CatalogEntry { acronym: "9K"@, bits: 16777216, modes: ModeSet { osu: false, taiko: false, catch: false, mania: true }, description: "9 keys"@ }
    } else {
        CatalogEntry { acronym: ""@, bits: 0, modes: ModeSet { osu: false, taiko: false, catch: false, mania: false }, description: ""@ }
    }
}

/// Builds the modifier catalog.
#[verifier::rlimit(60)]
pub fn mod_catalog() -> (cat: Vec<ModDef>)
    ensures
        cat@.len() == catalog_len(),
        forall|i: int| 0 <= i < catalog_len() ==> (#[trigger] cat@[i]).abs() == entry_spec(i),
{
    let mut cat: Vec<ModDef> = Vec::new();
    cat.push(ModDef { acronym: "EZ".to_owned(), bits: 2, modes: ModeSet { osu: true, taiko: true, catch: true, mania: true }, description: "Easy".to_owned() });
    cat.push(ModDef { acronym: "NF".to_owned(), bits: 1, modes: ModeSet { osu: true, taiko: true, catch: true, mania: true }, description: "No Fail".to_owned() });
    cat.push(ModDef { acronym: "HT".to_owned(), bits: 256, modes: ModeSet { osu: true, taiko: true, catch: true, mania: true }, description: "Half Time".to_owned() });
    cat.push(ModDef { acronym: "DC".to_owned(), bits: 0, modes: ModeSet { osu: true, taiko: true, catch: true, mania: true }, description: "Daycore (lazer only, no PP effect here)".to_owned() });
    cat.push(ModDef { acronym: "NR".to_owned(), bits: 0, modes: ModeSet { osu: false, taiko: false, catch: false, mania: true }, description: "No Release (mania only, no PP effect here)".to_owned() });
    cat.push(ModDef { acronym: "HR".to_owned(), bits: 16, modes: ModeSet { osu: true, taiko: true, catch: true, mania: true }, description: "Hard Rock".to_owned() });
    cat.push(ModDef { acronym: "SD".to_owned(), bits: 32, modes: ModeSet { osu: true, taiko: true, catch: true, mania: true }, description: "Sudden Death".to_owned() });
    cat.push(ModDef { acronym: "PF".to_owned(), bits: 16416, modes: ModeSet { osu: true, taiko: true, catch: true, mania: true }, description: "Perfect (full combo SD)".to_owned() });
    cat.push(ModDef { acronym: "DT".to_owned(), bits: 64, modes: ModeSet { osu: true, taiko: true, catch: true, mania: true }, description: "Double Time".to_owned() });
    cat.push(ModDef { acronym: "NC".to_owned(), bits: 576, modes: ModeSet { osu: true, taiko: true, catch: true, mania: true }, description: "Nightcore (DT variant)".to_owned() });
    cat.push(ModDef { acronym: "HD".to_owned(), bits: 8, modes: ModeSet { osu: true, taiko: true, catch: true, mania: true }, description: "Hidden".to_owned() });
    cat.push(ModDef { acronym: "FI".to_owned(), bits: 0, modes: ModeSet { osu: false, taiko: false, catch: false, mania: true }, description: "Fade In (mania only in stable)".to_owned() });
    cat.push(ModDef { acronym: "CO".to_owned(), bits: 0, modes: ModeSet { osu: true, taiko: true, catch: true, mania: true }, description: "Cover (lazer only, no PP effect here)".to_owned() });
    cat.push(ModDef { acronym: "FL".to_owned(), bits: 1024, modes: ModeSet { osu: true, taiko: false, catch: true, mania: true }, description: "Flashlight".to_owned() });
    cat.push(ModDef { acronym: "BL".to_owned(), bits: 0, modes: ModeSet { osu: true, taiko: false, catch: true, mania: true }, description: "Blinds (lazer fun mod, no PP effect here)".to_owned() });
    cat.push(ModDef { acronym: "ST".to_owned(), bits: 0, modes: ModeSet { osu: false, taiko: true, catch: false, mania: false }, description: "Strict Tracking (taiko only, no PP effect here)".to_owned() });
    cat.push(ModDef { acronym: "AC".to_owned(), bits: 0, modes: ModeSet { osu: true, taiko: true, catch: true, mania: true }, description: "Accuracy Challenge (lazer only, no PP effect here)".to_owned() });
    cat.push(ModDef { acronym: "AT".to_owned(), bits: 128, modes: ModeSet { osu: true, taiko: true, catch: true, mania: true }, description: "Autoplay (no PP)".to_owned() });
    cat.push(ModDef { acronym: "AP".to_owned(), bits: 512, modes: ModeSet { osu: true, taiko: false, catch: false, mania: false }, description: "AutoPilot (osu!, no PP)".to_owned() });
    cat.push(ModDef { acronym: "CN".to_owned(), bits: 0, modes: ModeSet { osu: true, taiko: false, catch: true, mania: false }, description: "Cinema (no PP)".to_owned() });
    cat.push(ModDef { acronym: "RL".to_owned(), bits: 0, modes: ModeSet { osu: true, taiko: false, catch: true, mania: false }, description: "Relax (no PP)".to_owned() });
    cat.push(ModDef { acronym: "RX".to_owned(), bits: 0, modes: ModeSet { osu: true, taiko: false, catch: true, mania: false }, description: "Classic Relax acronym (no PP)".to_owned() });
    cat.push(ModDef { acronym: "TD".to_owned(), bits: 0, modes: ModeSet { osu: true, taiko: false, catch: false, mania: false }, description: "Target Practice / Touch Device (no PP)".to_owned() });
    cat.push(ModDef { acronym: "SO".to_owned(), bits: 4096, modes: ModeSet { osu: true, taiko: false, catch: false, mania: false }, description: "Spun Out (osu! only)".to_owned() });
    cat.push(ModDef { acronym: "DA".to_owned(), bits: 0, modes: ModeSet { osu: true, taiko: true, catch: true, mania: true }, description: "Difficulty Adjust (lazer only, no PP here)".to_owned() });
    cat.push(ModDef { acronym: "TC".to_owned(), bits: 0, modes: ModeSet { osu: true, taiko: false, catch: false, mania: false }, description: "Traceable (lazer only)".to_owned() });
    cat.push(ModDef { acronym: "WI".to_owned(), bits: 0, modes: ModeSet { osu: true, taiko: false, catch: false, mania: false }, description: "Wiggle (lazer only)".to_owned() });
    cat.push(ModDef { acronym: "CL".to_owned(), bits: 0, modes: ModeSet { osu: true, taiko: true, catch: false, mania: false }, description: "Classic (lazer: emulate stable quirks)".to_owned() });
    cat.push(ModDef { acronym: "RD".to_owned(), bits: 0, modes: ModeSet { osu: false, taiko: false, catch: false, mania: true }, description: "Random (mania only, no PP)".to_owned() });
    cat.push(ModDef { acronym: "MR".to_owned(), bits: 0, modes: ModeSet { osu: false, taiko: false, catch: false, mania: true }, description: "Mirror (mania only, no PP)".to_owned() });
    cat.push(ModDef { acronym: "ATC".to_owned(), bits: 0, modes: ModeSet { osu: true, taiko: true, catch: true, mania: true }, description: "Adaptive Speed / Challenge (lazer system, no PP)".to_owned() });
    cat.push(ModDef { acronym: "1K".to_owned(), bits: 0, modes: ModeSet { osu: false, taiko: false, catch: false, mania: true }, description: "1 key (mania only, no legacy bit)".to_owned() });
    cat.push(ModDef { acronym: "2K".to_owned(), bits: 0, modes: ModeSet { osu: false, taiko: false, catch: false, mania: true }, description: "2 keys".to_owned() });
    cat.push(ModDef { acronym: "3K".to_owned(), bits: 0, modes: ModeSet { osu: false, taiko: false, catch: false, mania: true }, description: "3 keys".to_owned() });
    cat.push(ModDef { acronym: "4K".to_owned(), bits: 32768, modes: ModeSet { osu: false, taiko: false, catch: false, mania: true }, description: "4 keys".to_owned() });
    cat.push(ModDef { acronym: "5K".to_owned(), bits: 65536, modes: ModeSet { osu: false, taiko: false, catch: false, mania: true }, description: "5 keys".to_owned() });
    cat.push(ModDef { acronym: "6K".to_owned(), bits: 131072, modes: ModeSet { osu: false, taiko: false, catch: false, mania: true }, description: "6 keys".to_owned() });
    cat.push(ModDef { acronym: "7K".to_owned(), bits: 262144, modes: ModeSet { osu: false, taiko: false, catch: false, mania: true }, description: "7 keys".to_owned() });
    cat.push(ModDef { acronym: "8K".to_owned(), bits: 524288, modes: ModeSet { osu: false, taiko: false, catch: false, mania: true }, description: "8 keys".to_owned() });
    cat.push(ModDef { acronym: "9K".to_owned(), bits: 16777216, modes: ModeSet { osu: false, taiko: false, catch: false, mania: true }, description: "9 keys".to_owned() });
    proof {
        assert(cat@[0].abs() == entry_spec(0));
        assert(cat@[1].abs() == entry_spec(1));
        assert(cat@[2].abs() == entry_spec(2));
        assert(cat@[3].abs() == entry_spec(3));
        assert(cat@[4].abs() == entry_spec(4));
        assert(cat@[5].abs() == entry_spec(5));
        assert(cat@[6].abs() == entry_spec(6));
        assert(cat@[7].abs() == entry_spec(7));
        assert(cat@[8].abs() == entry_spec(8));
        assert(cat@[9].abs() == entry_spec(9));
        assert(cat@[10].abs() == entry_spec(10));
        assert(cat@[11].abs() == entry_spec(11));
        assert(cat@[12].abs() == entry_spec(12));
        assert(cat@[13].abs() == entry_spec(13));
        assert(cat@[14].abs() == entry_spec(14));
        assert(cat@[15].abs() == entry_spec(15));
        assert(cat@[16].abs() == entry_spec(16));
        assert(cat@[17].abs() == entry_spec(17));
        assert(cat@[18].abs() == entry_spec(18));
        assert(cat@[19].abs() == entry_spec(19));
        assert(cat@[20].abs() == entry_spec(20));
        assert(cat@[21].abs() == entry_spec(21));
        assert(cat@[22].abs() == entry_spec(22));
        assert(cat@[23].abs() == entry_spec(23));
        assert(cat@[24].abs() == entry_spec(24));
        assert(cat@[25].abs() == entry_spec(25));
        assert(cat@[26].abs() == entry_spec(26));
        assert(cat@[27].abs() == entry_spec(27));
        assert(cat@[28].abs() == entry_spec(28));
        assert(cat@[29].abs() == entry_spec(29));
        assert(cat@[30].abs() == entry_spec(30));
        assert(cat@[31].abs() == entry_spec(31));
        assert(cat@[32].abs() == entry_spec(32));
        assert(cat@[33].abs() == entry_spec(33));
        assert(cat@[34].abs() == entry_spec(34));
        assert(cat@[35].abs() == entry_spec(35));
        assert(cat@[36].abs() == entry_spec(36));
        assert(cat@[37].abs() == entry_spec(37));
        assert(cat@[38].abs() == entry_spec(38));
        assert(cat@[39].abs() == entry_spec(39));
    }
    cat
}


/// The set of acronyms a selection of strings stands for, as character
/// sequences. A selection is a set: order and repetition do not matter.
pub open spec fn selection_views(sel: Seq<String>) -> Set<Seq<char>> {
    Set::new(|a: Seq<char>| exists|j: int| 0 <= j < sel.len() && sel[j]@ == a)
}

/// Whether catalog entry `i` contributes for the given mode and selection:
/// it must apply to the mode and its acronym must be selected.
pub open spec fn entry_matches(i: int, mode: GameMode, sel: Set<Seq<char>>) -> bool {
    entry_spec(i).modes.contains_spec(mode) && sel.contains(entry_spec(i).acronym)
}

/// The OR of the bits of every matching entry among the first `i`.
pub open spec fn mask_upto(mode: GameMode, sel: Set<Seq<char>>, i: int) -> u32
    decreases i,
{
    if i <= 0 {
        0u32
    } else if entry_matches(i - 1, mode, sel) {
        mask_upto(mode, sel, i - 1) | entry_spec(i - 1).bits
    } else {
        mask_upto(mode, sel, i - 1)
    }
}

/// The bitmask a selection resolves to for a mode: the OR of the bits of
/// every catalog entry that applies to the mode and is selected. Unknown
/// acronyms match no entry and are ignored; an empty selection resolves
/// to `0`.
pub open spec fn resolve_mask(mode: GameMode, sel: Set<Seq<char>>) -> u32 {
    mask_upto(mode, sel, catalog_len())
}

/// Tests whether the selection holds the given acronym.
fn contains_acronym(selected: &Vec<String>, acronym: &String) -> (b: bool)
    ensures
        b == selection_views(selected@).contains(acronym@),
{
    let mut j: usize = 0;
    while j < selected.len()
        invariant
            0 <= j <= selected@.len(),
            forall|k: int| 0 <= k < j ==> selected@[k]@ != acronym@,
        decreases selected@.len() - j,
    {
        if selected[j] == *acronym {
            return true;
        }
        j = j + 1;
    }
    false
}

/// Resolves a selection of modifier acronyms, for one mode, to a single
/// legacy bitmask: the OR of the bits of every selected catalog entry
/// that applies to the mode.
pub fn resolve_mods(mode: GameMode, selected: &Vec<String>) -> (mask: u32)
    ensures
        mask == resolve_mask(mode, selection_views(selected@)),
{
    let ghost sel = selection_views(selected@);
    let cat = mod_catalog();
    let mut mask: u32 = 0;
    let mut i: usize = 0;
    while i < cat.len()
        invariant
            0 <= i <= cat@.len(),
            cat@.len() == catalog_len(),
            forall|k: int| 0 <= k < catalog_len() ==> (#[trigger] cat@[k]).abs() == entry_spec(k),
            sel == selection_views(selected@),
            mask == mask_upto(mode, sel, i as int),
        decreases cat@.len() - i,
    {
        proof {
            assert(cat@[i as int].abs() == entry_spec(i as int));
        }
        if cat[i].modes.contains(mode) {
            if contains_acronym(selected, &cat[i].acronym) {
                mask = mask | cat[i].bits;
            }
        }
        i = i + 1;
    }
    mask
}

/// The catalog entries that apply to a mode, in catalog order: what a
/// presentation layer offers for selection under that mode.
pub open spec fn filtered_upto(mode: GameMode, i: int) -> Seq<CatalogEntry>
    decreases i,
{
    if i <= 0 {
        Seq::empty()
    } else if entry_spec(i - 1).modes.contains_spec(mode) {
        filtered_upto(mode, i - 1).push(entry_spec(i - 1))
    } else {
        filtered_upto(mode, i - 1)
    }
}

/// Returns the catalog filtered to the entries that apply to the given
/// mode, keeping the catalog's order.
pub fn catalog_for_mode(mode: GameMode) -> (offered: Vec<ModDef>)
    ensures
        offered@.map_values(|d: ModDef| d.abs()) == filtered_upto(mode, catalog_len()),
{
    let cat = mod_catalog();
    let mut offered: Vec<ModDef> = Vec::new();
    let mut i: usize = 0;
    proof {
        assert(offered@.map_values(|d: ModDef| d.abs()) =~= filtered_upto(mode, 0));
    }
    while i < cat.len()
        invariant
            0 <= i <= cat@.len(),
            cat@.len() == catalog_len(),
            forall|k: int| 0 <= k < catalog_len() ==> (#[trigger] cat@[k]).abs() == entry_spec(k),
            offered@.map_values(|d: ModDef| d.abs()) == filtered_upto(mode, i as int),
        decreases cat@.len() - i,
    {
        proof {
            assert(cat@[i as int].abs() == entry_spec(i as int));
        }
        if cat[i].modes.contains(mode) {
            let ghost before = offered@;
            let entry = ModDef {
                acronym: cat[i].acronym.clone(),
                bits: cat[i].bits,
                modes: cat[i].modes,
                description: cat[i].description.clone(),
            };
            proof {
                assert(entry.abs() == entry_spec(i as int));
            }
            offered.push(entry);
            proof {
                assert(offered@.map_values(|d: ModDef| d.abs()) =~= before.map_values(
                    |d: ModDef| d.abs(),
                ).push(entry.abs()));
            }
        }
        i = i + 1;
    }
    offered
}

/// Law: the resolved bitmask depends on the selection only as a set —
/// any permutation (or repetition) of the same acronyms resolves alike.
pub proof fn lemma_resolve_permutation(mode: GameMode, s1: Seq<String>, s2: Seq<String>)
    requires
        s1.to_multiset() == s2.to_multiset(),
    ensures
        resolve_mask(mode, selection_views(s1)) == resolve_mask(mode, selection_views(s2)),
{
    lemma_selection_views_subset(s1, s2);
    lemma_selection_views_subset(s2, s1);
    assert(selection_views(s1) =~= selection_views(s2));
}

/// Every acronym selected under `s1` is selected under `s2` when `s2`
/// holds the same strings.
proof fn lemma_selection_views_subset(s1: Seq<String>, s2: Seq<String>)
    requires
        s1.to_multiset() == s2.to_multiset(),
    ensures
        forall|a: Seq<char>|
            selection_views(s1).contains(a) ==> selection_views(s2).contains(a),
{
    broadcast use vstd::seq_lib::group_to_multiset_ensures;

    assert forall|a: Seq<char>|
        selection_views(s1).contains(a) implies selection_views(s2).contains(a) by {
        let j = choose|j: int| 0 <= j < s1.len() && s1[j]@ == a;
        assert(s1.contains(s1[j]));
        assert(s1.to_multiset().count(s1[j]) > 0);
        assert(s2.contains(s1[j]));
        let k = choose|k: int| 0 <= k < s2.len() && s2[k] == s1[j];
        assert(s2[k]@ == a);
    }
}

/// Law: selecting an acronym twice resolves to the same bitmask as
/// selecting it once.
pub proof fn lemma_resolve_idempotent(mode: GameMode, sel: Seq<String>, x: String)
    requires
        selection_views(sel).contains(x@),
    ensures
        resolve_mask(mode, selection_views(sel.push(x))) == resolve_mask(mode, selection_views(sel)),
{
    assert(selection_views(sel.push(x)) =~= selection_views(sel)) by {
        assert forall|a: Seq<char>|
            selection_views(sel.push(x)).contains(a) implies selection_views(sel).contains(a) by {
            let j = choose|j: int| 0 <= j < sel.push(x).len() && sel.push(x)[j]@ == a;
            if j < sel.len() {
                assert(sel[j]@ == a);
            } else {
                assert(x@ == a);
            }
        }
        assert forall|a: Seq<char>|
            selection_views(sel).contains(a) implies selection_views(sel.push(x)).contains(a) by {
            let j = choose|j: int| 0 <= j < sel.len() && sel[j]@ == a;
            assert(sel.push(x)[j]@ == a);
        }
    }
}

/// OR-ing keeps a probe clear when both operands are clear of it.
proof fn lemma_or_preserves_clear(a: u32, b: u32, probe: u32)
    requires
        a & probe == 0,
        b & probe == 0,
    ensures
        (a | b) & probe == 0,
{
    assert((a & probe == 0 && b & probe == 0) ==> ((a | b) & probe == 0)) by (bit_vector);
}

/// OR-ing keeps the bits of either operand.
proof fn lemma_or_keeps(a: u32, b: u32, kept: u32)
    requires
        a & kept == kept || b & kept == kept,
    ensures
        (a | b) & kept == kept,
{
    assert(((a & kept == kept || b & kept == kept) ==> ((a | b) & kept == kept)) ) by (bit_vector);
}

proof fn lemma_mask_upto_filtered(mode: GameMode, sel: Set<Seq<char>>, probe: u32, i: int)
    requires
        0 <= i <= catalog_len(),
        forall|k: int|
            0 <= k < catalog_len() && entry_matches(k, mode, sel) ==> #[trigger] entry_spec(
                k,
            ).bits & probe == 0,
    ensures
        mask_upto(mode, sel, i) & probe == 0,
    decreases i,
{
    if i <= 0 {
        assert(0u32 & probe == 0) by (bit_vector);
    } else {
        lemma_mask_upto_filtered(mode, sel, probe, i - 1);
        if entry_matches(i - 1, mode, sel) {
            lemma_or_preserves_clear(mask_upto(mode, sel, i - 1), entry_spec(i - 1).bits, probe);
        }
    }
}

/// Law: the resolved bitmask never holds a bit that no matching entry
/// carries. In particular, an entry whose modes exclude the chosen mode
/// contributes nothing, selected or not.
pub proof fn lemma_resolve_filtered(mode: GameMode, sel: Set<Seq<char>>, probe: u32)
    requires
        forall|k: int|
            0 <= k < catalog_len() && entry_matches(k, mode, sel) ==> #[trigger] entry_spec(
                k,
            ).bits & probe == 0,
    ensures
        resolve_mask(mode, sel) & probe == 0,
{
    lemma_mask_upto_filtered(mode, sel, probe, catalog_len());
}

proof fn lemma_mask_upto_includes(mode: GameMode, sel: Set<Seq<char>>, k: int, i: int)
    requires
        0 <= k < i <= catalog_len(),
        entry_matches(k, mode, sel),
    ensures
        mask_upto(mode, sel, i) & entry_spec(k).bits == entry_spec(k).bits,
    decreases i,
{
    let bits = entry_spec(k).bits;
    if i - 1 == k {
        assert((mask_upto(mode, sel, i - 1) | bits) & bits == bits) by {
            let m = mask_upto(mode, sel, i - 1);
            assert((m | bits) & bits == bits) by (bit_vector);
        }
    } else {
        lemma_mask_upto_includes(mode, sel, k, i - 1);
        if entry_matches(i - 1, mode, sel) {
            lemma_or_keeps(mask_upto(mode, sel, i - 1), entry_spec(i - 1).bits, bits);
        }
    }
}

/// Law: every catalog entry that applies to the mode and is selected has
/// all of its bits in the resolved bitmask.
pub proof fn lemma_resolve_includes(mode: GameMode, sel: Set<Seq<char>>, k: int)
    requires
        0 <= k < catalog_len(),
        entry_matches(k, mode, sel),
    ensures
        resolve_mask(mode, sel) & entry_spec(k).bits == entry_spec(k).bits,
{
    lemma_mask_upto_includes(mode, sel, k, catalog_len());
}


} // verus!
