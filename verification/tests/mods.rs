//! Modifier catalog and bitmask resolution on concrete selections.

use pp_gain::mods::{catalog_for_mode, mod_catalog, resolve_mods};
use pp_gain::GameMode;

fn sel(acronyms: &[&str]) -> Vec<String> {
    acronyms.iter().map(|a| a.to_string()).collect()
}

#[test]
fn empty_selection_is_no_mod() {
    assert_eq!(resolve_mods(GameMode::Osu, &sel(&[])), 0);
}

#[test]
fn bits_are_ored_together() {
    // HD = 8, HR = 16, DT = 64.
    assert_eq!(resolve_mods(GameMode::Osu, &sel(&["HD", "DT", "HR"])), 88);
}

#[test]
fn selection_order_does_not_matter() {
    let a = resolve_mods(GameMode::Osu, &sel(&["HD", "DT", "HR"]));
    let b = resolve_mods(GameMode::Osu, &sel(&["HR", "HD", "DT"]));
    let c = resolve_mods(GameMode::Osu, &sel(&["DT", "HR", "HD"]));
    assert_eq!(a, b);
    assert_eq!(a, c);
}

#[test]
fn repeating_an_acronym_changes_nothing() {
    let once = resolve_mods(GameMode::Osu, &sel(&["HD", "DT"]));
    let twice = resolve_mods(GameMode::Osu, &sel(&["HD", "HD", "DT", "HD"]));
    assert_eq!(once, twice);
}

#[test]
fn unknown_acronyms_are_ignored() {
    assert_eq!(resolve_mods(GameMode::Osu, &sel(&["ZZ"])), 0);
    assert_eq!(resolve_mods(GameMode::Osu, &sel(&["ZZ", "HD"])), 8);
}

#[test]
fn entries_of_other_modes_do_not_contribute() {
    // AutoPilot applies to osu!standard only; key mods to mania only.
    assert_eq!(resolve_mods(GameMode::Mania, &sel(&["AP"])), 0);
    assert_eq!(resolve_mods(GameMode::Osu, &sel(&["4K"])), 0);
    assert_eq!(resolve_mods(GameMode::Mania, &sel(&["4K"])), 32_768);
    // Flashlight carries a bit everywhere it applies, but not in taiko.
    assert_eq!(resolve_mods(GameMode::Catch, &sel(&["FL"])), 1_024);
    assert_eq!(resolve_mods(GameMode::Taiko, &sel(&["FL"])), 0);
}

#[test]
fn overlapping_bits_stay_well_defined() {
    // Perfect holds the Sudden Death bit plus one of its own; composing
    // the two is the same OR.
    assert_eq!(resolve_mods(GameMode::Osu, &sel(&["PF"])), 16_416);
    assert_eq!(resolve_mods(GameMode::Osu, &sel(&["SD", "PF"])), 16_416);
    // Nightcore likewise holds the Double Time bit.
    assert_eq!(resolve_mods(GameMode::Osu, &sel(&["NC"])), 576);
    assert_eq!(resolve_mods(GameMode::Osu, &sel(&["DT", "NC"])), 576);
}

#[test]
fn display_only_mods_resolve_to_zero() {
    assert_eq!(resolve_mods(GameMode::Osu, &sel(&["CL"])), 0);
    assert_eq!(resolve_mods(GameMode::Mania, &sel(&["MR", "RD", "NR"])), 0);
}

#[test]
fn catalog_acronyms_are_unique() {
    let cat = mod_catalog();
    assert_eq!(cat.len(), 40);
    for i in 0..cat.len() {
        for j in 0..i {
            assert_ne!(cat[i].acronym, cat[j].acronym);
        }
    }
}

#[test]
fn catalog_entries_are_mode_tagged() {
    let cat = mod_catalog();
    let mut mania_only = 0;
    for def in &cat {
        if def.modes.mania && !def.modes.osu && !def.modes.taiko && !def.modes.catch {
            mania_only += 1;
        }
    }
    // NR, FI, RD, MR and the nine key mods.
    assert_eq!(mania_only, 13);
}

#[test]
fn filtered_catalog_offers_only_matching_entries() {
    let taiko = catalog_for_mode(GameMode::Taiko);
    assert!(taiko.iter().all(|d| d.modes.taiko));
    assert!(taiko.iter().any(|d| d.acronym == "ST"));
    assert!(taiko.iter().all(|d| d.acronym != "FL"));
    assert!(taiko.iter().all(|d| d.acronym != "4K"));

    let mania = catalog_for_mode(GameMode::Mania);
    assert!(mania.iter().any(|d| d.acronym == "9K"));
    assert!(mania.iter().all(|d| d.acronym != "AP"));
}

#[test]
fn mode_labels() {
    assert_eq!(GameMode::Osu.label(), "osu!standard");
    assert_eq!(GameMode::Taiko.label(), "osu!taiko");
    assert_eq!(GameMode::Catch.label(), "osu!catch");
    assert_eq!(GameMode::Mania.label(), "osu!mania");
}
