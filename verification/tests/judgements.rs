//! Judgement normalization and the calculator field mapping.

use pp_gain::judgements::{
    calculator_counts, detailed_catch, detailed_mania, detailed_osu, detailed_taiko,
    normalize_detailed, normalize_simple, CalculatorCounts, DetailedJudgements, JudgementInput,
    PerformanceInput, ScoreInputMode,
};
use pp_gain::GameMode;

#[test]
fn catch_counts_map_onto_calculator_slots() {
    // Fruits fill n300, droplets the large-tick slot, tiny droplets the
    // small-tick slot, and tiny droplet misses the n_katu slot.
    let d = detailed_catch(500, 100, 50, 0, 0);
    let c = calculator_counts(&d);
    assert_eq!(
        c,
        CalculatorCounts {
            n_geki: None,
            n300: Some(500),
            n_katu: Some(0),
            n100: None,
            n50: None,
            large_tick_hits: Some(100),
            small_tick_hits: Some(50),
            misses: 0,
        }
    );
}

#[test]
fn mania_counts_map_onto_calculator_slots() {
    // MAX judgements fill n_geki, 200s fill n_katu.
    let d = detailed_mania(1000, 100, 10, 2, 1, 3);
    let c = calculator_counts(&d);
    assert_eq!(
        c,
        CalculatorCounts {
            n_geki: Some(1000),
            n300: Some(100),
            n_katu: Some(10),
            n100: Some(2),
            n50: Some(1),
            large_tick_hits: None,
            small_tick_hits: None,
            misses: 3,
        }
    );
}

#[test]
fn standard_counts_keep_their_names() {
    let d = detailed_osu(1000, 10, 0, 1);
    let c = calculator_counts(&d);
    assert_eq!(
        c,
        CalculatorCounts {
            n_geki: None,
            n300: Some(1000),
            n_katu: None,
            n100: Some(10),
            n50: Some(0),
            large_tick_hits: None,
            small_tick_hits: None,
            misses: 1,
        }
    );
}

#[test]
fn taiko_counts_have_no_fifty_slot() {
    let d = detailed_taiko(1000, 10, 1);
    let c = calculator_counts(&d);
    assert_eq!(c.n300, Some(1000));
    assert_eq!(c.n100, Some(10));
    assert_eq!(c.n50, None);
    assert_eq!(c.misses, 1);
}

#[test]
fn simple_input_carries_accuracy_bits_through() {
    let acc: f64 = 98.75;
    let j = normalize_simple(acc.to_bits(), 2);
    match j {
        JudgementInput::Simple { accuracy_bits, misses } => {
            assert_eq!(f64::from_bits(accuracy_bits), 98.75);
            assert_eq!(misses, 2);
        }
        _ => panic!("simple input expected"),
    }
}

#[test]
fn detailed_input_keeps_its_record() {
    let d = detailed_taiko(500, 20, 0);
    let j = normalize_detailed(GameMode::Taiko, d);
    assert_eq!(j, JudgementInput::Detailed(d));
}

#[test]
fn performance_input_is_plain_assembly() {
    let d = detailed_osu(900, 50, 5, 2);
    let j = normalize_detailed(GameMode::Osu, d);
    let p = PerformanceInput::new(GameMode::Osu, 88, Some(1200), j);
    assert_eq!(p.mode, GameMode::Osu);
    assert_eq!(p.mod_bits, 88);
    assert_eq!(p.combo, Some(1200));
    assert_eq!(p.judgement, j);

    let simple = normalize_simple(99.0f64.to_bits(), 0);
    let q = PerformanceInput::new(GameMode::Mania, 0, None, simple);
    assert_eq!(q.combo, None);
    assert_eq!(q.judgement, simple);
}

#[test]
fn input_style_labels() {
    assert_eq!(ScoreInputMode::Simple.label(), "Simple");
    assert_eq!(ScoreInputMode::Detailed.label(), "Detailed");
    let d = DetailedJudgements::Taiko { n300: 1, n100: 2, misses: 3 };
    assert_eq!(format!("{:?}", d), "Taiko { n300: 1, n100: 2, misses: 3 }");
}
