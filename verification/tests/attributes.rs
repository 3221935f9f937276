//! The scan-attribute translator, the numeric grammar, and the unit
//! classifier.

use masslynx::constants::{MassLynxIonMode, MassLynxScanItem};
use masslynx::text::is_numeric_str;
use masslynx::translate::{
    build_precursor, classify_trace_unit, continuity_of, interpret_scan, normalize_unit,
    polarity_of, translate_scan_attributes, ChromatogramKind, ParamUnit, ScanPolarity,
    SignalContinuity,
};

fn pairs(items: Vec<(MassLynxScanItem, &str)>) -> Vec<(MassLynxScanItem, String)> {
    items.into_iter().map(|(k, v)| (k, v.to_string())).collect()
}

#[test]
fn collision_energy_sets_activation() {
    let attrs = translate_scan_attributes(&pairs(vec![
        (MassLynxScanItem::COLLISION_ENERGY, "35.5"),
        (MassLynxScanItem::SOURCE_TEMPERATURE, "120"),
    ]));
    assert_eq!(attrs.activation_energy.as_deref(), Some("35.5"));
    assert_eq!(attrs.selected_ion_mz, None);
    assert!(attrs.params.is_empty());
    assert!(attrs.unparsable.is_empty());
    assert!(attrs.flagged.is_empty());
}

#[test]
fn set_mass_initializes_and_updates_selected_ion() {
    let attrs = translate_scan_attributes(&pairs(vec![
        (MassLynxScanItem::SET_MASS, "445.12"),
        (MassLynxScanItem::SET_MASS, "446.13"),
    ]));
    // the later value updates the accumulator
    assert_eq!(attrs.selected_ion_mz.as_deref(), Some("446.13"));
}

#[test]
fn summaries_are_copied_with_units() {
    let attrs = translate_scan_attributes(&pairs(vec![
        (MassLynxScanItem::TOTAL_ION_CURRENT, "12345"),
        (MassLynxScanItem::BASE_PEAK_MASS, "445.1"),
        (MassLynxScanItem::BASE_PEAK_INTENSITY, "999"),
    ]));
    assert_eq!(attrs.params.len(), 3);
    assert_eq!(attrs.params[0].0, MassLynxScanItem::TOTAL_ION_CURRENT);
    assert_eq!(attrs.params[0].1, "12345");
    assert_eq!(attrs.params[0].2, ParamUnit::DetectorCounts);
    assert_eq!(attrs.params[1].2, ParamUnit::MassToCharge);
    assert_eq!(attrs.params[2].2, ParamUnit::DetectorCounts);
}

#[test]
fn unparsable_values_are_scoped_errors() {
    // one bad attribute leaves the rest of the record intact
    let attrs = translate_scan_attributes(&pairs(vec![
        (MassLynxScanItem::COLLISION_ENERGY, "not a number"),
        (MassLynxScanItem::TOTAL_ION_CURRENT, "777"),
    ]));
    assert_eq!(attrs.activation_energy, None);
    assert_eq!(attrs.unparsable.len(), 1);
    assert_eq!(attrs.unparsable[0].0, MassLynxScanItem::COLLISION_ENERGY);
    assert_eq!(attrs.unparsable[0].1, "not a number");
    assert_eq!(attrs.params.len(), 1);
}

#[test]
fn uninitialized_kinds_are_flagged() {
    let attrs = translate_scan_attributes(&pairs(vec![
        (MassLynxScanItem::PEAKS_IN_SCAN, "4"),
        (MassLynxScanItem::UNINITIALISED, ""),
    ]));
    assert_eq!(
        attrs.flagged,
        vec![MassLynxScanItem::PEAKS_IN_SCAN, MassLynxScanItem::UNINITIALISED]
    );
}

#[test]
fn precursor_attaches_populated_accumulators() {
    let attrs = translate_scan_attributes(&pairs(vec![
        (MassLynxScanItem::SET_MASS, "445.12"),
        (MassLynxScanItem::COLLISION_ENERGY, "28"),
    ]));
    let precursor = build_precursor(&attrs).unwrap();
    assert_eq!(precursor.ion.unwrap().mz, "445.12");
    assert_eq!(precursor.activation.unwrap().energy, "28");

    let empty = translate_scan_attributes(&pairs(vec![(
        MassLynxScanItem::SOURCE_TEMPERATURE,
        "120",
    )]));
    assert!(build_precursor(&empty).is_none());
}

#[test]
fn numeric_grammar_accepts_and_rejects() {
    for good in ["0", "35.5", "-1.25", "+3", ".5", "1.", "1e5", "2.5E-3", "-4e+2"] {
        assert!(is_numeric_str(good), "{good} should be numeric");
    }
    for bad in ["", ".", "-", "1.2.3", "e5", "1e", "12a", " 1", "1 ", "--2", "1e2.5"] {
        assert!(!is_numeric_str(bad), "{bad} should not be numeric");
    }
}

#[test]
fn polarity_and_continuity_mappings() {
    assert_eq!(polarity_of(MassLynxIonMode::ES_POS), ScanPolarity::Positive);
    assert_eq!(polarity_of(MassLynxIonMode::CI_NEG), ScanPolarity::Negative);
    assert_eq!(polarity_of(MassLynxIonMode::UNINITIALISED), ScanPolarity::Unknown);
    assert!(MassLynxIonMode::LD_POS.is_positive());
    assert!(!MassLynxIonMode::LD_NEG.is_positive());
    assert_eq!(continuity_of(true), SignalContinuity::Profile);
    assert_eq!(continuity_of(false), SignalContinuity::Centroid);
}

#[test]
fn unit_strings_classify_trace_subtypes() {
    assert_eq!(classify_trace_unit("C"), ChromatogramKind::Temperature);
    assert_eq!(classify_trace_unit("L/min"), ChromatogramKind::FlowRate);
    assert_eq!(classify_trace_unit("psi"), ChromatogramKind::Pressure);
    assert_eq!(classify_trace_unit("%"), ChromatogramKind::Percent);
    assert_eq!(classify_trace_unit("AU"), ChromatogramKind::Unknown);
    // only a string opening with the replacement character of the driver's
    // text decoding has the marker dropped and its whitespace trimmed
    assert_eq!(classify_trace_unit("\u{FFFD} C "), ChromatogramKind::Temperature);
    assert_eq!(normalize_unit("\u{FFFD}  psi\t"), "psi");
    assert_eq!(normalize_unit("\u{FFFD}%"), "%");
    // any other unit is matched exactly: stray whitespace stays and makes
    // the unit unknown, its raw text preserved
    assert_eq!(normalize_unit("  psi\t"), "  psi\t");
    assert_eq!(classify_trace_unit(" C"), ChromatogramKind::Unknown);
    assert_eq!(classify_trace_unit("psi "), ChromatogramKind::Unknown);
}

#[test]
fn interpreting_a_scan_combines_the_pieces() {
    let record = interpret_scan(
        MassLynxIonMode::ES_NEG,
        false,
        &pairs(vec![
            (MassLynxScanItem::SET_MASS, "445.12"),
            (MassLynxScanItem::COLLISION_ENERGY, "28"),
            (MassLynxScanItem::BASE_PEAK_MASS, "445.1"),
        ]),
    );
    assert_eq!(record.polarity, ScanPolarity::Negative);
    assert_eq!(record.continuity, SignalContinuity::Centroid);
    assert_eq!(record.attributes.params.len(), 1);
    let precursor = record.precursor.unwrap();
    assert_eq!(precursor.ion.unwrap().mz, "445.12");
    assert_eq!(precursor.activation.unwrap().energy, "28");
}
