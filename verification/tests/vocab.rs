//! The driver vocabularies, the parameter store, errors, text rendering,
//! the merger, and header parsing.

use masslynx::base::{ChromatogramSeries, MassLynxError, MassLynxLockMassProcessor, MassLynxParameters};
use masslynx::constants::{
    AcquisitionParameter, LockMassParameter, MassLynxFunctionType, MassLynxHeaderItem,
    MassLynxSampleListItem, MassLynxScanItem,
};
use masslynx::merge::ChromatogramMerger;
use masslynx::reader::parse_header_lines;
use masslynx::text::render_u64;

#[test]
fn vocabulary_codes_round_trip() {
    assert_eq!(MassLynxScanItem::COLLISION_ENERGY.code(), 461);
    assert_eq!(MassLynxScanItem::from_code(461), Some(MassLynxScanItem::COLLISION_ENERGY));
    assert_eq!(MassLynxScanItem::from_code(-1), None);
    assert_eq!(MassLynxScanItem::from_code(399), None);
    assert_eq!(MassLynxHeaderItem::VERSION.code(), 300);
    assert_eq!(MassLynxHeaderItem::from_code(301), Some(MassLynxHeaderItem::ACQUIRED_NAME));
    assert_eq!(MassLynxFunctionType::MS.code(), 200);
    assert_eq!(MassLynxFunctionType::from_code(206), Some(MassLynxFunctionType::DAU));
    assert_eq!(MassLynxSampleListItem::FILE_NAME.code(), 700);
    assert_eq!(
        MassLynxSampleListItem::from_code(817),
        Some(MassLynxSampleListItem::CURVE_DB)
    );
    assert_eq!(LockMassParameter::MASS.code(), 1000);
    assert_eq!(AcquisitionParameter::from_code(1650), Some(AcquisitionParameter::TYPE));
    // every vocabulary member decodes back to itself
    for item in MassLynxHeaderItem::iter() {
        assert_eq!(MassLynxHeaderItem::from_code(item.code() as i32), Some(item));
    }
}

#[test]
fn header_item_iteration_is_complete_and_ordered() {
    let all = MassLynxHeaderItem::iter();
    assert_eq!(all.len(), 36);
    assert_eq!(all[0], MassLynxHeaderItem::VERSION);
    assert_eq!(all[35], MassLynxHeaderItem::SPARE5);
    for w in all.windows(2) {
        assert!(w[0].code() < w[1].code());
    }
}

#[test]
fn parameter_store_sets_and_gets() {
    let mut p = MassLynxParameters::new().unwrap();
    assert!(p.get(300).is_err());
    p.set(300, "4.1".to_string()).unwrap();
    p.set(301, "sample7".to_string()).unwrap();
    assert_eq!(p.get(300).unwrap(), "4.1");
    assert_eq!(p.get(301).unwrap(), "sample7");
    // writing an existing key replaces its value in place
    p.set(300, "4.2".to_string()).unwrap();
    assert_eq!(p.get(300).unwrap(), "4.2");
    assert_eq!(p.get_raw_keys().unwrap(), vec![300, 301]);
    let err = p.get(999).unwrap_err();
    assert_eq!(err.error_code, masslynx::base::NO_SUCH_RECORD);
}

#[test]
fn errors_carry_codes_and_messages() {
    let e = MassLynxError::new(5, "cannot open".to_string());
    assert_eq!(e.error_code, 5);
    assert_eq!(e.message, "cannot open");
    assert!(e.extended_message.is_none());
    let e2 = MassLynxError::extended_new(7, "bad scan".to_string(), Some("function 3".to_string()));
    assert_eq!(e2.extended_message.as_deref(), Some("function 3"));
}

#[test]
fn lock_mass_processor_is_a_small_state_machine() {
    let mut lm = MassLynxLockMassProcessor::new().unwrap();
    assert!(!lm.can_lock_mass_correct().unwrap());
    // without a configured mass no correction is applied
    assert!(!lm.lock_mass_correct().unwrap());
    assert!(!lm.is_lock_mass_corrected().unwrap());
    lm.can_correct = true;
    let mut params = MassLynxParameters::new().unwrap();
    params.set(LockMassParameter::MASS.code() as i32, "556.27".to_string()).unwrap();
    params.set(LockMassParameter::TOLERANCE.code() as i32, "0.3".to_string()).unwrap();
    lm.set_parameters(&params).unwrap();
    assert_eq!(lm.mass.as_deref(), Some("556.27"));
    assert_eq!(lm.tolerance.as_deref(), Some("0.3"));
    assert!(lm.can_lock_mass_correct().unwrap());
    assert!(lm.lock_mass_correct().unwrap());
    assert!(lm.is_lock_mass_corrected().unwrap());
    lm.remove_lock_mass_correction().unwrap();
    assert!(!lm.is_lock_mass_corrected().unwrap());
}

#[test]
fn decimal_rendering() {
    assert_eq!(render_u64(0), "0");
    assert_eq!(render_u64(7), "7");
    assert_eq!(render_u64(10), "10");
    assert_eq!(render_u64(409), "409");
    assert_eq!(render_u64(18446744073709551615), "18446744073709551615");
}

#[test]
fn merger_follows_the_worked_example() {
    // two functions producing [(0,10),(2,30)] and [(1,20),(3,40)] merge
    // into times 0,1,2,3 with intensities 10,20,30,40
    let merger = ChromatogramMerger::new(vec![
        ChromatogramSeries { times: vec![0, 2], intensities: vec![10, 30] },
        ChromatogramSeries { times: vec![1, 3], intensities: vec![20, 40] },
    ]);
    let (t, y) = merger.merge();
    assert_eq!(t, vec![0, 1, 2, 3]);
    assert_eq!(y, vec![10, 20, 30, 40]);
}

#[test]
fn merger_breaks_ties_by_series_order_and_handles_unequal_lengths() {
    let merger = ChromatogramMerger::new(vec![
        ChromatogramSeries { times: vec![5], intensities: vec![1] },
        ChromatogramSeries { times: vec![5, 5, 9], intensities: vec![2, 3, 4] },
        ChromatogramSeries { times: vec![], intensities: vec![] },
    ]);
    let (t, y) = merger.merge();
    assert_eq!(t, vec![5, 5, 5, 9]);
    // the lower series index wins the tie at time five
    assert_eq!(y, vec![1, 2, 3, 4]);

    let empty = ChromatogramMerger::new(vec![]);
    let (t2, y2) = empty.merge();
    assert!(t2.is_empty() && y2.is_empty());
}

#[test]
fn header_lines_parse_and_replace() {
    let lines: Vec<String> = vec![
        "$$ Acquired Name: sample7".to_string(),
        "not a header line".to_string(),
        "$$ Version:  4.1  ".to_string(),
        "$$ missing colon".to_string(),
        "$$ Acquired Name: sample8".to_string(),
    ];
    let parsed = parse_header_lines(&lines);
    assert_eq!(parsed.len(), 2);
    assert_eq!(parsed[0].0, "Acquired Name");
    // the later line replaces the earlier value under the same key
    assert_eq!(parsed[0].1, "sample8");
    assert_eq!(parsed[1].0, "Version");
    assert_eq!(parsed[1].1, "4.1");
}
