//! Record assembly: spectra, cycles, chromatograms and analog traces, and
//! the retrieval options that govern them.

use masslynx::base::{
    AnalogChannel, ChromatogramSeries, FunctionRecord, FunctionSignals, MassLynxAnalogReader,
    MassLynxChromatogramReader, MassLynxInfoReader, MassLynxLockMassProcessor, MassLynxParameters,
    MassLynxScanReader, ScanSignal,
};
use masslynx::constants::{MassLynxFunctionType, MassLynxIonMode, MassLynxScanItem};
use masslynx::paths::RawPaths;
use masslynx::reader::MassLynxReader;
use masslynx::translate::ChromatogramKind;

fn params(entries: Vec<(i32, &str)>) -> MassLynxParameters {
    MassLynxParameters {
        entries: entries.into_iter().map(|(k, v)| (k, v.to_string())).collect(),
    }
}

fn make_run() -> MassLynxReader {
    let ce = MassLynxScanItem::COLLISION_ENERGY.code() as i32;
    let f0 = FunctionRecord {
        function_type: MassLynxFunctionType::MS,
        ion_mode: MassLynxIonMode::ES_POS,
        is_continuum: true,
        retention_times: vec![10, 30],
        drift_scan_count: 0,
        scan_items: params(vec![(ce, "")]),
        scan_values: vec![params(vec![(ce, "35.5")]), params(vec![])],
    };
    let f1 = FunctionRecord {
        function_type: MassLynxFunctionType::TOFD,
        ion_mode: MassLynxIonMode::ES_NEG,
        is_continuum: false,
        retention_times: vec![20],
        drift_scan_count: 2,
        scan_items: params(vec![]),
        scan_values: vec![params(vec![])],
    };
    let info = MassLynxInfoReader {
        functions: vec![f0, f1],
        has_lock_mass: true,
        lock_mass_function: 0,
        lock_mass_corrected: false,
        drift_times: vec![100, 200],
        header: params(vec![(300, "4.1"), (301, "sample7"), (302, "")]),
        acquisition: params(vec![(1650, "DDA"), (77, "stray")]),
    };
    let scan_reader = MassLynxScanReader {
        functions: vec![
            FunctionSignals {
                scans: vec![
                    ScanSignal { mz_array: vec![11, 12], intensity_array: vec![1, 2] },
                    ScanSignal { mz_array: vec![21], intensity_array: vec![3] },
                ],
                drift_scans: vec![],
            },
            FunctionSignals {
                scans: vec![],
                drift_scans: vec![vec![
                    ScanSignal { mz_array: vec![41], intensity_array: vec![5] },
                    ScanSignal { mz_array: vec![42], intensity_array: vec![6] },
                ]],
            },
        ],
    };
    let chrom = MassLynxChromatogramReader {
        tic: vec![
            ChromatogramSeries { times: vec![0, 2], intensities: vec![10, 30] },
            ChromatogramSeries { times: vec![1, 3], intensities: vec![20, 40] },
        ],
        bpi: vec![
            ChromatogramSeries { times: vec![4], intensities: vec![50] },
            ChromatogramSeries { times: vec![], intensities: vec![] },
        ],
    };
    let listing: Vec<(String, bool)> = vec![
        ("_func001.dat".to_string(), false),
        ("_func002.dat".to_string(), false),
        ("_func002.cdt".to_string(), false),
    ];
    let path = RawPaths::from_listing("/data/two.raw".to_string(), &listing);
    let analog = MassLynxAnalogReader {
        channels: vec![
            AnalogChannel {
                description: "Column Heater".to_string(),
                units: "\u{FFFD} C ".to_string(),
                times: vec![5],
                intensities: vec![42],
            },
            AnalogChannel {
                description: "Solvent Mix".to_string(),
                units: "furlongs".to_string(),
                times: vec![6],
                intensities: vec![43],
            },
        ],
    };
    let mut lockmass = MassLynxLockMassProcessor::default();
    lockmass.can_correct = true;
    MassLynxReader::open(path, info, scan_reader, chrom, lockmass, Some(analog)).unwrap()
}

#[test]
fn spectrum_carries_signal_and_metadata() {
    let reader = make_run();
    // index order: (f0,c0) t=10, then (f1,c0) t=20 expanded into two drift
    // bins, then (f0,c1) t=30
    let s0 = reader.get_spectrum(0).unwrap();
    assert_eq!(s0.mz_array, vec![11, 12]);
    assert_eq!(s0.intensity_array, vec![1, 2]);
    assert_eq!(s0.time, 10);
    assert_eq!(s0.index, 0);
    assert_eq!(s0.ion_mode, MassLynxIonMode::ES_POS);
    assert!(s0.is_continuum);
    assert_eq!(s0.drift_time, None);
    assert_eq!(s0.items.len(), 1);
    assert_eq!(s0.items[0].0, MassLynxScanItem::COLLISION_ENERGY);
    assert_eq!(s0.items[0].1, "35.5");
    assert_eq!(s0.function(), 0);

    let s1 = reader.get_spectrum(1).unwrap();
    assert_eq!(s1.identifier.function, 1);
    assert_eq!(s1.identifier.drift_index, Some(0));
    assert_eq!(s1.mz_array, vec![41]);
    assert_eq!(s1.drift_time, Some(100));
    let s2 = reader.get_spectrum(2).unwrap();
    assert_eq!(s2.mz_array, vec![42]);
    assert_eq!(s2.drift_time, Some(200));

    assert!(reader.get_spectrum(99).is_none());
}

#[test]
fn disabling_signal_loading_keeps_metadata() {
    let mut reader = make_run();
    let with_signal = reader.get_spectrum(1).unwrap();
    reader.set_signal_loading(false);
    assert!(!reader.get_signal_loading());
    let without = reader.get_spectrum(1).unwrap();
    assert!(without.mz_array.is_empty());
    assert!(without.intensity_array.is_empty());
    assert_eq!(without.time, with_signal.time);
    assert_eq!(without.ion_mode, with_signal.ion_mode);
    assert_eq!(without.is_continuum, with_signal.is_continuum);
    assert_eq!(without.drift_time, with_signal.drift_time);
    assert_eq!(without.identifier, with_signal.identifier);
    assert_eq!(without.items, with_signal.items);
    // cycles behave the same: empty drift-scan list, same metadata
    reader.set_lockmass_skipping(false);
    let cycle = reader.get_cycle(0).unwrap();
    assert!(cycle.signal.is_empty());
    assert_eq!(cycle.time, 10);
}

#[test]
fn lockmass_skipping_hides_reference_cycles() {
    let mut reader = make_run();
    // skipping is on by default, and function 0 is the lock-mass reference
    assert!(reader.get_lockmass_skipping());
    assert!(reader.get_cycle(0).is_none());
    assert!(reader.get_cycle(2).is_none());
    // the ion-mobility cycle of function 1 is still found
    let frame = reader.get_cycle(1).unwrap();
    assert_eq!(frame.signal.len(), 2);
    assert_eq!(frame.drift_bounds(), Some((100, 200)));
    assert_eq!(frame.signal[0].drift_time, 100);
    assert_eq!(frame.signal[0].mz_array, vec![41]);
    assert_eq!(frame.signal[1].drift_time, 200);
    assert_eq!(frame.time, 20);
    // with skipping disabled the reference cycles are populated
    reader.set_lockmass_skipping(true);
    reader.set_lockmass_skipping(false);
    let c0 = reader.get_cycle(0).unwrap();
    assert_eq!(c0.time, 10);
    assert!(c0.signal.is_empty());
    assert_eq!(c0.drift_bounds(), None);
    assert_eq!(c0.items.len(), 1);
    assert_eq!(reader.iter_cycles().len(), 3);
}

#[test]
fn mobilogram_bins_map_to_drift_times() {
    let reader = make_run();
    let mapped = reader.map_drift_bins(&vec![1, 0, 1]).unwrap();
    assert_eq!(mapped, vec![200, 100, 200]);
    assert!(reader.map_drift_bins(&vec![0, 7]).is_err());
    assert!(reader.map_drift_bins(&vec![-1]).is_err());
    assert!(reader.map_drift_bins(&vec![]).unwrap().is_empty());
}

#[test]
fn level_presence_reflects_the_catalog() {
    let reader = make_run();
    assert_eq!(reader.level_presence(), (true, true));
}

#[test]
fn repeated_retrieval_is_identical() {
    let reader = make_run();
    let a = reader.get_spectrum(1).unwrap();
    let b = reader.get_spectrum(1).unwrap();
    assert_eq!(a.mz_array, b.mz_array);
    assert_eq!(a.intensity_array, b.intensity_array);
    assert_eq!(a.time, b.time);
    assert_eq!(a.index, b.index);
    assert_eq!(a.identifier, b.identifier);
    assert_eq!(a.drift_time, b.drift_time);
    assert_eq!(a.ion_mode, b.ion_mode);
    assert_eq!(a.is_continuum, b.is_continuum);
    assert_eq!(a.items, b.items);
}

#[test]
fn iter_spectra_walks_the_whole_index() {
    let reader = make_run();
    let all = reader.iter_spectra();
    assert_eq!(all.len(), 4);
    let times: Vec<u64> = all.iter().map(|s| s.time).collect();
    assert_eq!(times, vec![10, 20, 20, 30]);
}

#[test]
fn merged_chromatograms_and_per_function_series() {
    let reader = make_run();
    let (t, y) = reader.tic().unwrap();
    assert_eq!(t, vec![0, 1, 2, 3]);
    assert_eq!(y, vec![10, 20, 30, 40]);
    let (bt, by) = reader.bpi().unwrap();
    assert_eq!(bt, vec![4]);
    assert_eq!(by, vec![50]);
    let (t0, y0) = reader.tic_of(0).unwrap();
    assert_eq!(t0, vec![0, 2]);
    assert_eq!(y0, vec![10, 30]);
    let (b0, i0) = reader.bpi_of(0).unwrap();
    assert_eq!(b0, vec![4]);
    assert_eq!(i0, vec![50]);
    assert!(reader.tic_of(9).is_err());
}

#[test]
fn chromatogram_positions_are_reserved_then_analog() {
    let reader = make_run();
    let tic = reader.get_chromatogram(0).unwrap();
    assert_eq!(tic.id, "TIC");
    assert_eq!(tic.kind, ChromatogramKind::TotalIonCurrent);
    assert_eq!(tic.times, vec![0, 1, 2, 3]);
    let bpc = reader.get_chromatogram(1).unwrap();
    assert_eq!(bpc.id, "BPC");
    assert_eq!(bpc.kind, ChromatogramKind::BasePeak);
    // position two: the first analog channel, its unit cleaned up and
    // classified
    let heater = reader.get_chromatogram(2).unwrap();
    assert_eq!(heater.id, "Column Heater");
    assert_eq!(heater.kind, ChromatogramKind::Temperature);
    assert_eq!(heater.unit_text, None);
    let mix = reader.get_chromatogram(3).unwrap();
    assert_eq!(mix.kind, ChromatogramKind::Unknown);
    assert_eq!(mix.unit_text.as_deref(), Some("furlongs"));
    assert!(reader.get_chromatogram(4).is_none());
    // a unit that only matches after trimming is not matched: the raw text
    // is preserved on an unknown record
    let padded = masslynx::reader::trace_to_chromatogram(&masslynx::reader::Trace::new(
        "Aux".to_string(),
        " C".to_string(),
        vec![1],
        vec![2],
    ));
    assert_eq!(padded.kind, ChromatogramKind::Unknown);
    assert_eq!(padded.unit_text.as_deref(), Some(" C"));
}

#[test]
fn analog_traces_enumerate_channels() {
    let reader = make_run();
    let traces = reader.iter_analogs();
    assert_eq!(traces.len(), 2);
    assert_eq!(traces[0].name, "Column Heater");
    assert_eq!(traces[1].unit, "furlongs");
    let one = reader.get_analog_trace(1).unwrap();
    assert_eq!(one.time, vec![6]);
    assert_eq!(one.intensity, vec![43]);
    assert!(reader.get_analog_trace(2).is_none());
}

#[test]
fn lock_mass_configuration_and_correction() {
    let mut reader = make_run();
    assert_eq!(reader.get_lock_mass_function(), Some(0));
    assert!(!reader.is_lock_mass_corrected());
    // the attached data supports a correction, so configuring a mass
    // applies one; the tolerance falls back to a quarter of a unit
    reader.set_lock_mass("556.2771".to_string(), None).unwrap();
    assert_eq!(reader.lockmass_processor.mass.as_deref(), Some("556.2771"));
    assert_eq!(reader.lockmass_processor.tolerance.as_deref(), Some("0.25"));
    assert!(reader.lockmass_processor.corrected);
    reader.lockmass_processor.remove_lock_mass_correction().unwrap();
    assert!(!reader.lockmass_processor.corrected);
    reader
        .set_lock_mass("556.2771".to_string(), Some("0.5".to_string()))
        .unwrap();
    assert_eq!(reader.lockmass_processor.tolerance.as_deref(), Some("0.5"));
}

#[test]
fn header_items_drop_empty_values() {
    let reader = make_run();
    let items = reader.header_items().unwrap();
    // code 302 holds an empty value and is dropped; 300 and 301 survive
    assert_eq!(items.len(), 2);
    assert_eq!(items[0].0, masslynx::constants::MassLynxHeaderItem::VERSION);
    assert_eq!(items[0].1, "4.1");
    assert_eq!(items[1].0, masslynx::constants::MassLynxHeaderItem::ACQUIRED_NAME);
    assert_eq!(items[1].1, "sample7");
}

#[test]
fn acquisition_information_is_typed() {
    let reader = make_run();
    let info = reader.acquisition_information().unwrap();
    // the stray key 77 belongs to no acquisition parameter and is dropped
    assert_eq!(info.len(), 1);
    assert_eq!(info[0].0, masslynx::constants::AcquisitionParameter::TYPE);
    assert_eq!(info[0].1, "DDA");
}

#[test]
fn scan_items_outside_the_catalog_are_empty() {
    let reader = make_run();
    // a function ordinal beyond the catalog yields an empty attribute list
    assert!(reader.read_scan_items(9, 0).unwrap().is_empty());
    // a scan the run does not have is a lookup error
    assert!(reader.read_scan_items(0, 9).is_err());
}
