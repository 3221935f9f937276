//! Index construction over a small three-function run: one MS1 function,
//! one analog channel, and one ion-mobility MS2 function.

use masslynx::base::{
    ChromatogramSeries, FunctionRecord, FunctionSignals, MassLynxAnalogReader,
    MassLynxChromatogramReader, MassLynxInfoReader, MassLynxLockMassProcessor, MassLynxParameters,
    MassLynxScanReader, ScanSignal,
};
use masslynx::constants::{MassLynxFunctionType, MassLynxIonMode, MassLynxScanItem};
use masslynx::paths::RawPaths;
use masslynx::reader::MassLynxReader;

fn params(entries: Vec<(i32, &str)>) -> MassLynxParameters {
    MassLynxParameters {
        entries: entries.into_iter().map(|(k, v)| (k, v.to_string())).collect(),
    }
}

fn scan_items_with(codes: Vec<i32>) -> MassLynxParameters {
    MassLynxParameters {
        entries: codes.into_iter().map(|k| (k, String::new())).collect(),
    }
}

fn make_run() -> MassLynxReader {
    let ce = MassLynxScanItem::COLLISION_ENERGY.code() as i32;
    let tic_item = MassLynxScanItem::TOTAL_ION_CURRENT.code() as i32;
    let set_mass = MassLynxScanItem::SET_MASS.code() as i32;

    // function 0: a plain MS1 function with three scans
    let f0 = FunctionRecord {
        function_type: MassLynxFunctionType::MS,
        ion_mode: MassLynxIonMode::ES_POS,
        is_continuum: true,
        retention_times: vec![10, 30, 50],
        drift_scan_count: 0,
        scan_items: scan_items_with(vec![ce, tic_item, set_mass]),
        scan_values: vec![
            params(vec![(ce, "35.5"), (tic_item, "12345"), (set_mass, "not a number")]),
            params(vec![(tic_item, "2222")]),
            params(vec![]),
        ],
    };
    // function 1: a diode-array channel, not spectrometric
    let f1 = FunctionRecord {
        function_type: MassLynxFunctionType::DAD,
        ion_mode: MassLynxIonMode::UNINITIALISED,
        is_continuum: false,
        retention_times: vec![1, 2],
        drift_scan_count: 0,
        scan_items: scan_items_with(vec![]),
        scan_values: vec![params(vec![]), params(vec![])],
    };
    // function 2: an MS2 function with ion-mobility structure (two drift bins)
    let f2 = FunctionRecord {
        function_type: MassLynxFunctionType::TOFD,
        ion_mode: MassLynxIonMode::ES_NEG,
        is_continuum: false,
        retention_times: vec![20, 30],
        drift_scan_count: 2,
        scan_items: scan_items_with(vec![ce]),
        scan_values: vec![params(vec![(ce, "18.0")]), params(vec![(ce, "21.0")])],
    };

    let info = MassLynxInfoReader {
        functions: vec![f0, f1, f2],
        has_lock_mass: true,
        lock_mass_function: 0,
        lock_mass_corrected: false,
        drift_times: vec![100, 200],
        header: params(vec![]),
        acquisition: params(vec![]),
    };

    let scan_reader = MassLynxScanReader {
        functions: vec![
            FunctionSignals {
                scans: vec![
                    ScanSignal { mz_array: vec![11, 12], intensity_array: vec![1, 2] },
                    ScanSignal { mz_array: vec![21], intensity_array: vec![3] },
                    ScanSignal { mz_array: vec![31], intensity_array: vec![4] },
                ],
                drift_scans: vec![],
            },
            FunctionSignals::default(),
            FunctionSignals {
                scans: vec![],
                drift_scans: vec![
                    vec![
                        ScanSignal { mz_array: vec![41], intensity_array: vec![5] },
                        ScanSignal { mz_array: vec![42], intensity_array: vec![6] },
                    ],
                    vec![
                        ScanSignal { mz_array: vec![51], intensity_array: vec![7] },
                        ScanSignal { mz_array: vec![52], intensity_array: vec![8] },
                    ],
                ],
            },
        ],
    };

    let chrom = MassLynxChromatogramReader {
        tic: vec![
            ChromatogramSeries { times: vec![0, 2], intensities: vec![10, 30] },
            ChromatogramSeries { times: vec![1, 3], intensities: vec![20, 40] },
            ChromatogramSeries { times: vec![], intensities: vec![] },
        ],
        bpi: vec![
            ChromatogramSeries { times: vec![0], intensities: vec![9] },
            ChromatogramSeries { times: vec![], intensities: vec![] },
            ChromatogramSeries { times: vec![], intensities: vec![] },
        ],
    };

    let listing: Vec<(String, bool)> = vec![
        ("_FUNC001.DAT".to_string(), false),
        ("_FUNC002.DAT".to_string(), false),
        ("_func003.dat".to_string(), false),
        ("_func003.cdt".to_string(), false),
        ("_CHRO001.DAT".to_string(), false),
        ("_HEADER.TXT".to_string(), false),
        ("subdir".to_string(), true),
    ];
    let path = RawPaths::from_listing("/data/sample.raw".to_string(), &listing);

    let analog = MassLynxAnalogReader {
        channels: vec![masslynx::base::AnalogChannel {
            description: "Pump Pressure".to_string(),
            units: "psi".to_string(),
            times: vec![5, 6],
            intensities: vec![70, 80],
        }],
    };

    MassLynxReader::open(
        path,
        info,
        scan_reader,
        chrom,
        MassLynxLockMassProcessor::default(),
        Some(analog),
    )
    .expect("opening an in-memory run cannot fail")
}

#[test]
fn function_catalog_is_classified() {
    let reader = make_run();
    let functions = reader.functions();
    assert_eq!(functions.len(), 3);
    assert_eq!(functions[0].ms_level, 1);
    assert_eq!(functions[1].ms_level, 0);
    assert_eq!(functions[2].ms_level, 2);
    assert!(functions[0].is_lockmass);
    assert!(!functions[2].is_lockmass);
    assert_eq!(functions[0].scan_count, 3);
    assert_eq!(functions[2].scan_count, 2);
    // the drift block is gated on the on-disk artifact: function 0 reports
    // no drift structure, function 2 has the companion artifact
    assert_eq!(functions[0].ion_mobility_block_size, 0);
    assert_eq!(functions[2].ion_mobility_block_size, 2);
    assert!(!functions[0].is_sonar());
}

#[test]
fn cycle_index_is_time_ordered_with_enumeration_ties() {
    let reader = make_run();
    let ci = reader.cycle_index();
    let got: Vec<(usize, usize, u64, usize)> =
        ci.iter().map(|e| (e.function, e.block, e.time, e.index)).collect();
    // times 10, 20, 30, 30, 50; the tie at 30 keeps function 0 before 2
    assert_eq!(
        got,
        vec![(0, 0, 10, 0), (2, 0, 20, 1), (0, 1, 30, 2), (2, 1, 30, 3), (0, 2, 50, 4)]
    );
    for w in ci.windows(2) {
        assert!(w[0].time <= w[1].time);
        if w[0].time == w[1].time {
            assert!((w[0].function, w[0].block) < (w[1].function, w[1].block));
        }
    }
}

#[test]
fn level_zero_functions_contribute_nothing() {
    let reader = make_run();
    assert!(reader.cycle_index().iter().all(|e| e.function != 1));
    assert!(reader.index().iter().all(|e| e.function != 1));
}

#[test]
fn spectrum_index_length_is_sum_of_expansions() {
    let reader = make_run();
    let ci = reader.cycle_index();
    let expected: usize = ci.iter().map(|e| e.im_block_size.max(1)).sum();
    assert_eq!(reader.len(), expected);
    assert_eq!(reader.len(), 7);
    let si = reader.index();
    assert_eq!(si[0].function, 0);
    assert_eq!(si[0].drift_index, None);
    assert_eq!(si[1].function, 2);
    assert_eq!(si[1].drift_index, Some(0));
    assert_eq!(si[2].drift_index, Some(1));
}

#[test]
fn native_ids_render_one_based_ordinals() {
    let reader = make_run();
    let si = reader.index();
    assert_eq!(si[0].native_id(), "function=1 process=0 scan=1");
    // a drift-expanded entry names its function, owning cycle and drift bin
    assert_eq!(si[1].native_id(), "function=3 process=0 scan=1 drift=1");
    assert_eq!(si[2].native_id(), "function=3 process=0 scan=1 drift=2");
    assert_eq!(si[3].native_id(), "function=1 process=0 scan=2");
    assert_eq!(si[4].native_id(), "function=3 process=0 scan=2 drift=1");
    let ci = reader.cycle_index();
    // a non-mobility cycle renders its global position
    assert_eq!(ci[0].native_id(), "function=1 process=0 scan=1");
    // a mobility cycle renders its drift-scan range from its position
    assert_eq!(ci[1].native_id(), "function=3 process=0 startScan=2 endScan=4");
}

#[test]
fn native_ids_are_unique_across_the_run() {
    let reader = make_run();
    let ids: Vec<String> = reader.index().iter().map(|e| e.native_id()).collect();
    for a in 0..ids.len() {
        for b in (a + 1)..ids.len() {
            assert_ne!(ids[a], ids[b], "entries {a} and {b} share an identifier");
        }
    }
}

#[test]
fn native_id_lookup_agrees_with_index() {
    let reader = make_run();
    // round trip: build the identifier of an entry, look it up, recover the
    // position — for every entry of the run
    for i in 0..reader.len() {
        let id = reader.index()[i].native_id();
        assert_eq!(reader.position_of_native_id(&id), Some(i));
    }
    assert_eq!(reader.position_of_native_id("function=9 process=0 scan=1"), None);
}

#[test]
fn cycle_id_lookup_agrees_with_position() {
    let reader = make_run();
    // cycle identifiers embed the global position, so the round trip holds
    // for every cycle, drift-capable or not
    for i in 0..reader.cycle_index().len() {
        let id = reader.cycle_index()[i].native_id();
        assert_eq!(reader.cycle_position_of_native_id(&id), Some(i));
    }
    assert_eq!(reader.cycle_position_of_native_id("function=9 process=0 scan=1"), None);
}

#[test]
fn translate_function_type_maps_levels() {
    let reader = make_run();
    assert_eq!(reader.translate_function_type_to_ms_level(0).unwrap(), 1);
    assert_eq!(reader.translate_function_type_to_ms_level(1).unwrap(), 0);
    assert_eq!(reader.translate_function_type_to_ms_level(2).unwrap(), 2);
    assert!(reader.translate_function_type_to_ms_level(7).is_err());
}

#[test]
fn path_registry_reports_artifacts() {
    let reader = make_run();
    assert_eq!(reader.path(), "/data/sample.raw");
    assert!(!reader.path.function_has_cdt(0));
    assert!(reader.path.function_has_cdt(2));
    assert_eq!(reader.path.function_paths.len(), 3);
    assert_eq!(reader.path.chromatogram_paths.len(), 1);
}
