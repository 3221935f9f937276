//! The acquisition indexing and record-assembly engine.
//!
//! A run stores its scans split across independent acquisition functions.
//! The engine enumerates and classifies the functions, builds one global
//! cycle index sorted by acquisition time, expands it into a spectrum index
//! with one entry per retrievable spectrum, and assembles spectrum, cycle
//! and chromatogram records on demand from the driver models in
//! [`crate::base`].

use vstd::prelude::*;

use crate::base::params_view;
use crate::base::spec_filter_requested;
use crate::base::MassLynxAnalogReader;
use crate::base::MassLynxChromatogramReader;
use crate::base::MassLynxError;
use crate::base::MassLynxInfoReader;
use crate::base::MassLynxLockMassProcessor;
use crate::base::MassLynxParameters;
use crate::base::MassLynxResult;
use crate::base::MassLynxScanReader;
use crate::constants::LockMassParameter;
use crate::constants::MassLynxFunctionType;
use crate::constants::MassLynxHeaderItem;
use crate::constants::MassLynxIonMode;
use crate::constants::MassLynxScanItem;
use crate::paths::RawPaths;
use crate::text::dec_spec;
use crate::text::render_u64;

verus! {

/// The text `function=`.
pub open spec fn id_function_part() -> Seq<char> {
    seq!['f', 'u', 'n', 'c', 't', 'i', 'o', 'n', '=']
}

/// The text ` process=0 scan=`.
pub open spec fn id_scan_part() -> Seq<char> {
    seq![' ', 'p', 'r', 'o', 'c', 'e', 's', 's', '=', '0', ' ', 's', 'c', 'a', 'n', '=']
}

/// The text ` process=0 startScan=`.
pub open spec fn id_start_scan_part() -> Seq<char> {
    seq![' ', 'p', 'r', 'o', 'c', 'e', 's', 's', '=', '0', ' ', 's', 't', 'a', 'r', 't',
        'S', 'c', 'a', 'n', '=']
}

/// The text ` endScan=`.
pub open spec fn id_end_scan_part() -> Seq<char> {
    seq![' ', 'e', 'n', 'd', 'S', 'c', 'a', 'n', '=']
}

/// The text ` drift=`.
pub open spec fn id_drift_part() -> Seq<char> {
    seq![' ', 'd', 'r', 'i', 'f', 't', '=']
}

/// The canonical native identifier of a scan: 1-based function and scan
/// ordinals.
pub open spec fn spec_scan_native_id(function: nat, scan: nat) -> Seq<char> {
    id_function_part() + dec_spec(function + 1) + id_scan_part() + dec_spec(scan + 1)
}

/// One retrievable spectrum: its function, owning cycle, and drift bin if
/// the cycle has ion-mobility structure.
#[derive(Debug, Default, Clone, Copy, PartialEq, Eq, Structural)]
pub struct SpectrumIndexEntry {
    pub function: usize,
    pub cycle: usize,
    pub drift_index: Option<u32>,
}

impl SpectrumIndexEntry {
    pub fn new(function: usize, cycle: usize, drift_index: Option<u32>) -> (r: Self)
        ensures
            r == (SpectrumIndexEntry { function, cycle, drift_index }),
    {
        Self { function, cycle, drift_index }
    }

    pub fn has_drift_time(&self) -> (b: bool)
        ensures
            b == (self.drift_index is Some),
    {
        self.drift_index.is_some()
    }

    /// The entry's canonical native identifier: 1-based function and scan
    /// (owning cycle) ordinals, extended by the 1-based drift bin where the
    /// cycle has ion-mobility structure.  The tuple (function, cycle,
    /// drift) appears whole, so distinct entries always render distinct
    /// identifiers.
    pub open spec fn spec_native_id(self) -> Seq<char> {
        match self.drift_index {
            None => spec_scan_native_id(self.function as nat, self.cycle as nat),
            Some(d) => spec_scan_native_id(self.function as nat, self.cycle as nat)
                + id_drift_part() + dec_spec(d as nat + 1),
        }
    }

    pub fn native_id(&self) -> (r: String)
        requires
            self.function < usize::MAX,
            self.cycle < usize::MAX,
        ensures
            r@ == self.spec_native_id(),
    {
        let mut s = String::from_str("function=");
        let fpart = render_u64(self.function as u64 + 1);
        s.append(fpart.as_str());
        s.append(" process=0 scan=");
        let spart = render_u64(self.cycle as u64 + 1);
        s.append(spart.as_str());
        match self.drift_index {
            Some(d) => {
                s.append(" drift=");
                let dpart = render_u64(d as u64 + 1);
                s.append(dpart.as_str());
            }
            None => {}
        }
        proof {
            reveal_strlit("function=");
            reveal_strlit(" process=0 scan=");
            reveal_strlit(" drift=");
            assert("function="@ =~= id_function_part());
            assert(" process=0 scan="@ =~= id_scan_part());
            assert(" drift="@ =~= id_drift_part());
        }
        s
    }
}

/// One acquisition cycle in the global index: its function, in-function
/// scan number, acquisition time in ticks, ion-mobility block size and
/// global position.
#[derive(Debug, Default, Clone, Copy, PartialEq, Eq, Structural)]
pub struct CycleIndexEntry {
    pub function: usize,
    pub block: usize,
    pub time: u64,
    pub im_block_size: usize,
    pub index: usize,
}

impl CycleIndexEntry {
    pub fn new(function: usize, block: usize, time: u64, im_block_size: usize, index: usize) -> (r: Self)
        ensures
            r == (CycleIndexEntry { function, block, time, im_block_size, index }),
    {
        Self { function, block, time, im_block_size, index }
    }

    pub fn has_drift_time(&self) -> (b: bool)
        ensures
            b == (self.im_block_size > 0),
    {
        self.im_block_size > 0
    }

    /// The entry's canonical native identifier: a scan range over the drift
    /// block when the cycle has ion-mobility structure, a single scan
    /// otherwise.
    pub open spec fn spec_native_id(self) -> Seq<char> {
        if self.im_block_size > 0 {
            id_function_part() + dec_spec(self.function as nat + 1)
                + id_start_scan_part() + dec_spec((self.im_block_size * self.index) as nat)
                + id_end_scan_part() + dec_spec((self.im_block_size * self.index + self.im_block_size) as nat)
        } else {
            spec_scan_native_id(self.function as nat, self.index as nat)
        }
    }

    pub fn native_id(&self) -> (r: String)
        requires
            self.function < usize::MAX,
            self.im_block_size == 0 ==> self.index < usize::MAX,
            self.im_block_size * self.index + self.im_block_size <= usize::MAX,
        ensures
            r@ == self.spec_native_id(),
    {
        proof {
            reveal_strlit("function=");
            reveal_strlit(" process=0 scan=");
            reveal_strlit(" process=0 startScan=");
            reveal_strlit(" endScan=");
            assert("function="@ =~= id_function_part());
            assert(" process=0 scan="@ =~= id_scan_part());
            assert(" process=0 startScan="@ =~= id_start_scan_part());
            assert(" endScan="@ =~= id_end_scan_part());
        }
        if self.im_block_size > 0 {
            proof {
                vstd::arithmetic::mul::lemma_mul_nonnegative(self.im_block_size as int, self.index as int);
            }
            let start: usize = self.im_block_size * self.index;
            let end: usize = start + self.im_block_size;
            let mut s = String::from_str("function=");
            let fpart = render_u64(self.function as u64 + 1);
            s.append(fpart.as_str());
            s.append(" process=0 startScan=");
            let startpart = render_u64(start as u64);
            s.append(startpart.as_str());
            s.append(" endScan=");
            let endpart = render_u64(end as u64);
            s.append(endpart.as_str());
            s
        } else {
            let mut s = String::from_str("function=");
            let fpart = render_u64(self.function as u64 + 1);
            s.append(fpart.as_str());
            s.append(" process=0 scan=");
            let spart = render_u64(self.index as u64 + 1);
            s.append(spart.as_str());
            s
        }
    }
}

/// The derived spectrum level of a scan role: 1 for precursor-type roles,
/// 2 for product-type roles, 0 for roles that produce no mass spectrum
/// (analog and diode-array channels among them).
pub open spec fn spec_ms_level_of(ftype: MassLynxFunctionType) -> u8 {
    match ftype {
        MassLynxFunctionType::MS => 1,
        MassLynxFunctionType::TOF => 1,
        MassLynxFunctionType::TOFM => 1,
        MassLynxFunctionType::PAR => 1,
        MassLynxFunctionType::MTOF => 1,
        MassLynxFunctionType::TOFP => 1,
        MassLynxFunctionType::MS2 => 2,
        MassLynxFunctionType::TOFD => 2,
        MassLynxFunctionType::DAU => 2,
        _ => 0,
    }
}

/// Maps a scan role to its derived level.
pub fn ms_level_of(ftype: MassLynxFunctionType) -> (r: u8)
    ensures
        r == spec_ms_level_of(ftype),
{
    match ftype {
        MassLynxFunctionType::MS
        | MassLynxFunctionType::TOF
        | MassLynxFunctionType::TOFM
        | MassLynxFunctionType::PAR
        | MassLynxFunctionType::MTOF
        | MassLynxFunctionType::TOFP => 1,
        MassLynxFunctionType::MS2 | MassLynxFunctionType::TOFD | MassLynxFunctionType::DAU => 2,
        _ => 0,
    }
}

/// One acquisition function as the catalog describes it.
#[derive(Debug, Clone)]
pub struct ScanFunction {
    pub function: usize,
    pub ftype: MassLynxFunctionType,
    pub ms_level: u8,
    pub is_lockmass: bool,
    pub ion_mobility_block_size: usize,
    pub scan_count: usize,
    pub scan_items: Vec<MassLynxScanItem>,
}

impl ScanFunction {
    pub fn new(
        function: usize,
        ftype: MassLynxFunctionType,
        is_lockmass: bool,
        ion_mobility_block_size: usize,
        scan_count: usize,
        ms_level: u8,
        scan_items: Vec<MassLynxScanItem>,
    ) -> (r: Self)
        ensures
            r.function == function,
            r.ftype == ftype,
            r.is_lockmass == is_lockmass,
            r.ion_mobility_block_size == ion_mobility_block_size,
            r.scan_count == scan_count,
            r.ms_level == ms_level,
            r.scan_items == scan_items,
    {
        Self { function, ftype, is_lockmass, ion_mobility_block_size, scan_count, ms_level, scan_items }
    }

    /// Whether the function acquired in the scanning-quadrupole ion-mobility
    /// mode, which its attribute kinds reveal.
    pub fn is_sonar(&self) -> (b: bool)
        ensures
            b == self.scan_items@.contains(MassLynxScanItem::SONAR_ENABLED),
    {
        let n = self.scan_items.len();
        let mut i: usize = 0;
        while i < n
            invariant
                i <= n == self.scan_items@.len(),
                forall|j: int| 0 <= j < i
                    ==> self.scan_items@[j] != MassLynxScanItem::SONAR_ENABLED,
            decreases n - i,
        {
            if self.scan_items[i] == MassLynxScanItem::SONAR_ENABLED {
                return true;
            }
            i += 1;
        }
        false
    }

    pub fn has_drift_time(&self) -> (b: bool)
        ensures
            b == (self.ion_mobility_block_size > 0),
    {
        self.ion_mobility_block_size > 0
    }
}

/// How record retrieval behaves: whether lock-mass reference cycles are
/// skipped, and whether signal arrays are loaded at all.
#[derive(Debug, Default, Clone, Copy, PartialEq, Eq, Structural)]
pub struct ScanReadingOptions {
    pub skip_lockmass: bool,
    pub load_signal: bool,
}

impl ScanReadingOptions {
    pub fn new(skip_lockmass: bool, load_signal: bool) -> (r: Self)
        ensures
            r.skip_lockmass == skip_lockmass,
            r.load_signal == load_signal,
    {
        Self { skip_lockmass, load_signal }
    }

    pub fn skip_lockmass(&self) -> (b: bool)
        ensures
            b == self.skip_lockmass,
    {
        self.skip_lockmass
    }

    pub fn set_skip_lockmass(&mut self, skip_lockmass: bool)
        ensures
            final(self).skip_lockmass == skip_lockmass,
            final(self).load_signal == old(self).load_signal,
    {
        self.skip_lockmass = skip_lockmass;
    }

    pub fn set_load_signal(&mut self, load_signal: bool)
        ensures
            final(self).load_signal == load_signal,
            final(self).skip_lockmass == old(self).skip_lockmass,
    {
        self.load_signal = load_signal;
    }

    pub fn load_signal(&self) -> (b: bool)
        ensures
            b == self.load_signal,
    {
        self.load_signal
    }
}

/// One assembled spectrum: signal, position, acquisition metadata and the
/// raw scan attributes.
#[derive(Debug, Default, Clone)]
pub struct Spectrum {
    pub mz_array: Vec<u32>,
    pub intensity_array: Vec<u32>,
    pub index: usize,
    pub time: u64,
    pub identifier: SpectrumIndexEntry,
    pub drift_time: Option<u64>,
    pub ion_mode: MassLynxIonMode,
    pub is_continuum: bool,
    pub items: Vec<(MassLynxScanItem, String)>,
}

impl Spectrum {
    pub fn new(
        mz_array: Vec<u32>,
        intensity_array: Vec<u32>,
        index: usize,
        time: u64,
        identifier: SpectrumIndexEntry,
        drift_time: Option<u64>,
        ion_mode: MassLynxIonMode,
        is_continuum: bool,
        items: Vec<(MassLynxScanItem, String)>,
    ) -> (r: Self)
        ensures
            r.mz_array == mz_array,
            r.intensity_array == intensity_array,
            r.index == index,
            r.time == time,
            r.identifier == identifier,
            r.drift_time == drift_time,
            r.ion_mode == ion_mode,
            r.is_continuum == is_continuum,
            r.items == items,
    {
        Self { mz_array, intensity_array, index, time, identifier, drift_time, ion_mode, is_continuum, items }
    }

    pub fn function(&self) -> (r: usize)
        ensures
            r == self.identifier.function,
    {
        self.identifier.function
    }

    pub fn native_id(&self) -> (r: String)
        requires
            self.identifier.function < usize::MAX,
            self.identifier.cycle < usize::MAX,
        ensures
            r@ == self.identifier.spec_native_id(),
    {
        self.identifier.native_id()
    }
}

/// One drift sub-scan of an ion-mobility cycle.
#[derive(Debug, Default, Clone)]
pub struct DriftScan {
    pub drift_time: u64,
    pub mz_array: Vec<u32>,
    pub intensity_array: Vec<u32>,
}

impl DriftScan {
    pub fn new(drift_time: u64, mz_array: Vec<u32>, intensity_array: Vec<u32>) -> (r: Self)
        ensures
            r.drift_time == drift_time,
            r.mz_array == mz_array,
            r.intensity_array == intensity_array,
    {
        Self { drift_time, mz_array, intensity_array }
    }
}

/// One assembled cycle: its drift sub-scans, position, acquisition metadata
/// and the raw scan attributes.
#[derive(Debug, Default, Clone)]
pub struct Cycle {
    pub signal: Vec<DriftScan>,
    pub index: usize,
    pub identifier: CycleIndexEntry,
    pub time: u64,
    pub ion_mode: MassLynxIonMode,
    pub is_continuum: bool,
    pub items: Vec<(MassLynxScanItem, String)>,
}

impl Cycle {
    pub fn new(
        signal: Vec<DriftScan>,
        index: usize,
        identifier: CycleIndexEntry,
        time: u64,
        ion_mode: MassLynxIonMode,
        is_continuum: bool,
        items: Vec<(MassLynxScanItem, String)>,
    ) -> (r: Self)
        ensures
            r.signal == signal,
            r.index == index,
            r.identifier == identifier,
            r.time == time,
            r.ion_mode == ion_mode,
            r.is_continuum == is_continuum,
            r.items == items,
    {
        Self { signal, index, identifier, time, ion_mode, is_continuum, items }
    }

    pub fn function(&self) -> (r: usize)
        ensures
            r == self.identifier.function,
    {
        self.identifier.function
    }

    pub fn native_id(&self) -> (r: String)
        requires
            self.identifier.function < usize::MAX,
            self.identifier.im_block_size == 0 ==> self.identifier.index < usize::MAX,
            self.identifier.im_block_size * self.identifier.index + self.identifier.im_block_size
                <= usize::MAX,
        ensures
            r@ == self.identifier.spec_native_id(),
    {
        self.identifier.native_id()
    }

    /// The ion-mobility bounds of the frame: the drift times of its first
    /// and last sub-scans, when it has any.
    pub fn drift_bounds(&self) -> (r: Option<(u64, u64)>)
        ensures
            match r {
                Some(b) => self.signal@.len() > 0
                    && b.0 == self.signal@[0].drift_time
                    && b.1 == self.signal@[self.signal@.len() - 1].drift_time,
                None => self.signal@.len() == 0,
            },
    {
        if self.signal.len() == 0 {
            None
        } else {
            Some((self.signal[0].drift_time, self.signal[self.signal.len() - 1].drift_time))
        }
    }
}

/// The strict order the cycle index is sorted by: acquisition time first,
/// then the enumeration order of (function, in-function scan).  Tying the
/// tie-break to enumeration order is what makes the index deterministic.
pub open spec fn cycle_key_lt(a: CycleIndexEntry, b: CycleIndexEntry) -> bool {
    ||| a.time < b.time
    ||| (a.time == b.time && a.function < b.function)
    ||| (a.time == b.time && a.function == b.function && a.block < b.block)
}

/// No later entry orders strictly before an earlier one.
pub open spec fn entries_sorted(s: Seq<CycleIndexEntry>) -> bool {
    forall|i: int, j: int| 0 <= i < j < s.len() ==> !cycle_key_lt(#[trigger] s[j], #[trigger] s[i])
}

/// Inserts an entry after every entry it does not order strictly before.
pub open spec fn sorted_insert(s: Seq<CycleIndexEntry>, e: CycleIndexEntry) -> Seq<CycleIndexEntry>
    decreases s.len(),
{
    if s.len() == 0 {
        seq![e]
    } else if cycle_key_lt(e, s[0]) {
        seq![e] + s
    } else {
        seq![s[0]] + sorted_insert(s.skip(1), e)
    }
}

/// The stable sort of a sequence of entries: each inserted in turn.
pub open spec fn sort_entries(s: Seq<CycleIndexEntry>) -> Seq<CycleIndexEntry>
    decreases s.len(),
{
    if s.len() == 0 {
        Seq::empty()
    } else {
        sorted_insert(sort_entries(s.drop_last()), s.last())
    }
}

/// Every element of an insertion result is the inserted entry or one of the
/// original elements.
proof fn lemma_sorted_insert_elems(s: Seq<CycleIndexEntry>, e: CycleIndexEntry)
    ensures
        sorted_insert(s, e).len() == s.len() + 1,
        forall|k: int| 0 <= k < sorted_insert(s, e).len()
            ==> (#[trigger] sorted_insert(s, e)[k] == e || s.contains(sorted_insert(s, e)[k])),
    decreases s.len(),
{
    if s.len() == 0 {
    } else if cycle_key_lt(e, s[0]) {
        assert forall|k: int| 0 <= k < sorted_insert(s, e).len()
            implies (#[trigger] sorted_insert(s, e)[k] == e || s.contains(sorted_insert(s, e)[k])) by {
            if k > 0 {
                assert(sorted_insert(s, e)[k] == s[k - 1]);
            }
        }
    } else {
        lemma_sorted_insert_elems(s.skip(1), e);
        assert forall|k: int| 0 <= k < sorted_insert(s, e).len()
            implies (#[trigger] sorted_insert(s, e)[k] == e || s.contains(sorted_insert(s, e)[k])) by {
            if k == 0 {
                assert(sorted_insert(s, e)[0] == s[0]);
                assert(s.contains(s[0]));
            } else {
                let rest = sorted_insert(s.skip(1), e);
                assert(sorted_insert(s, e)[k] == rest[k - 1]);
                if rest[k - 1] == e {
                } else {
                    let j = choose|j: int| 0 <= j < s.skip(1).len() && s.skip(1)[j] == rest[k - 1];
                    assert(s[j + 1] == rest[k - 1]);
                }
            }
        }
    }
}

/// Insertion keeps the sequence sorted.
proof fn lemma_sorted_insert_sorted(s: Seq<CycleIndexEntry>, e: CycleIndexEntry)
    requires
        entries_sorted(s),
    ensures
        entries_sorted(sorted_insert(s, e)),
    decreases s.len(),
{
    if s.len() == 0 {
    } else if cycle_key_lt(e, s[0]) {
        let r = seq![e] + s;
        assert forall|i: int, j: int| 0 <= i < j < r.len()
            implies !cycle_key_lt(#[trigger] r[j], #[trigger] r[i]) by {
            if i == 0 {
                assert(r[j] == s[j - 1]);
                if j > 1 {
                    assert(!cycle_key_lt(s[j - 1], s[0]));
                }
            } else {
                assert(r[i] == s[i - 1]);
                assert(r[j] == s[j - 1]);
            }
        }
    } else {
        assert forall|i: int, j: int| 0 <= i < j < s.skip(1).len()
            implies !cycle_key_lt(#[trigger] s.skip(1)[j], #[trigger] s.skip(1)[i]) by {
            assert(s.skip(1)[i] == s[i + 1]);
            assert(s.skip(1)[j] == s[j + 1]);
        }
        lemma_sorted_insert_sorted(s.skip(1), e);
        lemma_sorted_insert_elems(s.skip(1), e);
        let rest = sorted_insert(s.skip(1), e);
        let r = seq![s[0]] + rest;
        assert forall|i: int, j: int| 0 <= i < j < r.len()
            implies !cycle_key_lt(#[trigger] r[j], #[trigger] r[i]) by {
            if i == 0 {
                assert(r[j] == rest[j - 1]);
                if rest[j - 1] == e {
                    // the inserted entry does not order before the head
                } else {
                    let t = choose|t: int| 0 <= t < s.skip(1).len() && s.skip(1)[t] == rest[j - 1];
                    assert(s[t + 1] == rest[j - 1]);
                    assert(!cycle_key_lt(s[t + 1], s[0]));
                }
            } else {
                assert(r[i] == rest[i - 1]);
                assert(r[j] == rest[j - 1]);
            }
        }
    }
}

/// Insertion adds exactly the inserted entry to the contents.
proof fn lemma_sorted_insert_multiset(s: Seq<CycleIndexEntry>, e: CycleIndexEntry)
    ensures
        sorted_insert(s, e).to_multiset() == s.to_multiset().insert(e),
    decreases s.len(),
{
    broadcast use vstd::seq_lib::group_to_multiset_ensures;
    broadcast use vstd::multiset::group_multiset_axioms;
    if s.len() == 0 {
        assert(sorted_insert(s, e) =~= Seq::empty().push(e));
        assert(Seq::<CycleIndexEntry>::empty().push(e).to_multiset()
            =~= Seq::<CycleIndexEntry>::empty().to_multiset().insert(e));
        assert(s.to_multiset() =~= Seq::<CycleIndexEntry>::empty().to_multiset());
    } else if cycle_key_lt(e, s[0]) {
        vstd::seq_lib::lemma_multiset_commutative(seq![e], s);
        assert(seq![e].to_multiset() =~= Seq::<CycleIndexEntry>::empty().to_multiset().insert(e));
        assert((seq![e] + s).to_multiset() =~= s.to_multiset().insert(e));
    } else {
        lemma_sorted_insert_multiset(s.skip(1), e);
        vstd::seq_lib::lemma_multiset_commutative(seq![s[0]], sorted_insert(s.skip(1), e));
        vstd::seq_lib::lemma_multiset_commutative(seq![s[0]], s.skip(1));
        assert(seq![s[0]] + s.skip(1) =~= s);
        assert(seq![s[0]].to_multiset()
            =~= Seq::<CycleIndexEntry>::empty().to_multiset().insert(s[0]));
        assert(sorted_insert(s, e).to_multiset() =~= s.to_multiset().insert(e));
    }
}

/// The stable sort is sorted and keeps the contents.
pub proof fn lemma_sort_entries_ensures(s: Seq<CycleIndexEntry>)
    ensures
        entries_sorted(sort_entries(s)),
        sort_entries(s).to_multiset() == s.to_multiset(),
        sort_entries(s).len() == s.len(),
    decreases s.len(),
{
    broadcast use vstd::seq_lib::group_to_multiset_ensures;
    if s.len() == 0 {
    } else {
        lemma_sort_entries_ensures(s.drop_last());
        lemma_sorted_insert_sorted(sort_entries(s.drop_last()), s.last());
        lemma_sorted_insert_multiset(sort_entries(s.drop_last()), s.last());
        lemma_sorted_insert_elems(sort_entries(s.drop_last()), s.last());
        assert(s.drop_last().push(s.last()) =~= s);
        assert(s.drop_last().push(s.last()).to_multiset()
            == s.drop_last().to_multiset().insert(s.last()));
    }
}

/// Where the scan finds the insertion point, insertion is placement at it.
proof fn lemma_sorted_insert_position(s: Seq<CycleIndexEntry>, e: CycleIndexEntry, p: int)
    requires
        0 <= p <= s.len(),
        forall|j: int| 0 <= j < p ==> !cycle_key_lt(e, #[trigger] s[j]),
        p < s.len() ==> cycle_key_lt(e, s[p]),
    ensures
        sorted_insert(s, e) == s.insert(p, e),
    decreases p,
{
    if s.len() == 0 {
        assert(sorted_insert(s, e) =~= s.insert(0, e));
    } else if p == 0 {
        assert(seq![e] + s =~= s.insert(0, e));
    } else {
        assert(!cycle_key_lt(e, s[0]));
        assert forall|j: int| 0 <= j < p - 1 implies !cycle_key_lt(e, #[trigger] s.skip(1)[j]) by {
            assert(s.skip(1)[j] == s[j + 1]);
        }
        if p - 1 < s.skip(1).len() {
            assert(s.skip(1)[p - 1] == s[p as int]);
        }
        lemma_sorted_insert_position(s.skip(1), e, p - 1);
        assert(seq![s[0]] + s.skip(1).insert(p - 1, e) =~= s.insert(p, e));
    }
}

/// Decides the sort order of two entries.
fn entry_precedes(a: &CycleIndexEntry, b: &CycleIndexEntry) -> (r: bool)
    ensures
        r == cycle_key_lt(*a, *b),
{
    if a.time < b.time {
        true
    } else if a.time == b.time {
        if a.function < b.function {
            true
        } else {
            a.function == b.function && a.block < b.block
        }
    } else {
        false
    }
}

/// Inserts an entry into a sorted vector at its stable position.
fn insert_entry_sorted(v: &mut Vec<CycleIndexEntry>, e: CycleIndexEntry)
    ensures
        final(v)@ == sorted_insert(old(v)@, e),
{
    let n = v.len();
    let mut p: usize = 0;
    while p < n
        invariant
            p <= n == v@.len(),
            v == old(v),
            forall|j: int| 0 <= j < p ==> !cycle_key_lt(e, #[trigger] v@[j]),
        decreases n - p,
    {
        if entry_precedes(&e, &v[p]) {
            proof {
                lemma_sorted_insert_position(v@, e, p as int);
            }
            v.insert(p, e);
            return;
        }
        p += 1;
    }
    proof {
        lemma_sorted_insert_position(v@, e, n as int);
    }
    v.insert(n, e);
}

/// The cycle entries one function contributes, in scan order, before global
/// positions are known.
pub open spec fn spec_function_cycles(func: ScanFunction, times: Seq<u64>) -> Seq<CycleIndexEntry> {
    Seq::new(func.scan_count as nat, |i: int| CycleIndexEntry {
        function: func.function,
        block: i as usize,
        time: times[i],
        im_block_size: func.ion_mobility_block_size,
        index: 0,
    })
}

/// The catalog names only functions the metadata model has, with scan
/// counts its time tables cover; only then can every retention time be
/// fetched.
pub open spec fn spec_catalog_consistent(functions: Seq<ScanFunction>, info: &MassLynxInfoReader) -> bool {
    forall|k: int| 0 <= k < functions.len() ==> ((#[trigger] functions[k]).ms_level > 0
        && functions[k].scan_count > 0
        ==> functions[k].function < info.functions@.len()
            && functions[k].scan_count
                <= info.functions@[functions[k].function as int].retention_times@.len())
}

/// The cycle entries of all spectrometric functions, in enumeration order:
/// function ascending, then in-function scan ascending.  Functions whose
/// level is zero contribute nothing.
pub open spec fn spec_enumerate_cycles(functions: Seq<ScanFunction>, info: &MassLynxInfoReader) -> Seq<CycleIndexEntry>
    decreases functions.len(),
{
    if functions.len() == 0 {
        Seq::empty()
    } else {
        let func = functions.last();
        spec_enumerate_cycles(functions.drop_last(), info) + (if func.ms_level > 0 {
            spec_function_cycles(func, info.functions@[func.function as int].retention_times@)
        } else {
            Seq::empty()
        })
    }
}

/// The entry with its global position written in.
pub open spec fn spec_with_position(e: CycleIndexEntry, i: int) -> CycleIndexEntry {
    CycleIndexEntry { index: i as usize, ..e }
}

/// Every entry stamped with its position in the sequence.
pub open spec fn spec_assign_positions(s: Seq<CycleIndexEntry>) -> Seq<CycleIndexEntry> {
    Seq::new(s.len(), |i: int| spec_with_position(s[i], i))
}

/// The global cycle index a catalog and metadata model define: all cycles
/// of spectrometric functions, stably sorted by acquisition time, with
/// global positions assigned.
pub open spec fn spec_cycle_index(functions: Seq<ScanFunction>, info: &MassLynxInfoReader) -> Seq<CycleIndexEntry> {
    spec_assign_positions(sort_entries(spec_enumerate_cycles(functions, info)))
}

/// Builds the global cycle index: every scan of every function with a
/// positive level becomes one entry carrying its acquisition time and the
/// function's drift block size; the entries are stably sorted by time and
/// stamped with their global positions.
pub fn build_cycle_index(functions: &Vec<ScanFunction>, info: &MassLynxInfoReader) -> (r: MassLynxResult<Vec<CycleIndexEntry>>)
    ensures
        match r {
            Ok(v) => spec_catalog_consistent(functions@, info)
                && v@ == spec_cycle_index(functions@, info),
            Err(_) => !spec_catalog_consistent(functions@, info),
        },
{
    let mut sorted: Vec<CycleIndexEntry> = Vec::new();
    let nf = functions.len();
    let mut f: usize = 0;
    proof {
        assert(functions@.take(0) =~= Seq::<ScanFunction>::empty());
        assert(sorted@ =~= sort_entries(spec_enumerate_cycles(functions@.take(0), info)));
    }
    while f < nf
        invariant
            f <= nf == functions@.len(),
            sorted@ == sort_entries(spec_enumerate_cycles(functions@.take(f as int), info)),
            forall|k: int| 0 <= k < f ==> ((#[trigger] functions@[k]).ms_level > 0
                && functions@[k].scan_count > 0
                ==> functions@[k].function < info.functions@.len()
                    && functions@[k].scan_count
                        <= info.functions@[functions@[k].function as int].retention_times@.len()),
        decreases nf - f,
    {
        let func = &functions[f];
        proof {
            assert(functions@.take(f + 1).drop_last() =~= functions@.take(f as int));
            assert(functions@.take(f + 1).last() == functions@[f as int]);
        }
        if func.ms_level > 0 {
            let ghost fstart = spec_enumerate_cycles(functions@.take(f as int), info);
            let ghost times = info.functions@[func.function as int].retention_times@;
            let sc = func.scan_count;
            let mut i: usize = 0;
            proof {
                assert(spec_function_cycles(*func, times).take(0)
                    =~= Seq::<CycleIndexEntry>::empty());
                assert(fstart + spec_function_cycles(*func, times).take(0) =~= fstart);
            }
            while i < sc
                invariant
                    i <= sc == func.scan_count,
                    func == functions@[f as int],
                    func.ms_level > 0,
                    f < nf == functions@.len(),
                    fstart == spec_enumerate_cycles(functions@.take(f as int), info),
                    i > 0 ==> func.function < info.functions@.len()
                        && times == info.functions@[func.function as int].retention_times@
                        && i <= times.len(),
                    times == info.functions@[func.function as int].retention_times@,
                    sorted@ == sort_entries(fstart + spec_function_cycles(*func, times).take(i as int)),
                decreases sc - i,
            {
                let rt = match info.get_retention_time(func.function, i) {
                    Ok(rt) => rt,
                    Err(e) => {
                        return Err(e);
                    }
                };
                let entry = CycleIndexEntry::new(func.function, i, rt, func.ion_mobility_block_size, 0);
                proof {
                    let grown = fstart + spec_function_cycles(*func, times).take(i + 1);
                    assert(grown.drop_last() =~= fstart + spec_function_cycles(*func, times).take(i as int));
                    assert(grown.last() == spec_function_cycles(*func, times)[i as int]);
                    assert(spec_function_cycles(*func, times)[i as int] == entry);
                }
                insert_entry_sorted(&mut sorted, entry);
                i += 1;
            }
            proof {
                assert(spec_function_cycles(*func, times).take(sc as int)
                    =~= spec_function_cycles(*func, times));
                assert(spec_enumerate_cycles(functions@.take(f + 1), info)
                    =~= fstart + spec_function_cycles(*func, times));
            }
        } else {
            proof {
                assert(spec_enumerate_cycles(functions@.take(f + 1), info)
                    =~= spec_enumerate_cycles(functions@.take(f as int), info));
            }
        }
        f += 1;
    }
    proof {
        assert(functions@.take(nf as int) =~= functions@);
    }
    // stamp each entry with its global position
    let mut stamped: Vec<CycleIndexEntry> = Vec::new();
    let n = sorted.len();
    let mut i: usize = 0;
    while i < n
        invariant
            i <= n == sorted@.len(),
            stamped@.len() == i,
            forall|j: int| 0 <= j < i ==> #[trigger] stamped@[j] == spec_with_position(sorted@[j], j),
        decreases n - i,
    {
        let e = &sorted[i];
        stamped.push(CycleIndexEntry { index: i, ..*e });
        i += 1;
    }
    proof {
        assert(stamped@ =~= spec_assign_positions(sorted@));
    }
    Ok(stamped)
}

/// The spectrum entries one cycle expands to: one per drift bin when the
/// cycle has ion-mobility structure, exactly one otherwise.
pub open spec fn spec_cycle_spectra(e: CycleIndexEntry) -> Seq<SpectrumIndexEntry> {
    if e.im_block_size > 0 {
        Seq::new(e.im_block_size as nat, |j: int| SpectrumIndexEntry {
            function: e.function,
            cycle: e.block,
            drift_index: Some(j as u32),
        })
    } else {
        seq![SpectrumIndexEntry { function: e.function, cycle: e.block, drift_index: None }]
    }
}

/// The spectrum index a cycle index defines: each cycle's expansion, in
/// cycle order.
pub open spec fn spec_flatten_cycles(s: Seq<CycleIndexEntry>) -> Seq<SpectrumIndexEntry>
    decreases s.len(),
{
    if s.len() == 0 {
        Seq::empty()
    } else {
        spec_flatten_cycles(s.drop_last()) + spec_cycle_spectra(s.last())
    }
}

/// The number of spectra a cycle sequence expands to: each cycle counts its
/// drift block size, or one when it has none.
pub open spec fn spec_expanded_total(s: Seq<CycleIndexEntry>) -> int
    decreases s.len(),
{
    if s.len() == 0 {
        0
    } else {
        spec_expanded_total(s.drop_last())
            + (if s.last().im_block_size > 0 { s.last().im_block_size as int } else { 1 })
    }
}

/// The flattened index is exactly as long as the expansion counts demand.
pub proof fn lemma_flatten_len(s: Seq<CycleIndexEntry>)
    ensures
        spec_flatten_cycles(s).len() == spec_expanded_total(s),
    decreases s.len(),
{
    if s.len() > 0 {
        lemma_flatten_len(s.drop_last());
    }
}

/// Expands the sorted cycle index into the spectrum index: one entry per
/// drift bin for ion-mobility cycles, one entry per cycle otherwise.  The
/// emission order defines the global spectrum numbering.
pub fn build_spectrum_index(cycle_index: &Vec<CycleIndexEntry>) -> (r: Vec<SpectrumIndexEntry>)
    ensures
        r@ == spec_flatten_cycles(cycle_index@),
{
    let mut out: Vec<SpectrumIndexEntry> = Vec::new();
    let n = cycle_index.len();
    let mut i: usize = 0;
    proof {
        assert(cycle_index@.take(0) =~= Seq::<CycleIndexEntry>::empty());
        assert(out@ =~= spec_flatten_cycles(cycle_index@.take(0)));
    }
    while i < n
        invariant
            i <= n == cycle_index@.len(),
            out@ == spec_flatten_cycles(cycle_index@.take(i as int)),
        decreases n - i,
    {
        let e = &cycle_index[i];
        proof {
            assert(cycle_index@.take(i + 1).drop_last() =~= cycle_index@.take(i as int));
            assert(cycle_index@.take(i + 1).last() == cycle_index@[i as int]);
        }
        if e.im_block_size > 0 {
            let b = e.im_block_size;
            let ghost before = out@;
            let mut j: usize = 0;
            proof {
                assert(before + spec_cycle_spectra(*e).take(0) =~= before);
            }
            while j < b
                invariant
                    j <= b,
                    e == cycle_index@[i as int],
                    i < n == cycle_index@.len(),
                    b == e.im_block_size,
                    b > 0,
                    out@ == before + spec_cycle_spectra(*e).take(j as int),
                decreases b - j,
            {
                out.push(SpectrumIndexEntry::new(e.function, e.block, Some(#[verifier::truncate] (j as u32))));
                proof {
                    assert(spec_cycle_spectra(*e)[j as int] == (SpectrumIndexEntry {
                        function: e.function,
                        cycle: e.block,
                        drift_index: Some(j as u32),
                    }));
                    assert(before + spec_cycle_spectra(*e).take(j as int)
                        + seq![spec_cycle_spectra(*e)[j as int]]
                        =~= before + spec_cycle_spectra(*e).take(j + 1));
                }
                j += 1;
            }
            proof {
                assert(spec_cycle_spectra(*e).take(b as int) =~= spec_cycle_spectra(*e));
            }
        } else {
            out.push(SpectrumIndexEntry::new(e.function, e.block, None));
            proof {
                assert(out@ =~= spec_flatten_cycles(cycle_index@.take(i as int))
                    + spec_cycle_spectra(cycle_index@[i as int]));
            }
        }
        i += 1;
    }
    proof {
        assert(cycle_index@.take(n as int) =~= cycle_index@);
    }
    out
}

/// One analog or auxiliary trace: name, physical unit, and its series.
#[derive(Debug, Default, Clone)]
pub struct Trace {
    pub name: String,
    pub unit: String,
    pub time: Vec<u64>,
    pub intensity: Vec<u32>,
}

impl Trace {
    pub fn new(name: String, unit: String, time: Vec<u64>, intensity: Vec<u32>) -> (r: Self)
        ensures
            r.name == name,
            r.unit == unit,
            r.time == time,
            r.intensity == intensity,
    {
        Self { name, unit, time, intensity }
    }
}

/// The typed (kind, value) pairs of a parameter store: entries whose key
/// code belongs to the scan-attribute vocabulary, in store order.
pub open spec fn spec_typed_scan_pairs(s: Seq<(i32, Seq<char>)>) -> Seq<(MassLynxScanItem, Seq<char>)>
    decreases s.len(),
{
    if s.len() == 0 {
        Seq::empty()
    } else {
        let rest = spec_typed_scan_pairs(s.drop_last());
        match MassLynxScanItem::from_code_spec(s.last().0) {
            Some(k) => rest.push((k, s.last().1)),
            None => rest,
        }
    }
}

/// The scan-attribute kinds a parameter store's keys name, in store order.
pub open spec fn spec_typed_scan_keys(s: Seq<(i32, Seq<char>)>) -> Seq<MassLynxScanItem>
    decreases s.len(),
{
    if s.len() == 0 {
        Seq::empty()
    } else {
        let rest = spec_typed_scan_keys(s.drop_last());
        match MassLynxScanItem::from_code_spec(s.last().0) {
            Some(k) => rest.push(k),
            None => rest,
        }
    }
}

/// The typed (item, value) pairs of a parameter store under the header
/// vocabulary, in store order.
pub open spec fn spec_typed_header_pairs(s: Seq<(i32, Seq<char>)>) -> Seq<(MassLynxHeaderItem, Seq<char>)>
    decreases s.len(),
{
    if s.len() == 0 {
        Seq::empty()
    } else {
        let rest = spec_typed_header_pairs(s.drop_last());
        match MassLynxHeaderItem::from_code_spec(s.last().0) {
            Some(k) => rest.push((k, s.last().1)),
            None => rest,
        }
    }
}

/// The typed (parameter, value) pairs of a parameter store under the
/// acquisition vocabulary, in store order.
pub open spec fn spec_typed_acquisition_pairs(s: Seq<(i32, Seq<char>)>) -> Seq<(crate::constants::AcquisitionParameter, Seq<char>)>
    decreases s.len(),
{
    if s.len() == 0 {
        Seq::empty()
    } else {
        let rest = spec_typed_acquisition_pairs(s.drop_last());
        match crate::constants::AcquisitionParameter::from_code_spec(s.last().0) {
            Some(k) => rest.push((k, s.last().1)),
            None => rest,
        }
    }
}

/// Collects the scan-attribute pairs of a store.
fn typed_scan_pairs(p: &MassLynxParameters) -> (r: Vec<(MassLynxScanItem, String)>)
    ensures
        r@.map_values(|e: (MassLynxScanItem, String)| (e.0, e.1@))
            == spec_typed_scan_pairs(params_view(p)),
{
    let mut out: Vec<(MassLynxScanItem, String)> = Vec::new();
    let n = p.entries.len();
    let mut i: usize = 0;
    proof {
        assert(params_view(p).take(0) =~= Seq::<(i32, Seq<char>)>::empty());
        assert(out@.map_values(|e: (MassLynxScanItem, String)| (e.0, e.1@))
            =~= spec_typed_scan_pairs(params_view(p).take(0)));
    }
    while i < n
        invariant
            i <= n == p.entries@.len(),
            out@.map_values(|e: (MassLynxScanItem, String)| (e.0, e.1@))
                == spec_typed_scan_pairs(params_view(p).take(i as int)),
        decreases n - i,
    {
        proof {
            assert(params_view(p).take(i + 1).drop_last() =~= params_view(p).take(i as int));
            assert(params_view(p).take(i + 1).last()
                == (p.entries@[i as int].0, p.entries@[i as int].1@));
        }
        let e = &p.entries[i];
        match MassLynxScanItem::from_code(e.0) {
            Some(k) => {
                out.push((k, e.1.clone()));
                proof {
                    assert(out@.map_values(|q: (MassLynxScanItem, String)| (q.0, q.1@))
                        =~= spec_typed_scan_pairs(params_view(p).take(i + 1)));
                }
            }
            None => {}
        }
        i += 1;
    }
    proof {
        assert(params_view(p).take(n as int) =~= params_view(p));
    }
    out
}

/// Collects the scan-attribute kinds a store's keys name.
fn typed_scan_keys(p: &MassLynxParameters) -> (r: Vec<MassLynxScanItem>)
    ensures
        r@ == spec_typed_scan_keys(params_view(p)),
{
    let mut out: Vec<MassLynxScanItem> = Vec::new();
    let n = p.entries.len();
    let mut i: usize = 0;
    proof {
        assert(params_view(p).take(0) =~= Seq::<(i32, Seq<char>)>::empty());
        assert(out@ =~= spec_typed_scan_keys(params_view(p).take(0)));
    }
    while i < n
        invariant
            i <= n == p.entries@.len(),
            out@ == spec_typed_scan_keys(params_view(p).take(i as int)),
        decreases n - i,
    {
        proof {
            assert(params_view(p).take(i + 1).drop_last() =~= params_view(p).take(i as int));
            assert(params_view(p).take(i + 1).last()
                == (p.entries@[i as int].0, p.entries@[i as int].1@));
        }
        match MassLynxScanItem::from_code(p.entries[i].0) {
            Some(k) => {
                out.push(k);
            }
            None => {}
        }
        i += 1;
    }
    proof {
        assert(params_view(p).take(n as int) =~= params_view(p));
    }
    out
}

/// Collects the header pairs of a store.
fn typed_header_pairs(p: &MassLynxParameters) -> (r: Vec<(MassLynxHeaderItem, String)>)
    ensures
        r@.map_values(|e: (MassLynxHeaderItem, String)| (e.0, e.1@))
            == spec_typed_header_pairs(params_view(p)),
{
    let mut out: Vec<(MassLynxHeaderItem, String)> = Vec::new();
    let n = p.entries.len();
    let mut i: usize = 0;
    proof {
        assert(params_view(p).take(0) =~= Seq::<(i32, Seq<char>)>::empty());
        assert(out@.map_values(|e: (MassLynxHeaderItem, String)| (e.0, e.1@))
            =~= spec_typed_header_pairs(params_view(p).take(0)));
    }
    while i < n
        invariant
            i <= n == p.entries@.len(),
            out@.map_values(|e: (MassLynxHeaderItem, String)| (e.0, e.1@))
                == spec_typed_header_pairs(params_view(p).take(i as int)),
        decreases n - i,
    {
        proof {
            assert(params_view(p).take(i + 1).drop_last() =~= params_view(p).take(i as int));
            assert(params_view(p).take(i + 1).last()
                == (p.entries@[i as int].0, p.entries@[i as int].1@));
        }
        let e = &p.entries[i];
        match MassLynxHeaderItem::from_code(e.0) {
            Some(k) => {
                out.push((k, e.1.clone()));
                proof {
                    assert(out@.map_values(|q: (MassLynxHeaderItem, String)| (q.0, q.1@))
                        =~= spec_typed_header_pairs(params_view(p).take(i + 1)));
                }
            }
            None => {}
        }
        i += 1;
    }
    proof {
        assert(params_view(p).take(n as int) =~= params_view(p));
    }
    out
}

/// Collects the acquisition pairs of a store.
fn typed_acquisition_pairs(p: &MassLynxParameters) -> (r: Vec<(crate::constants::AcquisitionParameter, String)>)
    ensures
        r@.map_values(|e: (crate::constants::AcquisitionParameter, String)| (e.0, e.1@))
            == spec_typed_acquisition_pairs(params_view(p)),
{
    let mut out: Vec<(crate::constants::AcquisitionParameter, String)> = Vec::new();
    let n = p.entries.len();
    let mut i: usize = 0;
    proof {
        assert(params_view(p).take(0) =~= Seq::<(i32, Seq<char>)>::empty());
        assert(out@.map_values(|e: (crate::constants::AcquisitionParameter, String)| (e.0, e.1@))
            =~= spec_typed_acquisition_pairs(params_view(p).take(0)));
    }
    while i < n
        invariant
            i <= n == p.entries@.len(),
            out@.map_values(|e: (crate::constants::AcquisitionParameter, String)| (e.0, e.1@))
                == spec_typed_acquisition_pairs(params_view(p).take(i as int)),
        decreases n - i,
    {
        proof {
            assert(params_view(p).take(i + 1).drop_last() =~= params_view(p).take(i as int));
            assert(params_view(p).take(i + 1).last()
                == (p.entries@[i as int].0, p.entries@[i as int].1@));
        }
        let e = &p.entries[i];
        match crate::constants::AcquisitionParameter::from_code(e.0) {
            Some(k) => {
                out.push((k, e.1.clone()));
                proof {
                    assert(out@.map_values(|q: (crate::constants::AcquisitionParameter, String)| (q.0, q.1@))
                        =~= spec_typed_acquisition_pairs(params_view(p).take(i + 1)));
                }
            }
            None => {}
        }
        i += 1;
    }
    proof {
        assert(params_view(p).take(n as int) =~= params_view(p));
    }
    out
}

/// What the catalog says about function `f` of the metadata model: every
/// field except the attribute-kind list, which is stated separately.
pub open spec fn spec_function_described(
    sf: ScanFunction,
    info: &MassLynxInfoReader,
    path: &RawPaths,
    f: int,
) -> bool {
    let frec = info.functions@[f];
    &&& sf.function == f
    &&& sf.ftype == frec.function_type
    &&& sf.ms_level == spec_ms_level_of(frec.function_type)
    &&& sf.is_lockmass == (info.has_lock_mass && info.lock_mass_function == f)
    &&& sf.ion_mobility_block_size == (if path.cdt_functions@.contains(f as usize) {
        frec.drift_scan_count as int
    } else {
        0
    })
    &&& sf.scan_count == frec.retention_times@.len()
    &&& sf.scan_items@ == spec_typed_scan_keys(params_view(&frec.scan_items))
}

/// The whole catalog matches the metadata model.
pub open spec fn spec_catalog_described(
    functions: Seq<ScanFunction>,
    info: &MassLynxInfoReader,
    path: &RawPaths,
) -> bool {
    functions.len() == info.functions@.len()
    && forall|f: int| 0 <= f < functions.len()
        ==> spec_function_described(#[trigger] functions[f], info, path, f)
}

/// Enumerates and classifies the acquisition functions: scan role, derived
/// level, lock-mass designation, ion-mobility block size (gated on the
/// on-disk artifact), scan count and attribute kinds.
fn describe_functions(info: &MassLynxInfoReader, path: &RawPaths) -> (r: Vec<ScanFunction>)
    ensures
        spec_catalog_described(r@, info, path),
{
    let mut out: Vec<ScanFunction> = Vec::new();
    let n = info.functions.len();
    let mut f: usize = 0;
    while f < n
        invariant
            f <= n == info.functions@.len(),
            out@.len() == f,
            forall|k: int| 0 <= k < f
                ==> spec_function_described(#[trigger] out@[k], info, path, k),
        decreases n - f,
    {
        let frec = &info.functions[f];
        let ftype = frec.function_type;
        let scan_count = frec.retention_times.len();
        let im_block_size: usize = if path.function_has_cdt(f) { frec.drift_scan_count } else { 0 };
        let ms_level = ms_level_of(ftype);
        let scan_items = typed_scan_keys(&frec.scan_items);
        let is_lockmass = info.has_lock_mass && info.lock_mass_function == f;
        let descr = ScanFunction::new(f, ftype, is_lockmass, im_block_size, scan_count, ms_level, scan_items);
        out.push(descr);
        f += 1;
    }
    out
}

/// The abstract contents of an assembled spectrum.
pub struct SpectrumView {
    pub mz_array: Seq<u32>,
    pub intensity_array: Seq<u32>,
    pub index: int,
    pub time: u64,
    pub identifier: SpectrumIndexEntry,
    pub drift_time: Option<u64>,
    pub ion_mode: MassLynxIonMode,
    pub is_continuum: bool,
    pub items: Seq<(MassLynxScanItem, Seq<char>)>,
}

impl Spectrum {
    /// The abstract contents of the record.
    pub open spec fn view_spec(&self) -> SpectrumView {
        SpectrumView {
            mz_array: self.mz_array@,
            intensity_array: self.intensity_array@,
            index: self.index as int,
            time: self.time,
            identifier: self.identifier,
            drift_time: self.drift_time,
            ion_mode: self.ion_mode,
            is_continuum: self.is_continuum,
            items: self.items@.map_values(|p: (MassLynxScanItem, String)| (p.0, p.1@)),
        }
    }
}

/// The abstract contents of one drift sub-scan.
pub struct DriftScanView {
    pub drift_time: u64,
    pub mz_array: Seq<u32>,
    pub intensity_array: Seq<u32>,
}

impl DriftScan {
    pub open spec fn view_spec(&self) -> DriftScanView {
        DriftScanView {
            drift_time: self.drift_time,
            mz_array: self.mz_array@,
            intensity_array: self.intensity_array@,
        }
    }
}

/// The abstract contents of an assembled cycle.
pub struct CycleView {
    pub signal: Seq<DriftScanView>,
    pub index: int,
    pub identifier: CycleIndexEntry,
    pub time: u64,
    pub ion_mode: MassLynxIonMode,
    pub is_continuum: bool,
    pub items: Seq<(MassLynxScanItem, Seq<char>)>,
}

impl Cycle {
    pub open spec fn view_spec(&self) -> CycleView {
        CycleView {
            signal: self.signal@.map_values(|d: DriftScan| d.view_spec()),
            index: self.index as int,
            identifier: self.identifier,
            time: self.time,
            ion_mode: self.ion_mode,
            is_continuum: self.is_continuum,
            items: self.items@.map_values(|p: (MassLynxScanItem, String)| (p.0, p.1@)),
        }
    }
}

/// The engine: the session models, the catalog, both indexes, and the
/// retrieval options.  Built once by [`MassLynxReader::open`]; every
/// retrieval afterwards only reads.
#[derive(Debug)]
pub struct MassLynxReader {
    pub path: RawPaths,
    pub scan_reader: MassLynxScanReader,
    pub info_reader: MassLynxInfoReader,
    pub chromatogram_reader: MassLynxChromatogramReader,
    pub lockmass_processor: MassLynxLockMassProcessor,
    pub analog_reader: Option<MassLynxAnalogReader>,
    pub cycle_index: Vec<CycleIndexEntry>,
    pub spectrum_index: Vec<SpectrumIndexEntry>,
    pub scan_reading_options: ScanReadingOptions,
    pub functions: Vec<ScanFunction>,
}

impl MassLynxReader {
    /// The attribute pairs retrieval reads for one scan, or `None` when the
    /// lookup fails.  A function outside the catalog yields an empty list.
    pub open spec fn spec_scan_items_of(&self, f: int, c: int) -> Option<Seq<(MassLynxScanItem, Seq<char>)>> {
        if !(0 <= f < self.functions@.len()) {
            Some(Seq::empty())
        } else if 0 <= f < self.info_reader.functions@.len()
            && 0 <= c < self.info_reader.functions@[f].scan_values@.len() {
            Some(spec_typed_scan_pairs(spec_filter_requested(
                self.functions@[f].scan_items@.map_values(|k: MassLynxScanItem| k.code_spec() as i32),
                params_view(&self.info_reader.functions@[f].scan_values@[c]),
            )))
        } else {
            None
        }
    }

    /// The spectrum retrieval by global index assembles, or `None` exactly
    /// when the index is out of range or a required lookup fails.
    pub open spec fn spec_spectrum_at(&self, index: int) -> Option<SpectrumView> {
        if !(0 <= index < self.spectrum_index@.len()) {
            None
        } else {
            let entry = self.spectrum_index@[index];
            let f = entry.function as int;
            let c = entry.cycle as int;
            if !(f < self.info_reader.functions@.len()
                && c < self.info_reader.functions@[f].retention_times@.len()) {
                None
            } else {
                let frec = self.info_reader.functions@[f];
                match self.spec_scan_items_of(f, c) {
                    None => None,
                    Some(items) => {
                        let time = frec.retention_times@[c];
                        match entry.drift_index {
                            Some(d) => {
                                let sig = if self.scan_reading_options.load_signal {
                                    self.spec_drift_signal(f, c, d as int)
                                } else {
                                    Some((Seq::empty(), Seq::empty()))
                                };
                                match sig {
                                    None => None,
                                    Some(arrays) => Some(SpectrumView {
                                        mz_array: arrays.0,
                                        intensity_array: arrays.1,
                                        index: index,
                                        time: time,
                                        identifier: entry,
                                        drift_time: if (d as int) < self.info_reader.drift_times@.len() {
                                            Some(self.info_reader.drift_times@[d as int])
                                        } else {
                                            None
                                        },
                                        ion_mode: frec.ion_mode,
                                        is_continuum: frec.is_continuum,
                                        items: items,
                                    }),
                                }
                            }
                            None => {
                                let sig = if self.scan_reading_options.load_signal {
                                    self.spec_scan_signal(f, c)
                                } else {
                                    Some((Seq::empty(), Seq::empty()))
                                };
                                match sig {
                                    None => None,
                                    Some(arrays) => Some(SpectrumView {
                                        mz_array: arrays.0,
                                        intensity_array: arrays.1,
                                        index: index,
                                        time: time,
                                        identifier: entry,
                                        drift_time: None,
                                        ion_mode: frec.ion_mode,
                                        is_continuum: frec.is_continuum,
                                        items: items,
                                    }),
                                }
                            }
                        }
                    }
                }
            }
        }
    }

    /// The whole-scan signal the scan model holds, or `None` when it has
    /// none for these coordinates.
    pub open spec fn spec_scan_signal(&self, f: int, c: int) -> Option<(Seq<u32>, Seq<u32>)> {
        if 0 <= f < self.scan_reader.functions@.len()
            && 0 <= c < self.scan_reader.functions@[f].scans@.len() {
            Some((
                self.scan_reader.functions@[f].scans@[c].mz_array@,
                self.scan_reader.functions@[f].scans@[c].intensity_array@,
            ))
        } else {
            None
        }
    }

    /// The drift sub-scan signal the scan model holds, or `None` when it
    /// has none for these coordinates.
    pub open spec fn spec_drift_signal(&self, f: int, c: int, d: int) -> Option<(Seq<u32>, Seq<u32>)> {
        if 0 <= f < self.scan_reader.functions@.len()
            && 0 <= c < self.scan_reader.functions@[f].drift_scans@.len()
            && 0 <= d < self.scan_reader.functions@[f].drift_scans@[c]@.len() {
            Some((
                self.scan_reader.functions@[f].drift_scans@[c]@[d].mz_array@,
                self.scan_reader.functions@[f].drift_scans@[c]@[d].intensity_array@,
            ))
        } else {
            None
        }
    }

    /// Opens a run over the given session models: enumerates and classifies
    /// the functions, then builds the cycle and spectrum indexes.  With the
    /// models already in memory nothing can fail, and the run is indexed
    /// exactly once, here.
    pub fn open(
        path: RawPaths,
        info_reader: MassLynxInfoReader,
        scan_reader: MassLynxScanReader,
        chromatogram_reader: MassLynxChromatogramReader,
        lockmass_processor: MassLynxLockMassProcessor,
        analog_reader: Option<MassLynxAnalogReader>,
    ) -> (r: MassLynxResult<Self>)
        ensures
            r is Ok,
            ({
                let this = r->Ok_0;
                &&& this.path == path
                &&& this.info_reader == info_reader
                &&& this.scan_reader == scan_reader
                &&& this.chromatogram_reader == chromatogram_reader
                &&& this.lockmass_processor == lockmass_processor
                &&& this.analog_reader == analog_reader
                &&& spec_catalog_described(this.functions@, &info_reader, &path)
                &&& this.cycle_index@ == spec_cycle_index(this.functions@, &info_reader)
                &&& this.spectrum_index@ == spec_flatten_cycles(this.cycle_index@)
                &&& this.scan_reading_options.skip_lockmass
                &&& this.scan_reading_options.load_signal
            }),
    {
        let functions = describe_functions(&info_reader, &path);
        let cycle_index = match build_cycle_index(&functions, &info_reader) {
            Ok(v) => v,
            Err(e) => {
                proof {
                    // the catalog takes each function's scan count from the
                    // same model the builder queries, so the builder cannot
                    // find it missing
                    assert(spec_catalog_consistent(functions@, &info_reader)) by {
                        assert forall|k: int| 0 <= k < functions@.len()
                            && (#[trigger] functions@[k]).ms_level > 0
                            && functions@[k].scan_count > 0
                            implies functions@[k].function < info_reader.functions@.len()
                                && functions@[k].scan_count
                                    <= info_reader.functions@[functions@[k].function as int].retention_times@.len() by {
                            assert(spec_function_described(functions@[k], &info_reader, &path, k));
                        }
                    }
                }
                return Err(e);
            }
        };
        let spectrum_index = build_spectrum_index(&cycle_index);
        Ok(Self {
            path,
            info_reader,
            scan_reader,
            chromatogram_reader,
            lockmass_processor,
            analog_reader,
            cycle_index,
            spectrum_index,
            scan_reading_options: ScanReadingOptions::new(true, true),
            functions,
        })
    }

    /// The scan functions found in this run.
    pub fn functions(&self) -> (r: &Vec<ScanFunction>)
        ensures
            r == &self.functions,
    {
        &self.functions
    }

    /// The designated lock-mass reference function, if the run has one.
    pub fn get_lock_mass_function(&self) -> (r: Option<usize>)
        ensures
            r == if self.info_reader.has_lock_mass {
                Some(self.info_reader.lock_mass_function)
            } else {
                Option::<usize>::None
            },
    {
        match self.info_reader.get_lock_mass_function() {
            Ok((has, func)) => if has { Some(func) } else { None },
            Err(_) => None,
        }
    }

    /// Whether the run is lock-mass corrected.
    pub fn is_lock_mass_corrected(&self) -> (r: bool)
        ensures
            r == self.info_reader.lock_mass_corrected,
    {
        match self.info_reader.is_lock_mass_corrected() {
            Ok(b) => b,
            Err(_) => false,
        }
    }

    /// Configures the lock-mass target mass and tolerance (the tolerance
    /// falling back to a quarter of a unit), then applies the correction
    /// when the data supports one.
    pub fn set_lock_mass(&mut self, mass: String, tolerance: Option<String>) -> (r: MassLynxResult<()>)
        ensures
            r is Ok,
            final(self).lockmass_processor.mass matches Some(m) && m@ == mass@,
            ({
                let t = final(self).lockmass_processor.tolerance;
                match tolerance {
                    Some(v) => t matches Some(tv) && tv@ == v@,
                    None => t matches Some(tv) && tv@ == seq!['0', '.', '2', '5'],
                }
            }),
            final(self).lockmass_processor.corrected
                == (old(self).lockmass_processor.corrected || old(self).lockmass_processor.can_correct),
            final(self).lockmass_processor.can_correct == old(self).lockmass_processor.can_correct,
            final(self).info_reader == old(self).info_reader,
            final(self).scan_reader == old(self).scan_reader,
            final(self).chromatogram_reader == old(self).chromatogram_reader,
            final(self).analog_reader == old(self).analog_reader,
            final(self).cycle_index == old(self).cycle_index,
            final(self).spectrum_index == old(self).spectrum_index,
            final(self).scan_reading_options == old(self).scan_reading_options,
            final(self).functions == old(self).functions,
            final(self).path == old(self).path,
    {
        let mut params = match MassLynxParameters::new() {
            Ok(p) => p,
            Err(e) => {
                return Err(e);
            }
        };
        let mass_code = LockMassParameter::MASS.code() as i32;
        let tol_code = LockMassParameter::TOLERANCE.code() as i32;
        match params.set(mass_code, mass) {
            Ok(()) => {}
            Err(e) => {
                return Err(e);
            }
        }
        let tol_value = match tolerance {
            Some(v) => v,
            None => String::from_str("0.25"),
        };
        let ghost tolv = tol_value@;
        match params.set(tol_code, tol_value) {
            Ok(()) => {}
            Err(e) => {
                return Err(e);
            }
        }
        proof {
            reveal_strlit("0.25");
            let mc = LockMassParameter::MASS.code_spec() as i32;
            let tc = LockMassParameter::TOLERANCE.code_spec() as i32;
            let s1 = crate::base::spec_set(Seq::<(i32, Seq<char>)>::empty(), mc, mass@);
            assert(s1 =~= seq![(mc, mass@)]);
            let s2 = crate::base::spec_set(s1, tc, tolv);
            assert(mc != tc);
            assert(s1.skip(1) =~= Seq::<(i32, Seq<char>)>::empty());
            assert(crate::base::spec_set(s1.skip(1), tc, tolv) =~= seq![(tc, tolv)]);
            assert(s2 =~= seq![(mc, mass@), (tc, tolv)]);
            assert(crate::base::spec_get(s2, mc) == Some(mass@));
            assert(s2.skip(1) =~= seq![(tc, tolv)]);
            assert(crate::base::spec_get(s2.skip(1), tc) == Some(tolv));
            assert(crate::base::spec_get(s2, tc) == Some(tolv));
        }
        match self.lockmass_processor.set_parameters(&params) {
            Ok(()) => {}
            Err(e) => {
                return Err(e);
            }
        }
        let can = match self.lockmass_processor.can_lock_mass_correct() {
            Ok(b) => b,
            Err(e) => {
                return Err(e);
            }
        };
        if can {
            match self.lockmass_processor.lock_mass_correct() {
                Ok(_) => {}
                Err(e) => {
                    return Err(e);
                }
            }
        }
        Ok(())
    }

    /// The derived level of a function's scan role.
    pub fn translate_function_type_to_ms_level(&self, fnum: usize) -> (r: MassLynxResult<u8>)
        ensures
            if fnum < self.info_reader.functions@.len() {
                r is Ok && r->Ok_0
                    == spec_ms_level_of(self.info_reader.functions@[fnum as int].function_type)
            } else {
                r is Err
            },
    {
        match self.info_reader.get_function_type(fnum) {
            Ok(ftype) => Ok(ms_level_of(ftype)),
            Err(e) => Err(e),
        }
    }

    /// The base path of the raw directory.
    pub fn path(&self) -> (r: &String)
        ensures
            r == &self.path.base_path,
    {
        self.path.path()
    }

    /// The index over the acquisition cycles.
    pub fn cycle_index(&self) -> (r: &Vec<CycleIndexEntry>)
        ensures
            r == &self.cycle_index,
    {
        &self.cycle_index
    }

    /// The index over the spectra.
    pub fn index(&self) -> (r: &Vec<SpectrumIndexEntry>)
        ensures
            r == &self.spectrum_index,
    {
        &self.spectrum_index
    }

    /// The number of raw spectra in the run.
    pub fn len(&self) -> (r: usize)
        ensures
            r == self.spectrum_index@.len(),
    {
        self.spectrum_index.len()
    }

    /// Whether the run holds precursor-level spectra, and whether it holds
    /// product-level spectra.
    pub fn level_presence(&self) -> (r: (bool, bool))
        ensures
            r.0 == (exists|f: int| 0 <= f < self.functions@.len()
                && (#[trigger] self.functions@[f]).ms_level == 1),
            r.1 == (exists|f: int| 0 <= f < self.functions@.len()
                && (#[trigger] self.functions@[f]).ms_level > 1),
    {
        let mut has_ms1 = false;
        let mut has_msn = false;
        let n = self.functions.len();
        let mut f: usize = 0;
        while f < n
            invariant
                f <= n == self.functions@.len(),
                has_ms1 == (exists|k: int| 0 <= k < f
                    && (#[trigger] self.functions@[k]).ms_level == 1),
                has_msn == (exists|k: int| 0 <= k < f
                    && (#[trigger] self.functions@[k]).ms_level > 1),
            decreases n - f,
        {
            let level = self.functions[f].ms_level;
            if level == 1 {
                has_ms1 = true;
            }
            if level > 1 {
                has_msn = true;
            }
            f += 1;
        }
        (has_ms1, has_msn)
    }

    /// Reads the raw attribute pairs of one scan: the values present for
    /// the kinds the function's catalog entry lists.
    pub fn read_scan_items(&self, which_function: usize, scan: usize) -> (r: MassLynxResult<Vec<(MassLynxScanItem, String)>>)
        ensures
            match self.spec_scan_items_of(which_function as int, scan as int) {
                Some(items) => r is Ok
                    && r->Ok_0@.map_values(|e: (MassLynxScanItem, String)| (e.0, e.1@)) == items,
                None => r is Err,
            },
    {
        if which_function < self.functions.len() {
            let f = &self.functions[which_function];
            match self.info_reader.get_scan_item_values_for_scan(which_function, scan, &f.scan_items) {
                Ok(params) => {
                    let items = typed_scan_pairs(&params);
                    Ok(items)
                }
                Err(e) => Err(e),
            }
        } else {
            let empty: Vec<(MassLynxScanItem, String)> = Vec::new();
            proof {
                assert(empty@.map_values(|e: (MassLynxScanItem, String)| (e.0, e.1@))
                    =~= Seq::<(MassLynxScanItem, Seq<char>)>::empty());
            }
            Ok(empty)
        }
    }

    /// Retrieves one spectrum by global index: acquisition metadata, raw
    /// attributes, and — only when signal loading is enabled — the signal
    /// arrays, the drift-scan variant when the entry names a drift bin.
    pub fn get_spectrum(&self, index: usize) -> (r: Option<Spectrum>)
        ensures
            match r {
                Some(s) => self.spec_spectrum_at(index as int) == Some(s.view_spec()),
                None => self.spec_spectrum_at(index as int) is None,
            },
    {
        if index >= self.spectrum_index.len() {
            return None;
        }
        let entry = self.spectrum_index[index];
        let time = match self.info_reader.get_retention_time(entry.function, entry.cycle) {
            Ok(t) => t,
            Err(_) => {
                return None;
            }
        };
        let ion_mode = match self.info_reader.get_ion_mode(entry.function) {
            Ok(m) => m,
            Err(_) => {
                return None;
            }
        };
        let is_continuum = match self.info_reader.is_continuum(entry.function) {
            Ok(b) => b,
            Err(_) => {
                return None;
            }
        };
        let items = match self.read_scan_items(entry.function, entry.cycle) {
            Ok(items) => items,
            Err(_) => {
                return None;
            }
        };
        let spec = match entry.drift_index {
            Some(d) => {
                let (mzs, intens) = if self.scan_reading_options.load_signal {
                    match self.scan_reader.read_drift_scan(entry.function, entry.cycle, d as usize) {
                        Ok(arrays) => arrays,
                        Err(_) => {
                            return None;
                        }
                    }
                } else {
                    (Vec::new(), Vec::new())
                };
                let drift_time = match self.info_reader.get_drift_time(d as usize) {
                    Ok(t) => Some(t),
                    Err(_) => None,
                };
                Spectrum::new(mzs, intens, index, time, entry, drift_time, ion_mode, is_continuum, items)
            }
            None => {
                let (mzs, intens) = if self.scan_reading_options.load_signal {
                    match self.scan_reader.read_scan(entry.function, entry.cycle) {
                        Ok(arrays) => arrays,
                        Err(_) => {
                            return None;
                        }
                    }
                } else {
                    (Vec::new(), Vec::new())
                };
                Spectrum::new(mzs, intens, index, time, entry, None, ion_mode, is_continuum, items)
            }
        };
        Some(spec)
    }

    /// Whether the cycle retrieval skips this position because lock-mass
    /// skipping is on and the owning function is the lock-mass reference.
    pub open spec fn spec_cycle_lockmass_skipped(&self, entry: CycleIndexEntry) -> bool {
        self.scan_reading_options.skip_lockmass
        && entry.function < self.functions@.len()
        && self.functions@[entry.function as int].is_lockmass
    }

    /// The drift sub-scans cycle retrieval reads, or `None` when one of the
    /// reads fails.  With signal loading off the list is empty.
    pub open spec fn spec_cycle_signal(&self, entry: CycleIndexEntry) -> Option<Seq<DriftScanView>> {
        if !self.scan_reading_options.load_signal {
            Some(Seq::empty())
        } else if (forall|d: int| 0 <= d < entry.im_block_size
                ==> self.spec_drift_signal(entry.function as int, entry.block as int, d) is Some)
            && entry.im_block_size <= self.info_reader.drift_times@.len() {
            Some(Seq::new(entry.im_block_size as nat, |d: int| DriftScanView {
                drift_time: self.info_reader.drift_times@[d],
                mz_array: self.spec_drift_signal(entry.function as int, entry.block as int, d)->Some_0.0,
                intensity_array: self.spec_drift_signal(entry.function as int, entry.block as int, d)->Some_0.1,
            }))
        } else {
            None
        }
    }

    /// The cycle retrieval by global position assembles, or `None` exactly
    /// when the position is out of range, the cycle is lock-mass skipped,
    /// or a required lookup fails.
    pub open spec fn spec_cycle_at(&self, index: int) -> Option<CycleView> {
        if !(0 <= index < self.cycle_index@.len()) {
            None
        } else {
            let entry = self.cycle_index@[index];
            let f = entry.function as int;
            let c = entry.block as int;
            if self.spec_cycle_lockmass_skipped(entry) {
                None
            } else if !(f < self.functions@.len()) {
                None
            } else if !(f < self.info_reader.functions@.len()
                && c < self.info_reader.functions@[f].retention_times@.len()) {
                None
            } else {
                let frec = self.info_reader.functions@[f];
                match self.spec_cycle_signal(entry) {
                    None => None,
                    Some(signal) => match self.spec_scan_items_of(f, c) {
                        None => None,
                        Some(items) => Some(CycleView {
                            signal: signal,
                            index: index,
                            identifier: entry,
                            time: frec.retention_times@[c],
                            ion_mode: frec.ion_mode,
                            is_continuum: frec.is_continuum,
                            items: items,
                        }),
                    },
                }
            }
        }
    }

    /// Retrieves one cycle (ion-mobility frame) by global position: one
    /// drift sub-scan per drift bin when signal loading is enabled, plus
    /// the same acquisition metadata and raw attributes a spectrum carries.
    /// A position owned by the lock-mass reference function is not found
    /// while lock-mass skipping is enabled.
    pub fn get_cycle(&self, index: usize) -> (r: Option<Cycle>)
        ensures
            match r {
                Some(c) => self.spec_cycle_at(index as int) == Some(c.view_spec()),
                None => self.spec_cycle_at(index as int) is None,
            },
    {
        if index >= self.cycle_index.len() {
            return None;
        }
        let entry = self.cycle_index[index];
        if entry.function >= self.functions.len() {
            return None;
        }
        if self.scan_reading_options.skip_lockmass && self.functions[entry.function].is_lockmass {
            return None;
        }
        let time = match self.info_reader.get_retention_time(entry.function, entry.block) {
            Ok(t) => t,
            Err(_) => {
                return None;
            }
        };
        let ion_mode = match self.info_reader.get_ion_mode(entry.function) {
            Ok(m) => m,
            Err(_) => {
                return None;
            }
        };
        let is_continuum = match self.info_reader.is_continuum(entry.function) {
            Ok(b) => b,
            Err(_) => {
                return None;
            }
        };
        let scans = if self.scan_reading_options.load_signal {
            let mut scans: Vec<DriftScan> = Vec::new();
            let b = entry.im_block_size;
            let mut d: usize = 0;
            while d < b
                invariant
                    d <= b == entry.im_block_size,
                    index < self.cycle_index@.len(),
                    entry == self.cycle_index@[index as int],
                    !self.spec_cycle_lockmass_skipped(entry),
                    entry.function < self.functions@.len(),
                    entry.function < self.info_reader.functions@.len(),
                    entry.block
                        < self.info_reader.functions@[entry.function as int].retention_times@.len(),
                    self.scan_reading_options.load_signal,
                    scans@.len() == d,
                    forall|j: int| 0 <= j < d
                        ==> self.spec_drift_signal(entry.function as int, entry.block as int, j) is Some
                            && j < self.info_reader.drift_times@.len()
                            && (#[trigger] scans@[j]).view_spec() == (DriftScanView {
                                drift_time: self.info_reader.drift_times@[j],
                                mz_array: self.spec_drift_signal(entry.function as int, entry.block as int, j)->Some_0.0,
                                intensity_array: self.spec_drift_signal(entry.function as int, entry.block as int, j)->Some_0.1,
                            }),
                decreases b - d,
            {
                let (mzs, intensities) = match self.scan_reader.read_drift_scan(entry.function, entry.block, d) {
                    Ok(arrays) => arrays,
                    Err(_) => {
                        proof {
                            assert(self.spec_drift_signal(entry.function as int, entry.block as int, d as int) is None);
                            assert(self.spec_cycle_signal(entry) is None);
                            assert(self.spec_cycle_at(index as int) is None);
                        }
                        return None;
                    }
                };
                let drift_time = match self.info_reader.get_drift_time(d) {
                    Ok(t) => t,
                    Err(_) => {
                        proof {
                            assert(d >= self.info_reader.drift_times@.len());
                            assert(self.spec_cycle_signal(entry) is None);
                            assert(self.spec_cycle_at(index as int) is None);
                        }
                        return None;
                    }
                };
                scans.push(DriftScan::new(drift_time, mzs, intensities));
                d += 1;
            }
            scans
        } else {
            Vec::new()
        };
        let items = match self.read_scan_items(entry.function, entry.block) {
            Ok(items) => items,
            Err(_) => {
                return None;
            }
        };
        let cycle = Cycle::new(scans, index, entry, time, ion_mode, is_continuum, items);
        proof {
            let f = entry.function as int;
            let c = entry.block as int;
            if self.scan_reading_options.load_signal {
                assert forall|dd: int| 0 <= dd < entry.im_block_size
                    implies self.spec_drift_signal(f, c, dd) is Some
                        && dd < self.info_reader.drift_times@.len() by {
                    assert(cycle.signal@[dd].view_spec().drift_time
                        == self.info_reader.drift_times@[dd]);
                }
                if entry.im_block_size > 0 {
                    assert(self.spec_drift_signal(f, c, entry.im_block_size - 1) is Some
                        && entry.im_block_size - 1 < self.info_reader.drift_times@.len());
                }
                assert(entry.im_block_size <= self.info_reader.drift_times@.len());
                match self.spec_cycle_signal(entry) {
                    Some(signal) => {
                        assert forall|dd: int| 0 <= dd < entry.im_block_size
                            implies cycle.view_spec().signal[dd] == signal[dd] by {
                            assert(cycle.view_spec().signal[dd] == cycle.signal@[dd].view_spec());
                        }
                        assert(cycle.view_spec().signal =~= signal);
                    }
                    None => {
                        assert(false);
                    }
                }
            } else {
                assert(cycle.view_spec().signal =~= Seq::<DriftScanView>::empty());
            }
        }
        Some(cycle)
    }

    /// The spectra assembled by walking the first `n` index positions,
    /// positions that cannot be assembled skipped.
    pub open spec fn spec_collect_spectra(&self, n: int) -> Seq<SpectrumView>
        decreases n,
    {
        if n <= 0 {
            Seq::empty()
        } else {
            let rest = self.spec_collect_spectra(n - 1);
            match self.spec_spectrum_at(n - 1) {
                Some(v) => rest.push(v),
                None => rest,
            }
        }
    }

    /// Retrieves every spectrum that can be assembled, in index order.
    pub fn iter_spectra(&self) -> (r: Vec<Spectrum>)
        ensures
            r@.map_values(|s: Spectrum| s.view_spec())
                == self.spec_collect_spectra(self.spectrum_index@.len() as int),
    {
        let mut out: Vec<Spectrum> = Vec::new();
        let n = self.len();
        let mut i: usize = 0;
        proof {
            assert(out@.map_values(|s: Spectrum| s.view_spec())
                =~= self.spec_collect_spectra(0));
        }
        while i < n
            invariant
                i <= n == self.spectrum_index@.len(),
                out@.map_values(|s: Spectrum| s.view_spec())
                    == self.spec_collect_spectra(i as int),
            decreases n - i,
        {
            match self.get_spectrum(i) {
                Some(s) => {
                    out.push(s);
                    proof {
                        assert(out@.map_values(|q: Spectrum| q.view_spec())
                            =~= self.spec_collect_spectra(i + 1));
                    }
                }
                None => {}
            }
            i += 1;
        }
        out
    }

    /// The cycles assembled by walking the first `n` positions, positions
    /// that cannot be assembled skipped.
    pub open spec fn spec_collect_cycles(&self, n: int) -> Seq<CycleView>
        decreases n,
    {
        if n <= 0 {
            Seq::empty()
        } else {
            let rest = self.spec_collect_cycles(n - 1);
            match self.spec_cycle_at(n - 1) {
                Some(v) => rest.push(v),
                None => rest,
            }
        }
    }

    /// Retrieves every cycle that can be assembled, in position order.
    pub fn iter_cycles(&self) -> (r: Vec<Cycle>)
        ensures
            r@.map_values(|c: Cycle| c.view_spec())
                == self.spec_collect_cycles(self.cycle_index@.len() as int),
    {
        let mut out: Vec<Cycle> = Vec::new();
        let n = self.cycle_index.len();
        let mut i: usize = 0;
        proof {
            assert(out@.map_values(|c: Cycle| c.view_spec())
                =~= self.spec_collect_cycles(0));
        }
        while i < n
            invariant
                i <= n == self.cycle_index@.len(),
                out@.map_values(|c: Cycle| c.view_spec())
                    == self.spec_collect_cycles(i as int),
            decreases n - i,
        {
            match self.get_cycle(i) {
                Some(c) => {
                    out.push(c);
                    proof {
                        assert(out@.map_values(|q: Cycle| q.view_spec())
                            =~= self.spec_collect_cycles(i + 1));
                    }
                }
                None => {}
            }
            i += 1;
        }
        out
    }

    pub fn get_signal_loading(&self) -> (r: bool)
        ensures
            r == self.scan_reading_options.load_signal,
    {
        self.scan_reading_options.load_signal()
    }

    pub fn set_signal_loading(&mut self, load_signal: bool)
        ensures
            final(self).scan_reading_options.load_signal == load_signal,
            final(self).scan_reading_options.skip_lockmass == old(self).scan_reading_options.skip_lockmass,
            final(self).info_reader == old(self).info_reader,
            final(self).scan_reader == old(self).scan_reader,
            final(self).chromatogram_reader == old(self).chromatogram_reader,
            final(self).lockmass_processor == old(self).lockmass_processor,
            final(self).analog_reader == old(self).analog_reader,
            final(self).cycle_index == old(self).cycle_index,
            final(self).spectrum_index == old(self).spectrum_index,
            final(self).functions == old(self).functions,
            final(self).path == old(self).path,
    {
        self.scan_reading_options.set_load_signal(load_signal)
    }

    /// One function's total-ion-current series.
    pub fn tic_of(&self, which_function: usize) -> (r: MassLynxResult<(Vec<u64>, Vec<u32>)>)
        ensures
            if which_function < self.chromatogram_reader.tic@.len() {
                r is Ok
                    && r->Ok_0.0@ == self.chromatogram_reader.tic@[which_function as int].times@
                    && r->Ok_0.1@ == self.chromatogram_reader.tic@[which_function as int].intensities@
            } else {
                r is Err
            },
    {
        let mut times: Vec<u64> = Vec::new();
        let mut intensities: Vec<u32> = Vec::new();
        match self.chromatogram_reader.read_tic_into(which_function, &mut times, &mut intensities) {
            Ok(()) => Ok((times, intensities)),
            Err(e) => Err(e),
        }
    }

    /// One function's base-peak series.
    pub fn bpi_of(&self, which_function: usize) -> (r: MassLynxResult<(Vec<u64>, Vec<u32>)>)
        ensures
            if which_function < self.chromatogram_reader.bpi@.len() {
                r is Ok
                    && r->Ok_0.0@ == self.chromatogram_reader.bpi@[which_function as int].times@
                    && r->Ok_0.1@ == self.chromatogram_reader.bpi@[which_function as int].intensities@
            } else {
                r is Err
            },
    {
        let mut times: Vec<u64> = Vec::new();
        let mut intensities: Vec<u32> = Vec::new();
        match self.chromatogram_reader.read_bpi_into(which_function, &mut times, &mut intensities) {
            Ok(()) => Ok((times, intensities)),
            Err(e) => Err(e),
        }
    }

    /// Every function's total-ion-current points, one series per function.
    pub open spec fn spec_tic_views(&self) -> Seq<Seq<(u64, u32)>> {
        Seq::new(self.info_reader.functions@.len(), |f: int|
            crate::merge::point_view(&self.chromatogram_reader.tic@[f]))
    }

    /// Every function's base-peak points, one series per function.
    pub open spec fn spec_bpi_views(&self) -> Seq<Seq<(u64, u32)>> {
        Seq::new(self.info_reader.functions@.len(), |f: int|
            crate::merge::point_view(&self.chromatogram_reader.bpi@[f]))
    }

    /// The globally merged total-ion-current chromatogram: every function's
    /// series, k-way merged by ascending time.
    pub fn tic(&self) -> (r: MassLynxResult<(Vec<u64>, Vec<u32>)>)
        ensures
            if self.info_reader.functions@.len() <= self.chromatogram_reader.tic@.len() {
                r is Ok
                    && r->Ok_0.0@ == crate::merge::spec_merge(self.spec_tic_views())
                        .map_values(|p: (u64, u32)| p.0)
                    && r->Ok_0.1@ == crate::merge::spec_merge(self.spec_tic_views())
                        .map_values(|p: (u64, u32)| p.1)
            } else {
                r is Err
            },
    {
        let count = match self.info_reader.function_count() {
            Ok(c) => c,
            Err(e) => {
                return Err(e);
            }
        };
        let mut series: Vec<crate::base::ChromatogramSeries> = Vec::new();
        let mut f: usize = 0;
        while f < count
            invariant
                f <= count == self.info_reader.functions@.len(),
                f > 0 ==> f <= self.chromatogram_reader.tic@.len(),
                series@.len() == f,
                forall|j: int| 0 <= j < f
                    ==> (#[trigger] series@[j]).times@ == self.chromatogram_reader.tic@[j].times@
                        && series@[j].intensities@ == self.chromatogram_reader.tic@[j].intensities@,
            decreases count - f,
        {
            let mut times: Vec<u64> = Vec::new();
            let mut intensities: Vec<u32> = Vec::new();
            match self.chromatogram_reader.read_tic_into(f, &mut times, &mut intensities) {
                Ok(()) => {}
                Err(e) => {
                    return Err(e);
                }
            }
            series.push(crate::base::ChromatogramSeries { times, intensities });
            f += 1;
        }
        proof {
            assert forall|j: int| 0 <= j < count
                implies crate::merge::series_views(&series)[j] == self.spec_tic_views()[j] by {
                assert(crate::merge::point_view(&series@[j])
                    =~= crate::merge::point_view(&self.chromatogram_reader.tic@[j]));
            }
            assert(crate::merge::series_views(&series) =~= self.spec_tic_views());
        }
        Ok(crate::merge::ChromatogramMerger::new(series).merge())
    }

    /// The globally merged base-peak chromatogram.
    pub fn bpi(&self) -> (r: MassLynxResult<(Vec<u64>, Vec<u32>)>)
        ensures
            if self.info_reader.functions@.len() <= self.chromatogram_reader.bpi@.len() {
                r is Ok
                    && r->Ok_0.0@ == crate::merge::spec_merge(self.spec_bpi_views())
                        .map_values(|p: (u64, u32)| p.0)
                    && r->Ok_0.1@ == crate::merge::spec_merge(self.spec_bpi_views())
                        .map_values(|p: (u64, u32)| p.1)
            } else {
                r is Err
            },
    {
        let count = match self.info_reader.function_count() {
            Ok(c) => c,
            Err(e) => {
                return Err(e);
            }
        };
        let mut series: Vec<crate::base::ChromatogramSeries> = Vec::new();
        let mut f: usize = 0;
        while f < count
            invariant
                f <= count == self.info_reader.functions@.len(),
                f > 0 ==> f <= self.chromatogram_reader.bpi@.len(),
                series@.len() == f,
                forall|j: int| 0 <= j < f
                    ==> (#[trigger] series@[j]).times@ == self.chromatogram_reader.bpi@[j].times@
                        && series@[j].intensities@ == self.chromatogram_reader.bpi@[j].intensities@,
            decreases count - f,
        {
            let mut times: Vec<u64> = Vec::new();
            let mut intensities: Vec<u32> = Vec::new();
            match self.chromatogram_reader.read_bpi_into(f, &mut times, &mut intensities) {
                Ok(()) => {}
                Err(e) => {
                    return Err(e);
                }
            }
            series.push(crate::base::ChromatogramSeries { times, intensities });
            f += 1;
        }
        proof {
            assert forall|j: int| 0 <= j < count
                implies crate::merge::series_views(&series)[j] == self.spec_bpi_views()[j] by {
                assert(crate::merge::point_view(&series@[j])
                    =~= crate::merge::point_view(&self.chromatogram_reader.bpi@[j]));
            }
            assert(crate::merge::series_views(&series) =~= self.spec_bpi_views());
        }
        Ok(crate::merge::ChromatogramMerger::new(series).merge())
    }

    /// Retrieves one analog trace by channel ordinal.
    pub fn get_analog_trace(&self, index: usize) -> (r: Option<Trace>)
        ensures
            match r {
                Some(t) => self.analog_reader matches Some(ar)
                    && index < ar.channels@.len()
                    && t.name@ == ar.channels@[index as int].description@
                    && t.unit@ == ar.channels@[index as int].units@
                    && t.time@ == ar.channels@[index as int].times@
                    && t.intensity@ == ar.channels@[index as int].intensities@,
                None => match self.analog_reader {
                    Some(ar) => index >= ar.channels@.len(),
                    None => true,
                },
            },
    {
        let reader = match &self.analog_reader {
            Some(r) => r,
            None => {
                return None;
            }
        };
        let count = match reader.channel_count() {
            Ok(c) => c,
            Err(_) => {
                return None;
            }
        };
        if index >= count {
            return None;
        }
        let (time, intensity) = match reader.read_channel(index) {
            Ok(arrays) => arrays,
            Err(_) => {
                return None;
            }
        };
        let name = match reader.channel_description(index) {
            Ok(s) => s,
            Err(_) => {
                return None;
            }
        };
        let unit = match reader.channel_units(index) {
            Ok(s) => s,
            Err(_) => {
                return None;
            }
        };
        Some(Trace::new(name, unit, time, intensity))
    }

    /// Retrieves every analog trace, in channel order.
    pub fn iter_analogs(&self) -> (r: Vec<Trace>)
        ensures
            match self.analog_reader {
                Some(ar) => r@.len() == ar.channels@.len()
                    && forall|j: int| 0 <= j < r@.len()
                        ==> (#[trigger] r@[j]).name@ == ar.channels@[j].description@
                            && r@[j].unit@ == ar.channels@[j].units@
                            && r@[j].time@ == ar.channels@[j].times@
                            && r@[j].intensity@ == ar.channels@[j].intensities@,
                None => r@.len() == 0,
            },
    {
        let mut out: Vec<Trace> = Vec::new();
        let reader = match &self.analog_reader {
            Some(ar) => ar,
            None => {
                return out;
            }
        };
        let count = match reader.channel_count() {
            Ok(c) => c,
            Err(_) => 0,
        };
        let mut i: usize = 0;
        while i < count
            invariant
                i <= count,
                self.analog_reader matches Some(ar) && count == ar.channels@.len(),
                out@.len() == i,
                forall|j: int| 0 <= j < i
                    ==> (#[trigger] out@[j]).name@ == self.analog_reader->Some_0.channels@[j].description@
                        && out@[j].unit@ == self.analog_reader->Some_0.channels@[j].units@
                        && out@[j].time@ == self.analog_reader->Some_0.channels@[j].times@
                        && out@[j].intensity@ == self.analog_reader->Some_0.channels@[j].intensities@,
            decreases count - i,
        {
            match self.get_analog_trace(i) {
                Some(t) => {
                    out.push(t);
                }
                None => {
                    proof {
                        assert(false);
                    }
                }
            }
            i += 1;
        }
        out
    }

    /// The values of every header item the run carries, empty values left
    /// out.
    pub fn header_items(&self) -> (r: MassLynxResult<Vec<(MassLynxHeaderItem, String)>>)
        ensures
            r is Ok,
            r->Ok_0@.map_values(|e: (MassLynxHeaderItem, String)| (e.0, e.1@))
                == spec_nonempty_pairs(spec_typed_header_pairs(spec_filter_requested(
                    MassLynxHeaderItem::all_spec().map_values(|k: MassLynxHeaderItem| k.code_spec() as i32),
                    params_view(&self.info_reader.header),
                ))),
    {
        let items = MassLynxHeaderItem::iter();
        let params = match self.info_reader.get_header_items(&items) {
            Ok(p) => p,
            Err(e) => {
                return Err(e);
            }
        };
        let pairs = typed_header_pairs(&params);
        let mut out: Vec<(MassLynxHeaderItem, String)> = Vec::new();
        let n = pairs.len();
        let mut i: usize = 0;
        let ghost pview = pairs@.map_values(|e: (MassLynxHeaderItem, String)| (e.0, e.1@));
        proof {
            assert(pview.take(0) =~= Seq::<(MassLynxHeaderItem, Seq<char>)>::empty());
            assert(out@.map_values(|e: (MassLynxHeaderItem, String)| (e.0, e.1@))
                =~= spec_nonempty_pairs(pview.take(0)));
        }
        while i < n
            invariant
                i <= n == pairs@.len(),
                pview == pairs@.map_values(|e: (MassLynxHeaderItem, String)| (e.0, e.1@)),
                out@.map_values(|e: (MassLynxHeaderItem, String)| (e.0, e.1@))
                    == spec_nonempty_pairs(pview.take(i as int)),
            decreases n - i,
        {
            proof {
                assert(pview.take(i + 1).drop_last() =~= pview.take(i as int));
                assert(pview.take(i + 1).last() == (pairs@[i as int].0, pairs@[i as int].1@));
            }
            let e = &pairs[i];
            if !e.1.as_str().is_empty() {
                out.push((e.0, e.1.clone()));
                proof {
                    assert(out@.map_values(|q: (MassLynxHeaderItem, String)| (q.0, q.1@))
                        =~= spec_nonempty_pairs(pview.take(i + 1)));
                }
            }
            i += 1;
        }
        proof {
            assert(pview.take(n as int) =~= pview);
        }
        Ok(out)
    }

    /// The run's acquisition information, as typed parameters.
    pub fn acquisition_information(&self) -> (r: MassLynxResult<Vec<(crate::constants::AcquisitionParameter, String)>>)
        ensures
            r is Ok,
            r->Ok_0@.map_values(|e: (crate::constants::AcquisitionParameter, String)| (e.0, e.1@))
                == spec_typed_acquisition_pairs(params_view(&self.info_reader.acquisition)),
    {
        let params = match self.info_reader.get_acquisition_info() {
            Ok(p) => p,
            Err(e) => {
                return Err(e);
            }
        };
        Ok(typed_acquisition_pairs(&params))
    }

    /// Maps the drift bin ordinals of a mobilogram to their drift times:
    /// succeeds exactly when every bin is one the run has.
    pub fn map_drift_bins(&self, bins: &Vec<i32>) -> (r: MassLynxResult<Vec<u64>>)
        ensures
            if forall|k: int| 0 <= k < bins@.len()
                ==> 0 <= #[trigger] bins@[k] < self.info_reader.drift_times@.len() {
                r is Ok
                    && r->Ok_0@.len() == bins@.len()
                    && forall|k: int| 0 <= k < bins@.len()
                        ==> #[trigger] r->Ok_0@[k] == self.info_reader.drift_times@[bins@[k] as int]
            } else {
                r is Err
            },
    {
        let mut out: Vec<u64> = Vec::new();
        let n = bins.len();
        let mut i: usize = 0;
        while i < n
            invariant
                i <= n == bins@.len(),
                out@.len() == i,
                forall|k: int| 0 <= k < i
                    ==> 0 <= #[trigger] bins@[k] < self.info_reader.drift_times@.len(),
                forall|k: int| 0 <= k < i
                    ==> #[trigger] out@[k] == self.info_reader.drift_times@[bins@[k] as int],
            decreases n - i,
        {
            let bin = bins[i];
            if bin < 0 {
                return Err(MassLynxError::new(
                    crate::base::NO_SUCH_RECORD,
                    String::from_str("negative drift bin in mobilogram"),
                ));
            }
            match self.info_reader.get_drift_time(bin as usize) {
                Ok(t) => {
                    out.push(t);
                }
                Err(e) => {
                    return Err(e);
                }
            }
            i += 1;
        }
        Ok(out)
    }

    pub fn get_lockmass_skipping(&self) -> (r: bool)
        ensures
            r == self.scan_reading_options.skip_lockmass,
    {
        self.scan_reading_options.skip_lockmass()
    }

    pub fn set_lockmass_skipping(&mut self, skip_lockmass: bool)
        ensures
            final(self).scan_reading_options.skip_lockmass == skip_lockmass,
            final(self).scan_reading_options.load_signal == old(self).scan_reading_options.load_signal,
            final(self).info_reader == old(self).info_reader,
            final(self).scan_reader == old(self).scan_reader,
            final(self).chromatogram_reader == old(self).chromatogram_reader,
            final(self).lockmass_processor == old(self).lockmass_processor,
            final(self).analog_reader == old(self).analog_reader,
            final(self).cycle_index == old(self).cycle_index,
            final(self).spectrum_index == old(self).spectrum_index,
            final(self).functions == old(self).functions,
            final(self).path == old(self).path,
    {
        self.scan_reading_options.set_skip_lockmass(skip_lockmass)
    }
}

/// The pairs whose value is non-empty, in order.
pub open spec fn spec_nonempty_pairs(s: Seq<(MassLynxHeaderItem, Seq<char>)>) -> Seq<(MassLynxHeaderItem, Seq<char>)>
    decreases s.len(),
{
    if s.len() == 0 {
        Seq::empty()
    } else {
        let rest = spec_nonempty_pairs(s.drop_last());
        if s.last().1.len() > 0 {
            rest.push(s.last())
        } else {
            rest
        }
    }
}

/// One retrievable chromatogram: its identifier, semantic subtype, series,
/// and — for a subtype the unit string did not determine — the raw unit
/// preserved as free text.
#[derive(Debug, Clone)]
pub struct ChromatogramRecord {
    pub id: String,
    pub kind: crate::translate::ChromatogramKind,
    pub times: Vec<u64>,
    pub intensities: Vec<u32>,
    pub unit_text: Option<String>,
}

/// Turns an analog trace into a chromatogram record: the unit string picks
/// the subtype by exact match, and an unmatched unit is kept as free text
/// on an `Unknown` record.
pub fn trace_to_chromatogram(trace: &Trace) -> (r: ChromatogramRecord)
    ensures
        r.id@ == trace.name@,
        r.kind == crate::translate::spec_classify_trace_unit(trace.unit@),
        r.times@ == trace.time@,
        r.intensities@ == trace.intensity@,
        match r.unit_text {
            Some(u) => r.kind == crate::translate::ChromatogramKind::Unknown && u@ == trace.unit@,
            None => r.kind != crate::translate::ChromatogramKind::Unknown,
        },
{
    let kind = crate::translate::classify_trace_unit(trace.unit.as_str());
    let unit_text = match kind {
        crate::translate::ChromatogramKind::Unknown => Some(trace.unit.clone()),
        _ => None,
    };
    ChromatogramRecord {
        id: trace.name.clone(),
        kind,
        times: trace.time.clone(),
        intensities: trace.intensity.clone(),
        unit_text,
    }
}

impl MassLynxReader {
    /// Retrieves one chromatogram by position: positions zero and one are
    /// reserved for the globally merged total-ion-current and base-peak
    /// series, and later positions map to the analog channels in
    /// enumeration order.
    pub fn get_chromatogram(&self, index: usize) -> (r: Option<ChromatogramRecord>)
        ensures
            match r {
                Some(c) => {
                    if index == 0 {
                        &&& self.info_reader.functions@.len() <= self.chromatogram_reader.tic@.len()
                        &&& c.id@ == seq!['T', 'I', 'C']
                        &&& c.kind == crate::translate::ChromatogramKind::TotalIonCurrent
                        &&& c.times@ == crate::merge::spec_merge(self.spec_tic_views())
                            .map_values(|p: (u64, u32)| p.0)
                        &&& c.intensities@ == crate::merge::spec_merge(self.spec_tic_views())
                            .map_values(|p: (u64, u32)| p.1)
                        &&& c.unit_text is None
                    } else if index == 1 {
                        &&& self.info_reader.functions@.len() <= self.chromatogram_reader.bpi@.len()
                        &&& c.id@ == seq!['B', 'P', 'C']
                        &&& c.kind == crate::translate::ChromatogramKind::BasePeak
                        &&& c.times@ == crate::merge::spec_merge(self.spec_bpi_views())
                            .map_values(|p: (u64, u32)| p.0)
                        &&& c.intensities@ == crate::merge::spec_merge(self.spec_bpi_views())
                            .map_values(|p: (u64, u32)| p.1)
                        &&& c.unit_text is None
                    } else {
                        &&& self.analog_reader matches Some(ar)
                        &&& index - 2 < ar.channels@.len()
                        &&& c.id@ == ar.channels@[index - 2].description@
                        &&& c.kind == crate::translate::spec_classify_trace_unit(ar.channels@[index - 2].units@)
                        &&& c.times@ == ar.channels@[index - 2].times@
                        &&& c.intensities@ == ar.channels@[index - 2].intensities@
                    }
                },
                None => {
                    if index == 0 {
                        self.info_reader.functions@.len() > self.chromatogram_reader.tic@.len()
                    } else if index == 1 {
                        self.info_reader.functions@.len() > self.chromatogram_reader.bpi@.len()
                    } else {
                        match self.analog_reader {
                            Some(ar) => index - 2 >= ar.channels@.len(),
                            None => true,
                        }
                    }
                },
            },
    {
        if index == 0 {
            let (times, intensities) = match self.tic() {
                Ok(arrays) => arrays,
                Err(_) => {
                    return None;
                }
            };
            proof {
                reveal_strlit("TIC");
                assert("TIC"@ =~= seq!['T', 'I', 'C']);
            }
            Some(ChromatogramRecord {
                id: String::from_str("TIC"),
                kind: crate::translate::ChromatogramKind::TotalIonCurrent,
                times,
                intensities,
                unit_text: None,
            })
        } else if index == 1 {
            let (times, intensities) = match self.bpi() {
                Ok(arrays) => arrays,
                Err(_) => {
                    return None;
                }
            };
            proof {
                reveal_strlit("BPC");
                assert("BPC"@ =~= seq!['B', 'P', 'C']);
            }
            Some(ChromatogramRecord {
                id: String::from_str("BPC"),
                kind: crate::translate::ChromatogramKind::BasePeak,
                times,
                intensities,
                unit_text: None,
            })
        } else {
            match self.get_analog_trace(index - 2) {
                Some(trace) => Some(trace_to_chromatogram(&trace)),
                None => None,
            }
        }
    }
}

/// The position of the first entry carrying the identifier, if any.
pub open spec fn spec_position_of_id(si: Seq<SpectrumIndexEntry>, id: Seq<char>) -> Option<int>
    decreases si.len(),
{
    if si.len() == 0 {
        None
    } else if si[0].spec_native_id() == id {
        Some(0)
    } else {
        match spec_position_of_id(si.skip(1), id) {
            Some(k) => Some(k + 1),
            None => None,
        }
    }
}

/// When the first entry with the identifier sits at `p`, the search finds
/// it there.
pub proof fn lemma_position_of_id_at(si: Seq<SpectrumIndexEntry>, id: Seq<char>, p: int)
    requires
        0 <= p < si.len(),
        si[p].spec_native_id() == id,
        forall|j: int| 0 <= j < p ==> (#[trigger] si[j]).spec_native_id() != id,
    ensures
        spec_position_of_id(si, id) == Some(p),
    decreases p,
{
    if p == 0 {
    } else {
        assert(si.skip(1)[p - 1] == si[p]);
        assert forall|j: int| 0 <= j < p - 1 implies (#[trigger] si.skip(1)[j]).spec_native_id() != id by {
            assert(si.skip(1)[j] == si[j + 1]);
        }
        lemma_position_of_id_at(si.skip(1), id, p - 1);
    }
}

/// Without a carrier of the identifier the search finds nothing.
pub proof fn lemma_position_of_id_none(si: Seq<SpectrumIndexEntry>, id: Seq<char>)
    requires
        forall|j: int| 0 <= j < si.len() ==> (#[trigger] si[j]).spec_native_id() != id,
    ensures
        spec_position_of_id(si, id) is None,
    decreases si.len(),
{
    if si.len() > 0 {
        assert forall|j: int| 0 <= j < si.skip(1).len() implies (#[trigger] si.skip(1)[j]).spec_native_id() != id by {
            assert(si.skip(1)[j] == si[j + 1]);
        }
        lemma_position_of_id_none(si.skip(1), id);
    }
}

impl MassLynxReader {
    /// Every index entry's ordinals leave room for the 1-based rendering in
    /// its native identifier.
    pub open spec fn spec_index_entries_bounded(&self) -> bool {
        forall|j: int| 0 <= j < self.spectrum_index@.len()
            ==> (#[trigger] self.spectrum_index@[j]).function < usize::MAX
                && self.spectrum_index@[j].cycle < usize::MAX
    }

    /// Reverse lookup by native identifier: the position of the first
    /// spectrum entry whose canonical identifier is `id`.
    pub fn position_of_native_id(&self, id: &str) -> (r: Option<usize>)
        requires
            self.spec_index_entries_bounded(),
        ensures
            match r {
                Some(i) => spec_position_of_id(self.spectrum_index@, id@) == Some(i as int),
                None => spec_position_of_id(self.spectrum_index@, id@) is None,
            },
    {
        let target = String::from_str(id);
        let n = self.spectrum_index.len();
        let mut i: usize = 0;
        while i < n
            invariant
                i <= n == self.spectrum_index@.len(),
                self.spec_index_entries_bounded(),
                target@ == id@,
                forall|j: int| 0 <= j < i
                    ==> (#[trigger] self.spectrum_index@[j]).spec_native_id() != id@,
            decreases n - i,
        {
            let entry = self.spectrum_index[i];
            let entry_id = entry.native_id();
            if entry_id == target {
                proof {
                    lemma_position_of_id_at(self.spectrum_index@, id@, i as int);
                }
                return Some(i);
            }
            i += 1;
        }
        proof {
            lemma_position_of_id_none(self.spectrum_index@, id@);
        }
        None
    }
}

/// The position of the first cycle entry carrying the identifier, if any.
pub open spec fn spec_cycle_position_of_id(ci: Seq<CycleIndexEntry>, id: Seq<char>) -> Option<int>
    decreases ci.len(),
{
    if ci.len() == 0 {
        None
    } else if ci[0].spec_native_id() == id {
        Some(0)
    } else {
        match spec_cycle_position_of_id(ci.skip(1), id) {
            Some(k) => Some(k + 1),
            None => None,
        }
    }
}

/// When the first cycle with the identifier sits at `p`, the search finds
/// it there.
pub proof fn lemma_cycle_position_of_id_at(ci: Seq<CycleIndexEntry>, id: Seq<char>, p: int)
    requires
        0 <= p < ci.len(),
        ci[p].spec_native_id() == id,
        forall|j: int| 0 <= j < p ==> (#[trigger] ci[j]).spec_native_id() != id,
    ensures
        spec_cycle_position_of_id(ci, id) == Some(p),
    decreases p,
{
    if p == 0 {
    } else {
        assert(ci.skip(1)[p - 1] == ci[p]);
        assert forall|j: int| 0 <= j < p - 1 implies (#[trigger] ci.skip(1)[j]).spec_native_id() != id by {
            assert(ci.skip(1)[j] == ci[j + 1]);
        }
        lemma_cycle_position_of_id_at(ci.skip(1), id, p - 1);
    }
}

/// Without a carrier of the identifier the search finds nothing.
pub proof fn lemma_cycle_position_of_id_none(ci: Seq<CycleIndexEntry>, id: Seq<char>)
    requires
        forall|j: int| 0 <= j < ci.len() ==> (#[trigger] ci[j]).spec_native_id() != id,
    ensures
        spec_cycle_position_of_id(ci, id) is None,
    decreases ci.len(),
{
    if ci.len() > 0 {
        assert forall|j: int| 0 <= j < ci.skip(1).len() implies (#[trigger] ci.skip(1)[j]).spec_native_id() != id by {
            assert(ci.skip(1)[j] == ci[j + 1]);
        }
        lemma_cycle_position_of_id_none(ci.skip(1), id);
    }
}

impl MassLynxReader {
    /// Every cycle entry's ordinals leave room for its identifier: the
    /// 1-based function and position, and the drift-scan range product.
    pub open spec fn spec_cycle_entries_renderable(&self) -> bool {
        forall|j: int| 0 <= j < self.cycle_index@.len()
            ==> (#[trigger] self.cycle_index@[j]).function < usize::MAX
                && (self.cycle_index@[j].im_block_size == 0
                    ==> self.cycle_index@[j].index < usize::MAX)
                && self.cycle_index@[j].im_block_size * self.cycle_index@[j].index
                    + self.cycle_index@[j].im_block_size <= usize::MAX
    }

    /// Reverse lookup by native identifier over the cycle index: the
    /// position of the first cycle whose canonical identifier is `id`.
    pub fn cycle_position_of_native_id(&self, id: &str) -> (r: Option<usize>)
        requires
            self.spec_cycle_entries_renderable(),
        ensures
            match r {
                Some(i) => spec_cycle_position_of_id(self.cycle_index@, id@) == Some(i as int),
                None => spec_cycle_position_of_id(self.cycle_index@, id@) is None,
            },
    {
        let target = String::from_str(id);
        let n = self.cycle_index.len();
        let mut i: usize = 0;
        while i < n
            invariant
                i <= n == self.cycle_index@.len(),
                self.spec_cycle_entries_renderable(),
                target@ == id@,
                forall|j: int| 0 <= j < i
                    ==> (#[trigger] self.cycle_index@[j]).spec_native_id() != id@,
            decreases n - i,
        {
            let entry = self.cycle_index[i];
            let entry_id = entry.native_id();
            if entry_id == target {
                proof {
                    lemma_cycle_position_of_id_at(self.cycle_index@, id@, i as int);
                }
                return Some(i);
            }
            i += 1;
        }
        proof {
            lemma_cycle_position_of_id_none(self.cycle_index@, id@);
        }
        None
    }
}

/// The position of the first colon in the line, if any.
pub open spec fn spec_find_colon(l: Seq<char>) -> Option<int>
    decreases l.len(),
{
    if l.len() == 0 {
        None
    } else if l[0] == ':' {
        Some(0)
    } else {
        match spec_find_colon(l.skip(1)) {
            Some(k) => Some(k + 1),
            None => None,
        }
    }
}

/// The trimmed text of a range.
pub open spec fn spec_trimmed(l: Seq<char>) -> Seq<char> {
    crate::translate::spec_trim_back(crate::translate::spec_trim_front(l))
}

/// What one header line contributes: a line of the form `$$ key: value`
/// yields its trimmed key and value, any other line nothing.
pub open spec fn spec_parse_header_line(l: Seq<char>) -> Option<(Seq<char>, Seq<char>)> {
    if l.len() >= 3 && l[0] == '$' && l[1] == '$' && l[2] == ' ' {
        match spec_find_colon(l) {
            Some(i) => if i >= 3 {
                Some((spec_trimmed(l.subrange(3, i)), spec_trimmed(l.skip(i + 1))))
            } else {
                None
            },
            None => None,
        }
    } else {
        None
    }
}

/// A text-keyed store after writing `value` under `key`: the first entry
/// with the key is replaced, or a new entry is appended.
pub open spec fn spec_put_text(
    s: Seq<(Seq<char>, Seq<char>)>,
    key: Seq<char>,
    value: Seq<char>,
) -> Seq<(Seq<char>, Seq<char>)>
    decreases s.len(),
{
    if s.len() == 0 {
        seq![(key, value)]
    } else if s[0].0 == key {
        seq![(key, value)] + s.skip(1)
    } else {
        seq![s[0]] + spec_put_text(s.skip(1), key, value)
    }
}

/// The key/value pairs the header lines define, in line order, a repeated
/// key keeping its last value.
pub open spec fn spec_parse_headers(lines: Seq<Seq<char>>) -> Seq<(Seq<char>, Seq<char>)>
    decreases lines.len(),
{
    if lines.len() == 0 {
        Seq::empty()
    } else {
        let rest = spec_parse_headers(lines.drop_last());
        match spec_parse_header_line(lines.last()) {
            Some(kv) => spec_put_text(rest, kv.0, kv.1),
            None => rest,
        }
    }
}

/// The abstract contents of a parsed header store.
pub open spec fn text_pairs_view(v: &Vec<(String, String)>) -> Seq<(Seq<char>, Seq<char>)> {
    v@.map_values(|e: (String, String)| (e.0@, e.1@))
}

/// The trimmed text of `u` in `[lo, hi)`.
fn trimmed_range(u: &str, lo: usize, hi: usize) -> (r: String)
    requires
        lo <= hi <= u@.len(),
    ensures
        r@ == spec_trimmed(u@.subrange(lo as int, hi as int)),
{
    let ghost t = u@.subrange(lo as int, hi as int);
    let mut a: usize = lo;
    while a < hi && is_space_exec(u.get_char(a))
        invariant
            lo <= a <= hi <= u@.len(),
            forall|j: int| lo <= j < a ==> crate::translate::is_space_char(#[trigger] u@[j]),
        decreases hi - a,
    {
        a += 1;
    }
    let mut b: usize = hi;
    while b > a && is_space_exec(u.get_char(b - 1))
        invariant
            a <= b <= hi <= u@.len(),
            forall|j: int| b <= j < hi ==> crate::translate::is_space_char(#[trigger] u@[j]),
        decreases b,
    {
        b -= 1;
    }
    let r = String::from_str(u.substring_char(a, b));
    proof {
        let fa = a - lo;
        assert forall|j: int| 0 <= j < fa implies crate::translate::is_space_char(#[trigger] t[j]) by {
            assert(t[j] == u@[lo + j]);
        }
        if fa < t.len() {
            assert(t[fa] == u@[a as int]);
        }
        crate::translate::lemma_trim_front_at(t, fa);
        let s1 = t.skip(fa);
        let fb = b - a;
        assert forall|j: int| fb <= j < s1.len() implies crate::translate::is_space_char(#[trigger] s1[j]) by {
            assert(s1[j] == u@[a + j]);
        }
        if fb > 0 {
            assert(s1[fb - 1] == u@[b - 1]);
        }
        crate::translate::lemma_trim_back_at(s1, fb);
        assert(s1.take(fb) =~= u@.subrange(a as int, b as int));
    }
    r
}

fn is_space_exec(c: char) -> (b: bool)
    ensures
        b == crate::translate::is_space_char(c),
{
    c == ' ' || c == '\t' || c == '\r' || c == '\n'
}

/// Writes `value` under `key` in a text-keyed store, replacing the first
/// entry with the key or appending.
fn put_text_entry(v: &mut Vec<(String, String)>, key: String, value: String)
    ensures
        text_pairs_view(final(v)) == spec_put_text(text_pairs_view(old(v)), key@, value@),
{
    let ghost orig = text_pairs_view(old(v));
    let n = v.len();
    let mut i: usize = 0;
    let mut found: Option<usize> = None;
    while i < n && found.is_none()
        invariant
            i <= n == v@.len(),
            v == old(v),
            match found {
                Some(k) => k < i && i == k + 1 && v@[k as int].0@ == key@
                    && (forall|j: int| 0 <= j < k ==> (#[trigger] v@[j]).0@ != key@),
                None => forall|j: int| 0 <= j < i ==> (#[trigger] v@[j]).0@ != key@,
            },
        decreases n - i,
    {
        if v[i].0 == key {
            found = Some(i);
        }
        i += 1;
    }
    match found {
        Some(k) => {
            let mut rebuilt: Vec<(String, String)> = Vec::new();
            let mut j: usize = 0;
            while j < n
                invariant
                    j <= n == v@.len(),
                    v == old(v),
                    k < n,
                    rebuilt@.len() == j,
                    forall|t: int| 0 <= t < j && t != k
                        ==> (#[trigger] rebuilt@[t]).0@ == v@[t].0@ && rebuilt@[t].1@ == v@[t].1@,
                    j > k ==> rebuilt@[k as int].0@ == key@ && rebuilt@[k as int].1@ == value@,
                decreases n - j,
            {
                if j == k {
                    rebuilt.push((key.clone(), value.clone()));
                } else {
                    let e = &v[j];
                    rebuilt.push((e.0.clone(), e.1.clone()));
                }
                j += 1;
            }
            proof {
                lemma_spec_put_text_found(orig, key@, value@, k as int);
                assert(text_pairs_view(&rebuilt) =~= spec_put_text(orig, key@, value@));
            }
            *v = rebuilt;
        }
        None => {
            proof {
                lemma_spec_put_text_append(orig, key@, value@);
            }
            v.push((key, value));
            proof {
                assert(text_pairs_view(v) =~= orig.push((key@, value@)));
            }
        }
    }
}

proof fn lemma_spec_put_text_found(s: Seq<(Seq<char>, Seq<char>)>, key: Seq<char>, value: Seq<char>, k: int)
    requires
        0 <= k < s.len(),
        s[k].0 == key,
        forall|j: int| 0 <= j < k ==> (#[trigger] s[j]).0 != key,
    ensures
        spec_put_text(s, key, value) == s.update(k, (key, value)),
    decreases k,
{
    if k == 0 {
        assert(seq![(key, value)] + s.skip(1) =~= s.update(0, (key, value)));
    } else {
        assert(s.skip(1)[k - 1].0 == key);
        assert forall|j: int| 0 <= j < k - 1 implies (#[trigger] s.skip(1)[j]).0 != key by {
            assert(s.skip(1)[j] == s[j + 1]);
        }
        lemma_spec_put_text_found(s.skip(1), key, value, k - 1);
        assert(seq![s[0]] + s.skip(1).update(k - 1, (key, value)) =~= s.update(k, (key, value)));
    }
}

proof fn lemma_spec_put_text_append(s: Seq<(Seq<char>, Seq<char>)>, key: Seq<char>, value: Seq<char>)
    requires
        forall|j: int| 0 <= j < s.len() ==> (#[trigger] s[j]).0 != key,
    ensures
        spec_put_text(s, key, value) == s.push((key, value)),
    decreases s.len(),
{
    if s.len() == 0 {
        assert(spec_put_text(s, key, value) =~= s.push((key, value)));
    } else {
        assert forall|j: int| 0 <= j < s.skip(1).len() implies (#[trigger] s.skip(1)[j]).0 != key by {
            assert(s.skip(1)[j] == s[j + 1]);
        }
        lemma_spec_put_text_append(s.skip(1), key, value);
        assert(seq![s[0]] + s.skip(1).push((key, value)) =~= s.push((key, value)));
    }
}

/// Parses one header line against the `$$ key: value` form.
fn parse_header_line(line: &str) -> (r: Option<(String, String)>)
    ensures
        match r {
            Some(kv) => spec_parse_header_line(line@) == Some((kv.0@, kv.1@)),
            None => spec_parse_header_line(line@) is None,
        },
{
    let n = line.unicode_len();
    if n < 3 {
        return None;
    }
    if !(line.get_char(0) == '$' && line.get_char(1) == '$' && line.get_char(2) == ' ') {
        return None;
    }
    // find the first colon
    let mut i: usize = 0;
    let mut colon: Option<usize> = None;
    while i < n && colon.is_none()
        invariant
            i <= n == line@.len(),
            match colon {
                Some(c) => c < i && i == c + 1 && line@[c as int] == ':'
                    && (forall|j: int| 0 <= j < c ==> #[trigger] line@[j] != ':'),
                None => forall|j: int| 0 <= j < i ==> #[trigger] line@[j] != ':',
            },
        decreases n - i,
    {
        if line.get_char(i) == ':' {
            colon = Some(i);
        }
        i += 1;
    }
    match colon {
        Some(c) => {
            proof {
                lemma_find_colon_at(line@, c as int);
            }
            let key = trimmed_range(line, 3, c);
            let value = trimmed_range(line, c + 1, n);
            proof {
                assert(line@.skip(c + 1) =~= line@.subrange(c + 1, n as int));
            }
            Some((key, value))
        }
        None => {
            proof {
                lemma_find_colon_none(line@);
            }
            None
        }
    }
}

/// When the first colon sits at `c`, the search finds it there.
proof fn lemma_find_colon_at(l: Seq<char>, c: int)
    requires
        0 <= c < l.len(),
        l[c] == ':',
        forall|j: int| 0 <= j < c ==> #[trigger] l[j] != ':',
    ensures
        spec_find_colon(l) == Some(c),
    decreases c,
{
    if c == 0 {
    } else {
        assert(l.skip(1)[c - 1] == l[c]);
        assert forall|j: int| 0 <= j < c - 1 implies #[trigger] l.skip(1)[j] != ':' by {
            assert(l.skip(1)[j] == l[j + 1]);
        }
        lemma_find_colon_at(l.skip(1), c - 1);
    }
}

/// Without a colon the search finds nothing.
proof fn lemma_find_colon_none(l: Seq<char>)
    requires
        forall|j: int| 0 <= j < l.len() ==> #[trigger] l[j] != ':',
    ensures
        spec_find_colon(l) is None,
    decreases l.len(),
{
    if l.len() > 0 {
        assert forall|j: int| 0 <= j < l.skip(1).len() implies #[trigger] l.skip(1)[j] != ':' by {
            assert(l.skip(1)[j] == l[j + 1]);
        }
        lemma_find_colon_none(l.skip(1));
    }
}

/// Folds the lines of a run's plain-text header file into key/value pairs:
/// each `$$ key: value` line contributes its trimmed key and value, a
/// repeated key keeping its last value.
pub fn parse_header_lines(lines: &Vec<String>) -> (r: Vec<(String, String)>)
    ensures
        text_pairs_view(&r)
            == spec_parse_headers(lines@.map_values(|l: String| l@)),
{
    let ghost lview = lines@.map_values(|l: String| l@);
    let mut out: Vec<(String, String)> = Vec::new();
    let n = lines.len();
    let mut i: usize = 0;
    proof {
        assert(lview.take(0) =~= Seq::<Seq<char>>::empty());
        assert(text_pairs_view(&out) =~= spec_parse_headers(lview.take(0)));
    }
    while i < n
        invariant
            i <= n == lines@.len(),
            lview == lines@.map_values(|l: String| l@),
            text_pairs_view(&out) == spec_parse_headers(lview.take(i as int)),
        decreases n - i,
    {
        proof {
            assert(lview.take(i + 1).drop_last() =~= lview.take(i as int));
            assert(lview.take(i + 1).last() == lines@[i as int]@);
        }
        match parse_header_line(lines[i].as_str()) {
            Some((key, value)) => {
                put_text_entry(&mut out, key, value);
            }
            None => {}
        }
        i += 1;
    }
    proof {
        assert(lview.take(n as int) =~= lview);
    }
    out
}

} // verus!
