//! Errors and the plain-value models of the acquisition driver's reader
//! surfaces.
//!
//! The vendor driver exposes a run through a handful of session readers.
//! Each type here is a plain-data model of what the corresponding session
//! reports: per-function metadata, raw signal, chromatogram series, analog
//! channels and the lock-mass processor state.  Acquisition and drift times
//! are integer ticks under any order-preserving encoding chosen by the layer
//! that fills the model; signal samples are opaque 32-bit words.  Every
//! method states exactly which lookups succeed and what they return.

use vstd::prelude::*;

use crate::constants::MassLynxFunctionType;
use crate::constants::MassLynxHeaderItem;
use crate::constants::MassLynxIonMode;
use crate::constants::MassLynxScanItem;

verus! {

/// An error reported by the acquisition layer, carrying a driver status
/// code and a human-readable message.
#[derive(Debug, Default, Clone)]
pub struct MassLynxError {
    pub error_code: i32,
    pub message: String,
    pub extended_message: Option<String>,
}

impl MassLynxError {
    pub fn new(error_code: i32, message: String) -> (r: Self)
        ensures
            r.error_code == error_code,
            r.message == message,
            r.extended_message is None,
    {
        Self { error_code, message, extended_message: None }
    }

    pub fn extended_new(error_code: i32, message: String, extended_message: Option<String>) -> (r: Self)
        ensures
            r.error_code == error_code,
            r.message == message,
            r.extended_message == extended_message,
    {
        let mut this = Self::new(error_code, message);
        this.extended_message = extended_message;
        this
    }
}

pub type MassLynxResult<T> = Result<T, MassLynxError>;

/// The status code used for lookups that name a function, scan, channel or
/// drift bin the run does not have.
pub const NO_SUCH_RECORD: i32 = 4;

fn lookup_error() -> (r: MassLynxError)
    ensures
        r.error_code == NO_SUCH_RECORD,
{
    MassLynxError::new(NO_SUCH_RECORD, String::from_str("no such record in this run"))
}

/// An ordered key/value store of driver parameters, keyed by the integer
/// codes of the driver's vocabularies.
///
/// `set` replaces the first entry with the same key or appends a new one;
/// `get` returns the first entry with the key.
#[derive(Debug, Default, Clone)]
pub struct MassLynxParameters {
    pub entries: Vec<(i32, String)>,
}

/// The abstract contents of a parameter store: key codes paired with the
/// character sequences of their values.
pub open spec fn params_view(p: &MassLynxParameters) -> Seq<(i32, Seq<char>)> {
    p.entries@.map_values(|e: (i32, String)| (e.0, e.1@))
}

/// The value of the first entry with the given key, if any.
pub open spec fn spec_get(s: Seq<(i32, Seq<char>)>, key: i32) -> Option<Seq<char>>
    decreases s.len(),
{
    if s.len() == 0 {
        None
    } else if s[0].0 == key {
        Some(s[0].1)
    } else {
        spec_get(s.skip(1), key)
    }
}

/// The store after writing `value` under `key`: the first entry with the key
/// is replaced, or a new entry is appended.
pub open spec fn spec_set(s: Seq<(i32, Seq<char>)>, key: i32, value: Seq<char>) -> Seq<(i32, Seq<char>)>
    decreases s.len(),
{
    if s.len() == 0 {
        seq![(key, value)]
    } else if s[0].0 == key {
        seq![(key, value)] + s.skip(1)
    } else {
        seq![s[0]] + spec_set(s.skip(1), key, value)
    }
}

impl MassLynxParameters {
    pub fn new() -> (r: MassLynxResult<Self>)
        ensures
            r is Ok,
            params_view(&r->Ok_0) == Seq::<(i32, Seq<char>)>::empty(),
    {
        let p = Self { entries: Vec::new() };
        proof {
            assert(params_view(&p) =~= Seq::<(i32, Seq<char>)>::empty());
        }
        Ok(p)
    }

    /// Looks up the value stored under `key`; an absent key is a driver
    /// error, as it is for the session store this models.
    pub fn get(&self, key: i32) -> (r: MassLynxResult<String>)
        ensures
            match spec_get(params_view(self), key) {
                Some(v) => r is Ok && r->Ok_0@ == v,
                None => r is Err && r->Err_0.error_code == NO_SUCH_RECORD,
            },
    {
        let n = self.entries.len();
        let mut i: usize = 0;
        proof {
            assert(params_view(self).skip(0) =~= params_view(self));
        }
        while i < n
            invariant
                i <= n == self.entries.len(),
                forall|j: int| 0 <= j < i ==> (#[trigger] self.entries@[j]).0 != key,
                spec_get(params_view(self), key)
                    == spec_get(params_view(self).skip(i as int), key),
            decreases n - i,
        {
            if self.entries[i].0 == key {
                proof {
                    assert(params_view(self).skip(i as int)[0] == (self.entries@[i as int].0, self.entries@[i as int].1@));
                }
                return Ok(self.entries[i].1.clone());
            }
            proof {
                assert(params_view(self).skip(i as int).skip(1)
                    =~= params_view(self).skip(i + 1));
                assert(params_view(self).skip(i as int)[0] == (self.entries@[i as int].0, self.entries@[i as int].1@));
            }
            i += 1;
        }
        proof {
            assert(params_view(self).skip(n as int) =~= Seq::<(i32, Seq<char>)>::empty());
        }
        Err(lookup_error())
    }

    /// Writes `value` under `key`, replacing an existing entry for the key.
    pub fn set(&mut self, key: i32, value: String) -> (r: MassLynxResult<()>)
        ensures
            r is Ok,
            params_view(final(self)) == spec_set(params_view(old(self)), key, value@),
    {
        let ghost orig = params_view(old(self));
        let n = self.entries.len();
        let mut i: usize = 0;
        let mut found: Option<usize> = None;
        while i < n && found.is_none()
            invariant
                i <= n == self.entries.len(),
                match found {
                    Some(k) => k < i && i == k + 1 && self.entries@[k as int].0 == key
                        && (forall|j: int| 0 <= j < k ==> (#[trigger] self.entries@[j]).0 != key),
                    None => forall|j: int| 0 <= j < i ==> (#[trigger] self.entries@[j]).0 != key,
                },
            decreases n - i,
        {
            if self.entries[i].0 == key {
                found = Some(i);
            }
            i += 1;
        }
        match found {
            Some(k) => {
                // rebuild with the entry at `k` replaced
                let mut rebuilt: Vec<(i32, String)> = Vec::new();
                let mut j: usize = 0;
                while j < n
                    invariant
                        j <= n == self.entries.len(),
                        k < n,
                        rebuilt@.len() == j,
                        forall|t: int| 0 <= t < j && t != k ==> rebuilt@[t] == #[trigger] self.entries@[t],
                        j > k ==> rebuilt@[k as int].0 == key && rebuilt@[k as int].1@ == value@,
                    decreases n - j,
                {
                    if j == k {
                        rebuilt.push((key, value.clone()));
                    } else {
                        let e = &self.entries[j];
                        rebuilt.push((e.0, e.1.clone()));
                    }
                    j += 1;
                }
                proof {
                    lemma_spec_set_found(orig, key, value@, k as int);
                    assert(params_view(&MassLynxParameters { entries: rebuilt })
                        =~= spec_set(orig, key, value@));
                }
                self.entries = rebuilt;
            }
            None => {
                proof {
                    lemma_spec_set_append(orig, key, value@);
                }
                self.entries.push((key, value));
                proof {
                    assert(params_view(self) =~= orig.push((key, value@)));
                }
            }
        }
        Ok(())
    }

    /// A copy of the store with the same contents.
    pub fn duplicate(&self) -> (r: Self)
        ensures
            params_view(&r) == params_view(self),
    {
        let mut out: Vec<(i32, String)> = Vec::new();
        let n = self.entries.len();
        let mut i: usize = 0;
        while i < n
            invariant
                i <= n == self.entries.len(),
                out@.len() == i,
                forall|j: int| 0 <= j < i ==> (#[trigger] out@[j]).0 == self.entries@[j].0
                    && out@[j].1@ == self.entries@[j].1@,
            decreases n - i,
        {
            let e = &self.entries[i];
            out.push((e.0, e.1.clone()));
            i += 1;
        }
        let r = Self { entries: out };
        proof {
            assert(params_view(&r) =~= params_view(self));
        }
        r
    }

    /// The key codes of all entries, in store order.
    pub fn get_raw_keys(&self) -> (r: MassLynxResult<Vec<i32>>)
        ensures
            r is Ok,
            r->Ok_0@ == params_view(self).map_values(|e: (i32, Seq<char>)| e.0),
    {
        let mut keys: Vec<i32> = Vec::new();
        let n = self.entries.len();
        let mut i: usize = 0;
        while i < n
            invariant
                i <= n == self.entries.len(),
                keys@.len() == i,
                forall|j: int| 0 <= j < i ==> keys@[j] == (#[trigger] self.entries@[j]).0,
            decreases n - i,
        {
            keys.push(self.entries[i].0);
            i += 1;
        }
        proof {
            assert(keys@ =~= params_view(self).map_values(|e: (i32, Seq<char>)| e.0));
        }
        Ok(keys)
    }
}

/// `spec_set` on a store whose first `key` entry sits at position `k`
/// replaces exactly that position.
proof fn lemma_spec_set_found(s: Seq<(i32, Seq<char>)>, key: i32, value: Seq<char>, k: int)
    requires
        0 <= k < s.len(),
        s[k].0 == key,
        forall|j: int| 0 <= j < k ==> (#[trigger] s[j]).0 != key,
    ensures
        spec_set(s, key, value) == s.update(k, (key, value)),
    decreases k,
{
    if k == 0 {
        assert(spec_set(s, key, value) == seq![(key, value)] + s.skip(1));
        assert(seq![(key, value)] + s.skip(1) =~= s.update(0, (key, value)));
    } else {
        assert(s.skip(1)[k - 1].0 == key);
        assert forall|j: int| 0 <= j < k - 1 implies (#[trigger] s.skip(1)[j]).0 != key by {
            assert(s.skip(1)[j] == s[j + 1]);
        }
        lemma_spec_set_found(s.skip(1), key, value, k - 1);
        assert(seq![s[0]] + s.skip(1).update(k - 1, (key, value)) =~= s.update(k, (key, value)));
    }
}

/// `spec_set` on a store without the key appends the new entry.
proof fn lemma_spec_set_append(s: Seq<(i32, Seq<char>)>, key: i32, value: Seq<char>)
    requires
        forall|j: int| 0 <= j < s.len() ==> (#[trigger] s[j]).0 != key,
    ensures
        spec_set(s, key, value) == s.push((key, value)),
    decreases s.len(),
{
    if s.len() == 0 {
        assert(spec_set(s, key, value) =~= s.push((key, value)));
    } else {
        assert forall|j: int| 0 <= j < s.skip(1).len() implies (#[trigger] s.skip(1)[j]).0 != key by {
            assert(s.skip(1)[j] == s[j + 1]);
        }
        lemma_spec_set_append(s.skip(1), key, value);
        assert(seq![s[0]] + s.skip(1).push((key, value)) =~= s.push((key, value)));
    }
}

/// Everything the driver reports about one acquisition function.
#[derive(Debug, Clone)]
pub struct FunctionRecord {
    /// The function's scan role.
    pub function_type: MassLynxFunctionType,
    /// The ion polarity the function acquired with.
    pub ion_mode: MassLynxIonMode,
    /// Whether the function records profile (continuum) signal.
    pub is_continuum: bool,
    /// The acquisition time of each scan, in ticks; the length is the
    /// function's scan count.
    pub retention_times: Vec<u64>,
    /// The drift bin count the driver reports for the function.
    pub drift_scan_count: usize,
    /// The scan attribute kinds present for this function.
    pub scan_items: MassLynxParameters,
    /// The attribute values of each scan, parallel to `retention_times`.
    pub scan_values: Vec<MassLynxParameters>,
}

/// The model of the driver's information reader: run-wide and per-function
/// metadata.
#[derive(Debug, Clone)]
pub struct MassLynxInfoReader {
    pub functions: Vec<FunctionRecord>,
    pub has_lock_mass: bool,
    pub lock_mass_function: usize,
    pub lock_mass_corrected: bool,
    /// The drift time of each drift bin, in ticks.
    pub drift_times: Vec<u64>,
    pub header: MassLynxParameters,
    pub acquisition: MassLynxParameters,
}

impl MassLynxInfoReader {
    pub fn function_count(&self) -> (r: MassLynxResult<usize>)
        ensures
            r is Ok,
            r->Ok_0 == self.functions@.len(),
    {
        Ok(self.functions.len())
    }

    pub fn scan_count_for_function(&self, which_function: usize) -> (r: MassLynxResult<usize>)
        ensures
            if which_function < self.functions@.len() {
                r is Ok && r->Ok_0 == self.functions@[which_function as int].retention_times@.len()
            } else {
                r is Err
            },
    {
        if which_function < self.functions.len() {
            Ok(self.functions[which_function].retention_times.len())
        } else {
            Err(lookup_error())
        }
    }

    pub fn get_function_type(&self, which_function: usize) -> (r: MassLynxResult<MassLynxFunctionType>)
        ensures
            if which_function < self.functions@.len() {
                r is Ok && r->Ok_0 == self.functions@[which_function as int].function_type
            } else {
                r is Err
            },
    {
        if which_function < self.functions.len() {
            Ok(self.functions[which_function].function_type)
        } else {
            Err(lookup_error())
        }
    }

    pub fn get_ion_mode(&self, which_function: usize) -> (r: MassLynxResult<MassLynxIonMode>)
        ensures
            if which_function < self.functions@.len() {
                r is Ok && r->Ok_0 == self.functions@[which_function as int].ion_mode
            } else {
                r is Err
            },
    {
        if which_function < self.functions.len() {
            Ok(self.functions[which_function].ion_mode)
        } else {
            Err(lookup_error())
        }
    }

    pub fn is_continuum(&self, which_function: usize) -> (r: MassLynxResult<bool>)
        ensures
            if which_function < self.functions@.len() {
                r is Ok && r->Ok_0 == self.functions@[which_function as int].is_continuum
            } else {
                r is Err
            },
    {
        if which_function < self.functions.len() {
            Ok(self.functions[which_function].is_continuum)
        } else {
            Err(lookup_error())
        }
    }

    pub fn get_drift_scan_count(&self, which_function: usize) -> (r: MassLynxResult<usize>)
        ensures
            if which_function < self.functions@.len() {
                r is Ok && r->Ok_0 == self.functions@[which_function as int].drift_scan_count
            } else {
                r is Err
            },
    {
        if which_function < self.functions.len() {
            Ok(self.functions[which_function].drift_scan_count)
        } else {
            Err(lookup_error())
        }
    }

    /// The acquisition time of one scan, in ticks.
    pub fn get_retention_time(&self, which_function: usize, which_scan: usize) -> (r: MassLynxResult<u64>)
        ensures
            if which_function < self.functions@.len()
                && which_scan < self.functions@[which_function as int].retention_times@.len() {
                r is Ok && r->Ok_0
                    == self.functions@[which_function as int].retention_times@[which_scan as int]
            } else {
                r is Err
            },
    {
        if which_function < self.functions.len() {
            let times = &self.functions[which_function].retention_times;
            if which_scan < times.len() {
                return Ok(times[which_scan]);
            }
        }
        Err(lookup_error())
    }

    /// Whether the run designates a lock-mass reference function, and which.
    pub fn get_lock_mass_function(&self) -> (r: MassLynxResult<(bool, usize)>)
        ensures
            r is Ok,
            r->Ok_0.0 == self.has_lock_mass,
            r->Ok_0.1 == self.lock_mass_function,
    {
        Ok((self.has_lock_mass, self.lock_mass_function))
    }

    pub fn is_lock_mass_corrected(&self) -> (r: MassLynxResult<bool>)
        ensures
            r is Ok,
            r->Ok_0 == self.lock_mass_corrected,
    {
        Ok(self.lock_mass_corrected)
    }

    /// The drift time of one drift bin, in ticks.
    pub fn get_drift_time(&self, which_drift: usize) -> (r: MassLynxResult<u64>)
        ensures
            if which_drift < self.drift_times@.len() {
                r is Ok && r->Ok_0 == self.drift_times@[which_drift as int]
            } else {
                r is Err
            },
    {
        if which_drift < self.drift_times.len() {
            Ok(self.drift_times[which_drift])
        } else {
            Err(lookup_error())
        }
    }

    /// The values of the requested header items, each present item in
    /// request order.
    pub fn get_header_items(&self, items: &Vec<MassLynxHeaderItem>) -> (r: MassLynxResult<MassLynxParameters>)
        ensures
            r is Ok,
            params_view(&r->Ok_0) == spec_filter_requested(
                items@.map_values(|k: MassLynxHeaderItem| k.code_spec() as i32),
                params_view(&self.header),
            ),
    {
        let mut out = Self::filter_params(&self.header, &Self::header_codes(items));
        Ok(out)
    }

    pub fn get_acquisition_info(&self) -> (r: MassLynxResult<MassLynxParameters>)
        ensures
            r is Ok,
            params_view(&r->Ok_0) == params_view(&self.acquisition),
    {
        Ok(self.acquisition.duplicate())
    }

    /// The attribute kinds present for a function.
    pub fn get_scan_items(&self, which_function: usize) -> (r: MassLynxResult<MassLynxParameters>)
        ensures
            if which_function < self.functions@.len() {
                r is Ok && params_view(&r->Ok_0)
                    == params_view(&self.functions@[which_function as int].scan_items)
            } else {
                r is Err
            },
    {
        if which_function < self.functions.len() {
            Ok(self.functions[which_function].scan_items.duplicate())
        } else {
            Err(lookup_error())
        }
    }

    /// The values of the requested attribute kinds for one scan, each present
    /// kind in request order.
    pub fn get_scan_item_values_for_scan(
        &self,
        which_function: usize,
        which_scan: usize,
        items: &Vec<MassLynxScanItem>,
    ) -> (r: MassLynxResult<MassLynxParameters>)
        ensures
            if which_function < self.functions@.len()
                && which_scan < self.functions@[which_function as int].scan_values@.len() {
                r is Ok && params_view(&r->Ok_0) == spec_filter_requested(
                    items@.map_values(|k: MassLynxScanItem| k.code_spec() as i32),
                    params_view(&self.functions@[which_function as int].scan_values@[which_scan as int]),
                )
            } else {
                r is Err
            },
    {
        if which_function < self.functions.len() {
            let values = &self.functions[which_function].scan_values;
            if which_scan < values.len() {
                let store = &values[which_scan];
                let out = Self::filter_params(store, &Self::scan_codes(items));
                return Ok(out);
            }
        }
        Err(lookup_error())
    }

    fn header_codes(items: &Vec<MassLynxHeaderItem>) -> (r: Vec<i32>)
        ensures
            r@ == items@.map_values(|k: MassLynxHeaderItem| k.code_spec() as i32),
    {
        let mut codes: Vec<i32> = Vec::new();
        let n = items.len();
        let mut i: usize = 0;
        while i < n
            invariant
                i <= n == items@.len(),
                codes@.len() == i,
                forall|j: int| 0 <= j < i
                    ==> codes@[j] == (#[trigger] items@[j]).code_spec() as i32,
            decreases n - i,
        {
            codes.push(items[i].code() as i32);
            i += 1;
        }
        proof {
            assert(codes@ =~= items@.map_values(|k: MassLynxHeaderItem| k.code_spec() as i32));
        }
        codes
    }

    fn scan_codes(items: &Vec<MassLynxScanItem>) -> (r: Vec<i32>)
        ensures
            r@ == items@.map_values(|k: MassLynxScanItem| k.code_spec() as i32),
    {
        let mut codes: Vec<i32> = Vec::new();
        let n = items.len();
        let mut i: usize = 0;
        while i < n
            invariant
                i <= n == items@.len(),
                codes@.len() == i,
                forall|j: int| 0 <= j < i
                    ==> codes@[j] == (#[trigger] items@[j]).code_spec() as i32,
            decreases n - i,
        {
            codes.push(items[i].code() as i32);
            i += 1;
        }
        proof {
            assert(codes@ =~= items@.map_values(|k: MassLynxScanItem| k.code_spec() as i32));
        }
        codes
    }

    /// Collects, in request order, the requested keys that the store holds,
    /// paired with their stored values.
    fn filter_params(store: &MassLynxParameters, codes: &Vec<i32>) -> (r: MassLynxParameters)
        ensures
            params_view(&r) == spec_filter_requested(codes@, params_view(store)),
    {
        let mut out_entries: Vec<(i32, String)> = Vec::new();
        let n = codes.len();
        let mut i: usize = 0;
        while i < n
            invariant
                i <= n == codes@.len(),
                params_view(&MassLynxParameters { entries: out_entries })
                    == spec_filter_requested(codes@.take(i as int), params_view(store)),
            decreases n - i,
        {
            let code = codes[i];
            proof {
                assert(codes@.take(i + 1).drop_last() =~= codes@.take(i as int));
                assert(codes@.take(i + 1).last() == codes@[i as int]);
                lemma_filter_requested_step(codes@.take(i + 1), params_view(store));
            }
            match store.get(code) {
                Ok(v) => {
                    out_entries.push((code, v));
                    proof {
                        assert(params_view(&MassLynxParameters { entries: out_entries })
                            =~= spec_filter_requested(codes@.take(i + 1), params_view(store)));
                    }
                }
                Err(_) => {
                    proof {
                        assert(params_view(&MassLynxParameters { entries: out_entries })
                            =~= spec_filter_requested(codes@.take(i + 1), params_view(store)));
                    }
                }
            }
            i += 1;
        }
        proof {
            assert(codes@.take(n as int) =~= codes@);
        }
        MassLynxParameters { entries: out_entries }
    }
}

/// The requested keys that the store holds, in request order, paired with
/// their stored values.
pub open spec fn spec_filter_requested(codes: Seq<i32>, store: Seq<(i32, Seq<char>)>) -> Seq<(i32, Seq<char>)>
    decreases codes.len(),
{
    if codes.len() == 0 {
        Seq::empty()
    } else {
        let rest = spec_filter_requested(codes.drop_last(), store);
        match spec_get(store, codes.last()) {
            Some(v) => rest.push((codes.last(), v)),
            None => rest,
        }
    }
}

proof fn lemma_filter_requested_step(codes: Seq<i32>, store: Seq<(i32, Seq<char>)>)
    requires
        codes.len() >= 1,
    ensures
        spec_filter_requested(codes, store) == match spec_get(store, codes.last()) {
            Some(v) => spec_filter_requested(codes.drop_last(), store).push((codes.last(), v)),
            None => spec_filter_requested(codes.drop_last(), store),
        },
{
}

/// The raw signal of one scan: mass-to-charge and intensity samples as
/// opaque 32-bit words.
#[derive(Debug, Default, Clone)]
pub struct ScanSignal {
    pub mz_array: Vec<u32>,
    pub intensity_array: Vec<u32>,
}

/// The signal the driver holds for one function: whole scans, and drift
/// sub-scans indexed by scan and then drift bin.
#[derive(Debug, Default, Clone)]
pub struct FunctionSignals {
    pub scans: Vec<ScanSignal>,
    pub drift_scans: Vec<Vec<ScanSignal>>,
}

/// The model of the driver's scan reader: raw signal per function.
#[derive(Debug, Default, Clone)]
pub struct MassLynxScanReader {
    pub functions: Vec<FunctionSignals>,
}

impl MassLynxScanReader {
    /// Reads the signal of one whole scan.
    pub fn read_scan(&self, which_function: usize, which_scan: usize) -> (r: MassLynxResult<(Vec<u32>, Vec<u32>)>)
        ensures
            if which_function < self.functions@.len()
                && which_scan < self.functions@[which_function as int].scans@.len() {
                r is Ok
                    && r->Ok_0.0@ == self.functions@[which_function as int].scans@[which_scan as int].mz_array@
                    && r->Ok_0.1@ == self.functions@[which_function as int].scans@[which_scan as int].intensity_array@
            } else {
                r is Err
            },
    {
        if which_function < self.functions.len() {
            let scans = &self.functions[which_function].scans;
            if which_scan < scans.len() {
                let s = &scans[which_scan];
                return Ok((s.mz_array.clone(), s.intensity_array.clone()));
            }
        }
        Err(lookup_error())
    }

    /// Reads the signal of one drift sub-scan.
    pub fn read_drift_scan(
        &self,
        which_function: usize,
        which_scan: usize,
        which_drift: usize,
    ) -> (r: MassLynxResult<(Vec<u32>, Vec<u32>)>)
        ensures
            if which_function < self.functions@.len()
                && which_scan < self.functions@[which_function as int].drift_scans@.len()
                && which_drift < self.functions@[which_function as int].drift_scans@[which_scan as int]@.len() {
                r is Ok
                    && r->Ok_0.0@ == self.functions@[which_function as int]
                        .drift_scans@[which_scan as int]@[which_drift as int].mz_array@
                    && r->Ok_0.1@ == self.functions@[which_function as int]
                        .drift_scans@[which_scan as int]@[which_drift as int].intensity_array@
            } else {
                r is Err
            },
    {
        if which_function < self.functions.len() {
            let per_scan = &self.functions[which_function].drift_scans;
            if which_scan < per_scan.len() {
                let bins = &per_scan[which_scan];
                if which_drift < bins.len() {
                    let s = &bins[which_drift];
                    return Ok((s.mz_array.clone(), s.intensity_array.clone()));
                }
            }
        }
        Err(lookup_error())
    }
}

/// One chromatogram series: parallel time (ticks) and intensity arrays.
#[derive(Debug, Default, Clone)]
pub struct ChromatogramSeries {
    pub times: Vec<u64>,
    pub intensities: Vec<u32>,
}

/// The model of the driver's chromatogram reader: a total-ion-current and a
/// base-peak series per function.
#[derive(Debug, Default, Clone)]
pub struct MassLynxChromatogramReader {
    pub tic: Vec<ChromatogramSeries>,
    pub bpi: Vec<ChromatogramSeries>,
}

impl MassLynxChromatogramReader {
    /// Appends one function's total-ion-current series to the given buffers.
    pub fn read_tic_into(
        &self,
        which_function: usize,
        time_array: &mut Vec<u64>,
        intensity_array: &mut Vec<u32>,
    ) -> (r: MassLynxResult<()>)
        ensures
            if which_function < self.tic@.len() {
                r is Ok
                    && final(time_array)@ == old(time_array)@ + self.tic@[which_function as int].times@
                    && final(intensity_array)@ == old(intensity_array)@ + self.tic@[which_function as int].intensities@
            } else {
                r is Err
                    && final(time_array)@ == old(time_array)@
                    && final(intensity_array)@ == old(intensity_array)@
            },
    {
        if which_function < self.tic.len() {
            let series = &self.tic[which_function];
            append_u64(time_array, &series.times);
            append_u32(intensity_array, &series.intensities);
            Ok(())
        } else {
            Err(lookup_error())
        }
    }

    /// Appends one function's base-peak series to the given buffers.
    pub fn read_bpi_into(
        &self,
        which_function: usize,
        time_array: &mut Vec<u64>,
        intensity_array: &mut Vec<u32>,
    ) -> (r: MassLynxResult<()>)
        ensures
            if which_function < self.bpi@.len() {
                r is Ok
                    && final(time_array)@ == old(time_array)@ + self.bpi@[which_function as int].times@
                    && final(intensity_array)@ == old(intensity_array)@ + self.bpi@[which_function as int].intensities@
            } else {
                r is Err
                    && final(time_array)@ == old(time_array)@
                    && final(intensity_array)@ == old(intensity_array)@
            },
    {
        if which_function < self.bpi.len() {
            let series = &self.bpi[which_function];
            append_u64(time_array, &series.times);
            append_u32(intensity_array, &series.intensities);
            Ok(())
        } else {
            Err(lookup_error())
        }
    }
}

fn append_u64(dst: &mut Vec<u64>, src: &Vec<u64>)
    ensures
        final(dst)@ == old(dst)@ + src@,
{
    let n = src.len();
    let mut i: usize = 0;
    while i < n
        invariant
            i <= n == src@.len(),
            dst@ == old(dst)@ + src@.take(i as int),
        decreases n - i,
    {
        dst.push(src[i]);
        proof {
            assert(old(dst)@ + src@.take(i as int) + seq![src@[i as int]]
                =~= old(dst)@ + src@.take(i + 1));
        }
        i += 1;
    }
    proof {
        assert(src@.take(n as int) =~= src@);
    }
}

fn append_u32(dst: &mut Vec<u32>, src: &Vec<u32>)
    ensures
        final(dst)@ == old(dst)@ + src@,
{
    let n = src.len();
    let mut i: usize = 0;
    while i < n
        invariant
            i <= n == src@.len(),
            dst@ == old(dst)@ + src@.take(i as int),
        decreases n - i,
    {
        dst.push(src[i]);
        proof {
            assert(old(dst)@ + src@.take(i as int) + seq![src@[i as int]]
                =~= old(dst)@ + src@.take(i + 1));
        }
        i += 1;
    }
    proof {
        assert(src@.take(n as int) =~= src@);
    }
}

/// One analog channel: its description, physical unit string and series.
#[derive(Debug, Default, Clone)]
pub struct AnalogChannel {
    pub description: String,
    pub units: String,
    pub times: Vec<u64>,
    pub intensities: Vec<u32>,
}

/// The model of the driver's analog reader: auxiliary detector channels.
#[derive(Debug, Default, Clone)]
pub struct MassLynxAnalogReader {
    pub channels: Vec<AnalogChannel>,
}

impl MassLynxAnalogReader {
    pub fn channel_count(&self) -> (r: MassLynxResult<usize>)
        ensures
            r is Ok,
            r->Ok_0 == self.channels@.len(),
    {
        Ok(self.channels.len())
    }

    /// Reads one channel's time and intensity series.
    pub fn read_channel(&self, which_channel: usize) -> (r: MassLynxResult<(Vec<u64>, Vec<u32>)>)
        ensures
            if which_channel < self.channels@.len() {
                r is Ok
                    && r->Ok_0.0@ == self.channels@[which_channel as int].times@
                    && r->Ok_0.1@ == self.channels@[which_channel as int].intensities@
            } else {
                r is Err
            },
    {
        if which_channel < self.channels.len() {
            let c = &self.channels[which_channel];
            Ok((c.times.clone(), c.intensities.clone()))
        } else {
            Err(lookup_error())
        }
    }

    pub fn channel_description(&self, which_channel: usize) -> (r: MassLynxResult<String>)
        ensures
            if which_channel < self.channels@.len() {
                r is Ok && r->Ok_0@ == self.channels@[which_channel as int].description@
            } else {
                r is Err
            },
    {
        if which_channel < self.channels.len() {
            Ok(self.channels[which_channel].description.clone())
        } else {
            Err(lookup_error())
        }
    }

    pub fn channel_units(&self, which_channel: usize) -> (r: MassLynxResult<String>)
        ensures
            if which_channel < self.channels@.len() {
                r is Ok && r->Ok_0@ == self.channels@[which_channel as int].units@
            } else {
                r is Err
            },
    {
        if which_channel < self.channels.len() {
            Ok(self.channels[which_channel].units.clone())
        } else {
            Err(lookup_error())
        }
    }
}

/// The model of the driver's lock-mass processor: whether the attached data
/// can be corrected, the configured reference mass and tolerance, and
/// whether a correction is currently applied.
#[derive(Debug, Default, Clone)]
pub struct MassLynxLockMassProcessor {
    /// Whether the attached raw data carries a usable lock-mass reference.
    pub can_correct: bool,
    /// The configured reference mass, as its numeric text.
    pub mass: Option<String>,
    /// The configured tolerance, as its numeric text.
    pub tolerance: Option<String>,
    /// Whether a lock-mass correction is currently applied.
    pub corrected: bool,
}

impl MassLynxLockMassProcessor {
    pub fn new() -> (r: MassLynxResult<Self>)
        ensures
            r is Ok,
            !r->Ok_0.can_correct,
            r->Ok_0.mass is None,
            r->Ok_0.tolerance is None,
            !r->Ok_0.corrected,
    {
        Ok(Self { can_correct: false, mass: None, tolerance: None, corrected: false })
    }

    /// Takes the reference mass and tolerance from a parameter store.
    pub fn set_parameters(&mut self, params: &MassLynxParameters) -> (r: MassLynxResult<()>)
        ensures
            r is Ok,
            final(self).can_correct == old(self).can_correct,
            final(self).corrected == old(self).corrected,
            match spec_get(params_view(params), crate::constants::LockMassParameter::MASS.code_spec() as i32) {
                Some(v) => final(self).mass matches Some(m) && m@ == v,
                None => final(self).mass is None,
            },
            match spec_get(params_view(params), crate::constants::LockMassParameter::TOLERANCE.code_spec() as i32) {
                Some(v) => final(self).tolerance matches Some(t) && t@ == v,
                None => final(self).tolerance is None,
            },
    {
        let mass_code = crate::constants::LockMassParameter::MASS.code() as i32;
        let tol_code = crate::constants::LockMassParameter::TOLERANCE.code() as i32;
        self.mass = match params.get(mass_code) {
            Ok(v) => Some(v),
            Err(_) => None,
        };
        self.tolerance = match params.get(tol_code) {
            Ok(v) => Some(v),
            Err(_) => None,
        };
        Ok(())
    }

    /// Whether a correction could be applied now: the data supports one and a
    /// reference mass is configured.
    pub fn can_lock_mass_correct(&self) -> (r: MassLynxResult<bool>)
        ensures
            r is Ok,
            r->Ok_0 == (self.can_correct && self.mass is Some),
    {
        Ok(self.can_correct && self.mass.is_some())
    }

    /// Applies the correction when possible; reports whether a correction is
    /// now applied because of this call.
    pub fn lock_mass_correct(&mut self) -> (r: MassLynxResult<bool>)
        ensures
            r is Ok,
            r->Ok_0 == (old(self).can_correct && old(self).mass is Some),
            final(self).corrected == (old(self).corrected || (old(self).can_correct && old(self).mass is Some)),
            final(self).can_correct == old(self).can_correct,
            final(self).mass == old(self).mass,
            final(self).tolerance == old(self).tolerance,
    {
        let possible = self.can_correct && self.mass.is_some();
        if possible {
            self.corrected = true;
        }
        Ok(possible)
    }

    /// Removes any applied correction.
    pub fn remove_lock_mass_correction(&mut self) -> (r: MassLynxResult<()>)
        ensures
            r is Ok,
            !final(self).corrected,
            final(self).can_correct == old(self).can_correct,
            final(self).mass == old(self).mass,
            final(self).tolerance == old(self).tolerance,
    {
        self.corrected = false;
        Ok(())
    }

    pub fn is_lock_mass_corrected(&self) -> (r: MassLynxResult<bool>)
        ensures
            r is Ok,
            r->Ok_0 == self.corrected,
    {
        Ok(self.corrected)
    }
}

} // verus!
