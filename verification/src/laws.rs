//! The run-level guarantees of the indexing engine, stated and proved over
//! the specifications of [`crate::reader`].
//!
//! Each public proof here is a law of the library: how the cycle index is
//! ordered, how large the spectrum index is, that native identifiers are
//! unique and lookup by identifier agrees with lookup by position, what
//! disabling signal loading changes and what it leaves alone, when
//! lock-mass skipping hides a cycle, and that opening and retrieval are
//! deterministic.

use vstd::prelude::*;

use crate::base::MassLynxInfoReader;
use crate::reader::spec_cycle_index;
use crate::reader::spec_enumerate_cycles;
use crate::reader::spec_flatten_cycles;
use crate::reader::spec_function_cycles;
use crate::reader::spec_position_of_id;
use crate::reader::id_function_part;
use crate::reader::id_scan_part;
use crate::reader::sort_entries;
use crate::reader::lemma_sort_entries_ensures;
use crate::reader::lemma_position_of_id_at;
use crate::reader::spec_with_position;
use crate::reader::CycleIndexEntry;
use crate::reader::MassLynxReader;
use crate::reader::ScanFunction;
use crate::reader::Spectrum;
use crate::reader::SpectrumIndexEntry;
use crate::text::dec_spec;
use crate::text::is_digit_char;
use crate::text::lemma_dec_spec_digits;
use crate::text::lemma_dec_spec_injective;
use crate::text::lemma_digit_prefix_determined;

verus! {

/// For all runs, the cycle index is sorted by acquisition time
/// non-decreasing, and entries with equal times keep the original
/// enumeration order: function ascending, then in-function scan ascending.
pub proof fn lemma_cycle_index_time_ordered(functions: Seq<ScanFunction>, info: &MassLynxInfoReader)
    ensures
        ({
            let ci = spec_cycle_index(functions, info);
            forall|i: int, j: int| 0 <= i < j < ci.len()
                ==> (#[trigger] ci[i]).time <= (#[trigger] ci[j]).time
                    && (ci[i].time == ci[j].time
                        ==> ci[i].function < ci[j].function
                            || (ci[i].function == ci[j].function && ci[i].block <= ci[j].block))
        }),
{
    let sorted = sort_entries(spec_enumerate_cycles(functions, info));
    lemma_sort_entries_ensures(spec_enumerate_cycles(functions, info));
    let ci = spec_cycle_index(functions, info);
    assert forall|i: int, j: int| 0 <= i < j < ci.len()
        implies (#[trigger] ci[i]).time <= (#[trigger] ci[j]).time
            && (ci[i].time == ci[j].time
                ==> ci[i].function < ci[j].function
                    || (ci[i].function == ci[j].function && ci[i].block <= ci[j].block)) by {
        assert(ci[i] == spec_with_position(sorted[i], i));
        assert(ci[j] == spec_with_position(sorted[j], j));
        assert(!crate::reader::cycle_key_lt(sorted[j], sorted[i]));
    }
}

/// The number of cycles the catalog contributes: each function with a
/// positive level counts its scans, every other function counts nothing.
pub open spec fn spec_total_cycles(functions: Seq<ScanFunction>) -> int
    decreases functions.len(),
{
    if functions.len() == 0 {
        0
    } else {
        spec_total_cycles(functions.drop_last())
            + (if functions.last().ms_level > 0 { functions.last().scan_count as int } else { 0 })
    }
}

/// An entry drawn from the catalog: its function exists, is spectrometric,
/// and the entry carries that function's drift block size and a scan
/// number the function has.
pub open spec fn spec_entry_of_catalog(e: CycleIndexEntry, functions: Seq<ScanFunction>) -> bool {
    &&& (e.function as int) < functions.len()
    &&& functions[e.function as int].ms_level > 0
    &&& (e.block as int) < functions[e.function as int].scan_count
    &&& e.im_block_size == functions[e.function as int].ion_mobility_block_size
}

/// No two entries name the same function and scan.
pub open spec fn spec_entry_fb_distinct(ci: Seq<CycleIndexEntry>) -> bool {
    forall|i: int, j: int| 0 <= i < j < ci.len()
        ==> !((#[trigger] ci[i]).function == (#[trigger] ci[j]).function
            && ci[i].block == ci[j].block)
}

/// What enumeration guarantees: every entry is drawn from the catalog, no
/// two entries share a (function, scan) pair, and the count is the total
/// the catalog demands.
proof fn lemma_enumerate_entries(functions: Seq<ScanFunction>, info: &MassLynxInfoReader)
    requires
        forall|k: int| 0 <= k < functions.len() ==> (#[trigger] functions[k]).function == k,
    ensures
        ({
            let en = spec_enumerate_cycles(functions, info);
            &&& forall|j: int| 0 <= j < en.len()
                ==> spec_entry_of_catalog(#[trigger] en[j], functions)
            &&& spec_entry_fb_distinct(en)
            &&& en.len() == spec_total_cycles(functions)
        }),
    decreases functions.len(),
{
    let en = spec_enumerate_cycles(functions, info);
    if functions.len() == 0 {
    } else {
        let prefix_fns = functions.drop_last();
        assert forall|k: int| 0 <= k < prefix_fns.len()
            implies (#[trigger] prefix_fns[k]).function == k by {
            assert(prefix_fns[k] == functions[k]);
        }
        lemma_enumerate_entries(prefix_fns, info);
        let prefix = spec_enumerate_cycles(prefix_fns, info);
        let func = functions.last();
        let tail = if func.ms_level > 0 {
            spec_function_cycles(func, info.functions@[func.function as int].retention_times@)
        } else {
            Seq::<CycleIndexEntry>::empty()
        };
        assert(en == prefix + tail);
        // entries of the prefix stay catalog entries of the full catalog
        assert forall|j: int| 0 <= j < en.len()
            implies spec_entry_of_catalog(#[trigger] en[j], functions) by {
            if j < prefix.len() {
                assert(en[j] == prefix[j]);
                assert(spec_entry_of_catalog(prefix[j], prefix_fns));
                assert(prefix_fns[prefix[j].function as int] == functions[prefix[j].function as int]);
            } else {
                assert(en[j] == tail[j - prefix.len()]);
                assert(func.ms_level > 0);
                assert(tail[j - prefix.len()].function == func.function);
                assert(func.function == functions.len() - 1);
            }
        }
        assert forall|i: int, j: int| 0 <= i < j < en.len()
            implies !((#[trigger] en[i]).function == (#[trigger] en[j]).function
                && en[i].block == en[j].block) by {
            if j < prefix.len() {
                assert(en[i] == prefix[i]);
                assert(en[j] == prefix[j]);
            } else if i >= prefix.len() {
                assert(en[i] == tail[i - prefix.len()]);
                assert(en[j] == tail[j - prefix.len()]);
                assert(en[i].block == i - prefix.len());
                assert(en[j].block == j - prefix.len());
            } else {
                // the prefix entry belongs to an earlier function
                assert(en[i] == prefix[i]);
                assert(en[j] == tail[j - prefix.len()]);
                assert(spec_entry_of_catalog(prefix[i], prefix_fns));
                assert((prefix[i].function as int) < prefix_fns.len());
                assert(en[j].function == functions.len() - 1);
            }
        }
    }
}

/// Every element of a permutation is a catalog entry when every element
/// of the original is.
proof fn lemma_perm_catalog(s: Seq<CycleIndexEntry>, t: Seq<CycleIndexEntry>, functions: Seq<ScanFunction>)
    requires
        t.to_multiset() == s.to_multiset(),
        forall|i: int| 0 <= i < s.len() ==> spec_entry_of_catalog(#[trigger] s[i], functions),
    ensures
        forall|j: int| 0 <= j < t.len() ==> spec_entry_of_catalog(#[trigger] t[j], functions),
{
    broadcast use vstd::seq_lib::group_to_multiset_ensures;
    assert forall|j: int| 0 <= j < t.len() implies spec_entry_of_catalog(#[trigger] t[j], functions) by {
        assert(t.contains(t[j]));
        assert(t.to_multiset().count(t[j]) > 0);
        assert(s.contains(t[j]));
        let i = choose|i: int| 0 <= i < s.len() && s[i] == t[j];
        assert(spec_entry_of_catalog(s[i], functions));
    }
}

/// A permutation keeps (function, scan) pairs pairwise distinct.
proof fn lemma_perm_fb_distinct(s: Seq<CycleIndexEntry>, t: Seq<CycleIndexEntry>)
    requires
        t.to_multiset() == s.to_multiset(),
        spec_entry_fb_distinct(s),
    ensures
        spec_entry_fb_distinct(t),
{
    broadcast use vstd::seq_lib::group_to_multiset_ensures;
    assert forall|i: int, j: int| 0 <= i < j < t.len()
        implies !((#[trigger] t[i]).function == (#[trigger] t[j]).function
            && t[i].block == t[j].block) by {
        if t[i].function == t[j].function && t[i].block == t[j].block {
            if t[i] == t[j] {
                // the same entry twice means its count is at least two, so
                // the original holds it twice as well
                let t2 = t.remove(i);
                assert(t2.to_multiset() == t.to_multiset().remove(t[i]));
                assert(t2[j - 1] == t[j]);
                assert(t2.contains(t[i]));
                assert(t2.to_multiset().count(t[i]) > 0);
                assert(t.to_multiset().count(t[i]) >= 2);
                assert(s.to_multiset().count(t[i]) >= 2);
                assert(s.contains(t[i]));
                let a = choose|a: int| 0 <= a < s.len() && s[a] == t[i];
                let s2 = s.remove(a);
                assert(s2.to_multiset() == s.to_multiset().remove(s[a]));
                assert(s2.to_multiset().count(t[i]) >= 1);
                assert(s2.contains(t[i]));
                let b2 = choose|b2: int| 0 <= b2 < s2.len() && s2[b2] == t[i];
                let b = if b2 < a { b2 } else { b2 + 1 };
                assert(s[b] == s2[b2]);
                assert(b != a);
                assert(s[a].function == s[b].function && s[a].block == s[b].block);
                if a < b {
                    assert(!(s[a].function == s[b].function && s[a].block == s[b].block));
                } else {
                    assert(!(s[b].function == s[a].function && s[b].block == s[a].block));
                }
            } else {
                assert(t.contains(t[i]));
                assert(t.contains(t[j]));
                assert(t.to_multiset().count(t[i]) > 0);
                assert(t.to_multiset().count(t[j]) > 0);
                assert(s.contains(t[i]));
                assert(s.contains(t[j]));
                let a = choose|a: int| 0 <= a < s.len() && s[a] == t[i];
                let b = choose|b: int| 0 <= b < s.len() && s[b] == t[j];
                assert(a != b);
                if a < b {
                    assert(!(s[a].function == s[b].function && s[a].block == s[b].block));
                } else {
                    assert(!(s[b].function == s[a].function && s[b].block == s[a].block));
                }
            }
        }
    }
}

/// A function whose classified role maps to level zero contributes no
/// entry to the cycle index; every entry belongs to a spectrometric
/// function, carries its drift block size and one of its scans, no two
/// entries share a (function, scan) pair, each entry is stamped with its
/// position, and the index is exactly as long as the catalog demands.
pub proof fn lemma_cycle_index_entries(functions: Seq<ScanFunction>, info: &MassLynxInfoReader)
    requires
        forall|k: int| 0 <= k < functions.len() ==> (#[trigger] functions[k]).function == k,
        spec_total_cycles(functions) <= usize::MAX,
    ensures
        ({
            let ci = spec_cycle_index(functions, info);
            &&& forall|j: int| 0 <= j < ci.len()
                ==> spec_entry_of_catalog(#[trigger] ci[j], functions)
            &&& forall|j: int| 0 <= j < ci.len() ==> (#[trigger] ci[j]).index == j
            &&& spec_entry_fb_distinct(ci)
            &&& ci.len() == spec_total_cycles(functions)
        }),
{
    let en = spec_enumerate_cycles(functions, info);
    let sorted = sort_entries(en);
    let ci = spec_cycle_index(functions, info);
    lemma_enumerate_entries(functions, info);
    lemma_sort_entries_ensures(en);
    lemma_perm_catalog(en, sorted, functions);
    lemma_perm_fb_distinct(en, sorted);
    assert(ci.len() == sorted.len() == en.len());
    assert(ci.len() <= usize::MAX);
    assert forall|j: int| 0 <= j < ci.len()
        implies spec_entry_of_catalog(#[trigger] ci[j], functions) && ci[j].index == j by {
        assert(ci[j] == spec_with_position(sorted[j], j));
        assert(spec_entry_of_catalog(sorted[j], functions));
        assert(ci[j].function == sorted[j].function);
        assert(ci[j].block == sorted[j].block);
        assert(ci[j].im_block_size == sorted[j].im_block_size);
    }
    assert forall|i: int, j: int| 0 <= i < j < ci.len()
        implies !((#[trigger] ci[i]).function == (#[trigger] ci[j]).function
            && ci[i].block == ci[j].block) by {
        assert(ci[i] == spec_with_position(sorted[i], i));
        assert(ci[j] == spec_with_position(sorted[j], j));
    }
    broadcast use vstd::seq_lib::group_to_multiset_ensures;
    assert(sorted.len() == en.len());
}

/// Dropping a shared leading text keeps equality.
proof fn lemma_strip_prefix(p: Seq<char>, x: Seq<char>, y: Seq<char>)
    requires
        p + x == p + y,
    ensures
        x == y,
{
    assert((p + x).len() == p.len() + x.len());
    assert((p + y).len() == p.len() + y.len());
    assert(x.len() == y.len());
    assert forall|i: int| 0 <= i < x.len() implies x[i] == y[i] by {
        assert((p + x)[p.len() + i] == x[i]);
        assert((p + y)[p.len() + i] == y[i]);
    }
    assert(x =~= y);
}

/// The text a spectrum identifier carries after its scan ordinal: empty,
/// or the drift marker and the 1-based drift bin.
pub open spec fn spec_spectrum_id_tail(e: SpectrumIndexEntry) -> Seq<char> {
    match e.drift_index {
        Some(d) => crate::reader::id_drift_part() + dec_spec(d as nat + 1),
        None => Seq::empty(),
    }
}

/// Reassociating a five-part concatenation.
proof fn lemma_reassoc(p: Seq<char>, a: Seq<char>, m: Seq<char>, b: Seq<char>, t: Seq<char>)
    ensures
        (((p + a) + m) + b) + t == p + (a + (m + (b + t))),
{
    assert((((p + a) + m) + b) + t =~= p + (a + (m + (b + t))));
}

/// Reassociating a four-part concatenation.
proof fn lemma_reassoc4(p: Seq<char>, a: Seq<char>, m: Seq<char>, b: Seq<char>)
    ensures
        ((p + a) + m) + b == p + (a + (m + b)),
{
    assert(((p + a) + m) + b =~= p + (a + (m + b)));
}

/// Reassociating a six-part concatenation.
proof fn lemma_reassoc6(p: Seq<char>, a: Seq<char>, m: Seq<char>, c: Seq<char>, e: Seq<char>, d: Seq<char>)
    ensures
        ((((p + a) + m) + c) + e) + d == p + (a + (m + (c + (e + d)))),
{
    assert(((((p + a) + m) + c) + e) + d =~= p + (a + (m + (c + (e + d)))));
}

/// Equal identifiers agree on the function ordinal and on everything after
/// the scan separator.
#[verifier::rlimit(60)]
proof fn lemma_native_id_common_prefix(e1: SpectrumIndexEntry, e2: SpectrumIndexEntry)
    requires
        e1.spec_native_id() == e2.spec_native_id(),
    ensures
        e1.function == e2.function,
        dec_spec(e1.cycle as nat + 1) + spec_spectrum_id_tail(e1)
            == dec_spec(e2.cycle as nat + 1) + spec_spectrum_id_tail(e2),
{
    let fp = id_function_part();
    let sp = id_scan_part();
    let a1 = dec_spec(e1.function as nat + 1);
    let a2 = dec_spec(e2.function as nat + 1);
    let b1 = dec_spec(e1.cycle as nat + 1);
    let b2 = dec_spec(e2.cycle as nat + 1);
    let t1 = spec_spectrum_id_tail(e1);
    let t2 = spec_spectrum_id_tail(e2);
    assert(e1.spec_native_id() == (((fp + a1) + sp) + b1) + t1) by {
        if e1.drift_index is None {
            assert((((fp + a1) + sp) + b1) + t1 =~= ((fp + a1) + sp) + b1);
        }
    }
    assert(e2.spec_native_id() == (((fp + a2) + sp) + b2) + t2) by {
        if e2.drift_index is None {
            assert((((fp + a2) + sp) + b2) + t2 =~= ((fp + a2) + sp) + b2);
        }
    }
    lemma_reassoc(fp, a1, sp, b1, t1);
    lemma_reassoc(fp, a2, sp, b2, t2);
    lemma_strip_prefix(fp, a1 + (sp + (b1 + t1)), a2 + (sp + (b2 + t2)));
    lemma_dec_spec_digits(e1.function as nat + 1);
    lemma_dec_spec_digits(e2.function as nat + 1);
    assert((sp + (b1 + t1))[0] == ' ' && !is_digit_char((sp + (b1 + t1))[0]));
    assert((sp + (b2 + t2))[0] == ' ' && !is_digit_char((sp + (b2 + t2))[0]));
    lemma_digit_prefix_determined(a1, sp + (b1 + t1), a2, sp + (b2 + t2));
    lemma_dec_spec_injective(e1.function as nat + 1, e2.function as nat + 1);
    lemma_strip_prefix(sp, b1 + t1, b2 + t2);
}

/// Equal spectrum native identifiers name equal entries: the identifier
/// carries the whole (function, cycle, drift) tuple.
#[verifier::rlimit(60)]
pub proof fn lemma_spectrum_native_id_injective(e1: SpectrumIndexEntry, e2: SpectrumIndexEntry)
    requires
        e1.spec_native_id() == e2.spec_native_id(),
    ensures
        e1 == e2,
{
    let dp = crate::reader::id_drift_part();
    let b1 = dec_spec(e1.cycle as nat + 1);
    let b2 = dec_spec(e2.cycle as nat + 1);
    let t1 = spec_spectrum_id_tail(e1);
    let t2 = spec_spectrum_id_tail(e2);
    lemma_native_id_common_prefix(e1, e2);
    assert(e1.function == e2.function);
    lemma_dec_spec_digits(e1.cycle as nat + 1);
    lemma_dec_spec_digits(e2.cycle as nat + 1);
    match (e1.drift_index, e2.drift_index) {
        (None, None) => {
            assert(b1 + t1 =~= b1);
            assert(b2 + t2 =~= b2);
            lemma_dec_spec_injective(e1.cycle as nat + 1, e2.cycle as nat + 1);
            assert(e1.cycle == e2.cycle);
        }
        (None, Some(_)) => {
            // an all-digit text cannot equal one holding the drift marker
            assert(b1 + t1 =~= b1);
            assert((b2 + t2)[b2.len() as int] == t2[0]);
            assert(t2[0] == ' ');
            assert(b1.len() == b2.len() + t2.len());
            assert(t2.len() >= 1);
            assert(is_digit_char(b1[b2.len() as int]));
            assert(false);
        }
        (Some(_), None) => {
            assert(b2 + t2 =~= b2);
            assert((b1 + t1)[b1.len() as int] == t1[0]);
            assert(t1[0] == ' ');
            assert(b2.len() == b1.len() + t1.len());
            assert(t1.len() >= 1);
            assert(is_digit_char(b2[b1.len() as int]));
            assert(false);
        }
        (Some(d1), Some(d2)) => {
            assert(t1[0] == ' ' && !is_digit_char(t1[0]));
            assert(t2[0] == ' ' && !is_digit_char(t2[0]));
            lemma_digit_prefix_determined(b1, t1, b2, t2);
            lemma_dec_spec_injective(e1.cycle as nat + 1, e2.cycle as nat + 1);
            assert(e1.cycle == e2.cycle);
            lemma_strip_prefix(dp, dec_spec(d1 as nat + 1), dec_spec(d2 as nat + 1));
            lemma_dec_spec_injective(d1 as nat + 1, d2 as nat + 1);
            assert(d1 == d2);
        }
    }
}

/// Every spectrum entry of the expansion originates in one of the cycles.
pub open spec fn spec_spectrum_originates(e: SpectrumIndexEntry, ci: Seq<CycleIndexEntry>) -> bool {
    exists|i: int| 0 <= i < ci.len()
        && e.function == (#[trigger] ci[i]).function
        && e.cycle == ci[i].block
        && (if ci[i].im_block_size > 0 {
            exists|d: int| 0 <= d < ci[i].im_block_size && e.drift_index == Some(#[trigger] (d as u32))
        } else {
            e.drift_index is None
        })
}

/// Every spectrum index entry's native identifier is unique across the
/// run: the expanded entries are pairwise distinct, and the identifier
/// determines the entry.  The one bound asked of the run is that each
/// drift block fits the drift ordinal's 32-bit width.
pub proof fn lemma_spectrum_ids_unique(ci: Seq<CycleIndexEntry>)
    requires
        spec_entry_fb_distinct(ci),
        forall|i: int| 0 <= i < ci.len() ==> (#[trigger] ci[i]).im_block_size <= u32::MAX,
    ensures
        ({
            let si = spec_flatten_cycles(ci);
            &&& forall|p: int| 0 <= p < si.len()
                ==> spec_spectrum_originates(#[trigger] si[p], ci)
            &&& forall|p: int, q: int| 0 <= p < q < si.len()
                ==> (#[trigger] si[p]).spec_native_id() != (#[trigger] si[q]).spec_native_id()
        }),
    decreases ci.len(),
{
    let si = spec_flatten_cycles(ci);
    if ci.len() == 0 {
    } else {
        let prefix_ci = ci.drop_last();
        assert forall|i: int, j: int| 0 <= i < j < prefix_ci.len()
            implies !((#[trigger] prefix_ci[i]).function == (#[trigger] prefix_ci[j]).function
                && prefix_ci[i].block == prefix_ci[j].block) by {
            assert(prefix_ci[i] == ci[i]);
            assert(prefix_ci[j] == ci[j]);
        }
        assert forall|i: int| 0 <= i < prefix_ci.len()
            implies (#[trigger] prefix_ci[i]).im_block_size <= u32::MAX by {
            assert(prefix_ci[i] == ci[i]);
        }
        lemma_spectrum_ids_unique(prefix_ci);
        let prefix = spec_flatten_cycles(prefix_ci);
        let last = ci.last();
        let tail = crate::reader::spec_cycle_spectra(last);
        assert(si == prefix + tail);
        // every entry still originates in a cycle
        assert forall|p: int| 0 <= p < si.len()
            implies spec_spectrum_originates(#[trigger] si[p], ci) by {
            if p < prefix.len() {
                assert(si[p] == prefix[p]);
                assert(spec_spectrum_originates(prefix[p], prefix_ci));
                let i = choose|i: int| 0 <= i < prefix_ci.len()
                    && prefix[p].function == prefix_ci[i].function
                    && prefix[p].cycle == prefix_ci[i].block
                    && (if prefix_ci[i].im_block_size > 0 {
                        exists|d: int| 0 <= d < prefix_ci[i].im_block_size
                            && prefix[p].drift_index == Some(#[trigger] (d as u32))
                    } else {
                        prefix[p].drift_index is None
                    });
                assert(ci[i] == prefix_ci[i]);
            } else {
                assert(si[p] == tail[p - prefix.len()]);
                let o = p - prefix.len();
                if last.im_block_size > 0 {
                    assert(tail[o].drift_index == Some(o as u32));
                    assert(ci[ci.len() - 1] == last);
                } else {
                    assert(ci[ci.len() - 1] == last);
                }
            }
        }
        // and identifiers stay pairwise distinct, because the expanded
        // entries are pairwise distinct and the identifier is injective
        assert forall|p: int, q: int| 0 <= p < q < si.len()
            implies (#[trigger] si[p]).spec_native_id() != (#[trigger] si[q]).spec_native_id() by {
            if q < prefix.len() {
                assert(si[p] == prefix[p]);
                assert(si[q] == prefix[q]);
            } else if p >= prefix.len() {
                // both expanded from the last cycle: the drift ordinals
                // differ, and both fit the ordinal's width
                let op = p - prefix.len();
                let oq = q - prefix.len();
                assert(last.im_block_size > 0);
                assert(si[p] == tail[op]);
                assert(si[q] == tail[oq]);
                assert(si[p].drift_index == Some(op as u32));
                assert(si[q].drift_index == Some(oq as u32));
                if si[p].spec_native_id() == si[q].spec_native_id() {
                    lemma_spectrum_native_id_injective(si[p], si[q]);
                    assert((op as u32) as nat == op);
                    assert((oq as u32) as nat == oq);
                    assert(false);
                }
            } else {
                // one from an earlier cycle, one from the last: their
                // (function, cycle) pairs differ
                let oq = q - prefix.len();
                assert(si[p] == prefix[p]);
                assert(si[q] == tail[oq]);
                assert(spec_spectrum_originates(prefix[p], prefix_ci));
                let i = choose|i: int| 0 <= i < prefix_ci.len()
                    && prefix[p].function == prefix_ci[i].function
                    && prefix[p].cycle == prefix_ci[i].block
                    && (if prefix_ci[i].im_block_size > 0 {
                        exists|d: int| 0 <= d < prefix_ci[i].im_block_size
                            && prefix[p].drift_index == Some(#[trigger] (d as u32))
                    } else {
                        prefix[p].drift_index is None
                    });
                if si[p].spec_native_id() == si[q].spec_native_id() {
                    lemma_spectrum_native_id_injective(si[p], si[q]);
                    assert(si[p].function == si[q].function);
                    assert(si[p].cycle == si[q].cycle);
                    assert(ci[i] == prefix_ci[i]);
                    assert(ci[i].function == last.function);
                    assert(ci[i].block == last.block);
                    assert(false);
                }
            }
        }
    }
}

/// Equal cycle native identifiers name the same function and global
/// position, and agree on ion-mobility structure: a single-scan identifier
/// and a drift-range identifier never collide, a single-scan identifier
/// pins the position, and a drift-range identifier pins the block size and
/// the position.
#[verifier::rlimit(60)]
pub proof fn lemma_cycle_native_id_injective(e1: CycleIndexEntry, e2: CycleIndexEntry)
    requires
        e1.spec_native_id() == e2.spec_native_id(),
    ensures
        e1.function == e2.function,
        e1.index == e2.index,
        (e1.im_block_size > 0) == (e2.im_block_size > 0),
        e1.im_block_size > 0 ==> e1.im_block_size == e2.im_block_size,
{
    let fp = id_function_part();
    let sp = id_scan_part();
    let stp = crate::reader::id_start_scan_part();
    let ep = crate::reader::id_end_scan_part();
    let a1 = dec_spec(e1.function as nat + 1);
    let a2 = dec_spec(e2.function as nat + 1);
    let u1 = if e1.im_block_size > 0 {
        stp + (dec_spec((e1.im_block_size * e1.index) as nat)
            + (ep + dec_spec((e1.im_block_size * e1.index + e1.im_block_size) as nat)))
    } else {
        sp + dec_spec(e1.index as nat + 1)
    };
    let u2 = if e2.im_block_size > 0 {
        stp + (dec_spec((e2.im_block_size * e2.index) as nat)
            + (ep + dec_spec((e2.im_block_size * e2.index + e2.im_block_size) as nat)))
    } else {
        sp + dec_spec(e2.index as nat + 1)
    };
    assert(e1.spec_native_id() == fp + (a1 + u1)) by {
        if e1.im_block_size > 0 {
            lemma_reassoc6(fp, a1, stp,
                dec_spec((e1.im_block_size * e1.index) as nat), ep,
                dec_spec((e1.im_block_size * e1.index + e1.im_block_size) as nat));
        } else {
            lemma_reassoc4(fp, a1, sp, dec_spec(e1.index as nat + 1));
        }
    }
    assert(e2.spec_native_id() == fp + (a2 + u2)) by {
        if e2.im_block_size > 0 {
            lemma_reassoc6(fp, a2, stp,
                dec_spec((e2.im_block_size * e2.index) as nat), ep,
                dec_spec((e2.im_block_size * e2.index + e2.im_block_size) as nat));
        } else {
            lemma_reassoc4(fp, a2, sp, dec_spec(e2.index as nat + 1));
        }
    }
    lemma_strip_prefix(fp, a1 + u1, a2 + u2);
    lemma_dec_spec_digits(e1.function as nat + 1);
    lemma_dec_spec_digits(e2.function as nat + 1);
    assert(u1[0] == ' ' && !is_digit_char(u1[0]));
    assert(u2[0] == ' ' && !is_digit_char(u2[0]));
    lemma_digit_prefix_determined(a1, u1, a2, u2);
    lemma_dec_spec_injective(e1.function as nat + 1, e2.function as nat + 1);
    assert(e1.function == e2.function);
    if e1.im_block_size > 0 && e2.im_block_size > 0 {
        let c1 = dec_spec((e1.im_block_size * e1.index) as nat);
        let c2 = dec_spec((e2.im_block_size * e2.index) as nat);
        let d1 = dec_spec((e1.im_block_size * e1.index + e1.im_block_size) as nat);
        let d2 = dec_spec((e2.im_block_size * e2.index + e2.im_block_size) as nat);
        lemma_strip_prefix(stp, c1 + (ep + d1), c2 + (ep + d2));
        lemma_dec_spec_digits((e1.im_block_size * e1.index) as nat);
        lemma_dec_spec_digits((e2.im_block_size * e2.index) as nat);
        assert((ep + d1)[0] == ' ' && !is_digit_char((ep + d1)[0]));
        assert((ep + d2)[0] == ' ' && !is_digit_char((ep + d2)[0]));
        lemma_digit_prefix_determined(c1, ep + d1, c2, ep + d2);
        lemma_dec_spec_injective(
            (e1.im_block_size * e1.index) as nat,
            (e2.im_block_size * e2.index) as nat,
        );
        lemma_strip_prefix(ep, d1, d2);
        lemma_dec_spec_injective(
            (e1.im_block_size * e1.index + e1.im_block_size) as nat,
            (e2.im_block_size * e2.index + e2.im_block_size) as nat,
        );
        // the range start pins the product, the range end then pins the
        // block size, and a positive block cancels out of the product
        assert(e1.im_block_size * e1.index == e2.im_block_size * e2.index);
        assert(e1.im_block_size == e2.im_block_size);
        assert(e1.index == e2.index) by (nonlinear_arith)
            requires
                e1.im_block_size == e2.im_block_size,
                e1.im_block_size * e1.index == e2.im_block_size * e2.index,
                e1.im_block_size >= 1;
    } else if e1.im_block_size == 0 && e2.im_block_size == 0 {
        lemma_strip_prefix(sp, dec_spec(e1.index as nat + 1), dec_spec(e2.index as nat + 1));
        lemma_dec_spec_injective(e1.index as nat + 1, e2.index as nat + 1);
        assert(e1.index == e2.index);
    } else {
        // the two identifier shapes disagree on one fixed character
        assert(sp[12] == 'c');
        assert(stp[12] == 't');
        if e1.im_block_size > 0 {
            assert(u1[12] == stp[12]);
            assert(u2[12] == sp[12]);
        } else {
            assert(u1[12] == sp[12]);
            assert(u2[12] == stp[12]);
        }
        assert(false);
    }
}

/// Cycle native identifiers are unique across a built index: each embeds
/// its entry's global position.
pub proof fn lemma_cycle_ids_unique(ci: Seq<CycleIndexEntry>)
    requires
        forall|j: int| 0 <= j < ci.len() ==> (#[trigger] ci[j]).index == j,
    ensures
        forall|p: int, q: int| 0 <= p < q < ci.len()
            ==> (#[trigger] ci[p]).spec_native_id() != (#[trigger] ci[q]).spec_native_id(),
{
    assert forall|p: int, q: int| 0 <= p < q < ci.len()
        implies (#[trigger] ci[p]).spec_native_id() != (#[trigger] ci[q]).spec_native_id() by {
        if ci[p].spec_native_id() == ci[q].spec_native_id() {
            lemma_cycle_native_id_injective(ci[p], ci[q]);
            assert(ci[p].index == ci[q].index);
        }
    }
}

/// Retrieval of a cycle by native identifier agrees with retrieval by
/// global position: looking up the identifier built from an entry of a
/// built index recovers that entry's position, unconditionally.
pub proof fn lemma_cycle_native_id_round_trip(functions: Seq<ScanFunction>, info: &MassLynxInfoReader, i: int)
    requires
        forall|k: int| 0 <= k < functions.len() ==> (#[trigger] functions[k]).function == k,
        spec_total_cycles(functions) <= usize::MAX,
        0 <= i < spec_cycle_index(functions, info).len(),
    ensures
        ({
            let ci = spec_cycle_index(functions, info);
            crate::reader::spec_cycle_position_of_id(ci, ci[i].spec_native_id()) == Some(i)
        }),
{
    let ci = spec_cycle_index(functions, info);
    lemma_cycle_index_entries(functions, info);
    lemma_cycle_ids_unique(ci);
    assert forall|j: int| 0 <= j < i
        implies (#[trigger] ci[j]).spec_native_id() != ci[i].spec_native_id() by {
    }
    crate::reader::lemma_cycle_position_of_id_at(ci, ci[i].spec_native_id(), i);
}

/// Every entry of the expansion originates in one of the cycles, with the
/// cycle's function and scan and a drift ordinal inside its block.
pub proof fn lemma_flatten_originates(ci: Seq<CycleIndexEntry>)
    ensures
        forall|p: int| 0 <= p < spec_flatten_cycles(ci).len()
            ==> spec_spectrum_originates(#[trigger] spec_flatten_cycles(ci)[p], ci),
    decreases ci.len(),
{
    let si = spec_flatten_cycles(ci);
    if ci.len() == 0 {
    } else {
        let prefix_ci = ci.drop_last();
        lemma_flatten_originates(prefix_ci);
        let prefix = spec_flatten_cycles(prefix_ci);
        let last = ci.last();
        let tail = crate::reader::spec_cycle_spectra(last);
        assert(si == prefix + tail);
        assert forall|p: int| 0 <= p < si.len()
            implies spec_spectrum_originates(#[trigger] si[p], ci) by {
            if p < prefix.len() {
                assert(si[p] == prefix[p]);
                assert(spec_spectrum_originates(prefix[p], prefix_ci));
                let i = choose|i: int| 0 <= i < prefix_ci.len()
                    && prefix[p].function == prefix_ci[i].function
                    && prefix[p].cycle == prefix_ci[i].block
                    && (if prefix_ci[i].im_block_size > 0 {
                        exists|d: int| 0 <= d < prefix_ci[i].im_block_size
                            && prefix[p].drift_index == Some(#[trigger] (d as u32))
                    } else {
                        prefix[p].drift_index is None
                    });
                assert(ci[i] == prefix_ci[i]);
            } else {
                assert(si[p] == tail[p - prefix.len()]);
                let o = p - prefix.len();
                if last.im_block_size > 0 {
                    assert(tail[o].drift_index == Some(o as u32));
                    assert(ci[ci.len() - 1] == last);
                } else {
                    assert(ci[ci.len() - 1] == last);
                }
            }
        }
    }
}

/// After a run is opened, every spectrum index entry's ordinals leave room
/// for the 1-based rendering in its native identifier, so identifier
/// lookup applies to the whole index.
pub proof fn lemma_spectrum_entries_bounded(functions: Seq<ScanFunction>, info: &MassLynxInfoReader)
    requires
        forall|k: int| 0 <= k < functions.len() ==> (#[trigger] functions[k]).function == k,
        functions.len() <= usize::MAX,
        spec_total_cycles(functions) <= usize::MAX,
    ensures
        ({
            let si = spec_flatten_cycles(spec_cycle_index(functions, info));
            forall|p: int| 0 <= p < si.len()
                ==> (#[trigger] si[p]).function < usize::MAX
                    && si[p].cycle < usize::MAX
        }),
{
    let ci = spec_cycle_index(functions, info);
    let si = spec_flatten_cycles(ci);
    lemma_cycle_index_entries(functions, info);
    lemma_flatten_originates(ci);
    assert forall|p: int| 0 <= p < si.len()
        implies (#[trigger] si[p]).function < usize::MAX
            && si[p].cycle < usize::MAX by {
        let i = choose|i: int| 0 <= i < ci.len()
            && si[p].function == ci[i].function
            && si[p].cycle == ci[i].block
            && (if ci[i].im_block_size > 0 {
                exists|d: int| 0 <= d < ci[i].im_block_size
                    && si[p].drift_index == Some(#[trigger] (d as u32))
            } else {
                si[p].drift_index is None
            });
        assert(spec_entry_of_catalog(ci[i], functions));
        assert((ci[i].function as int) < functions.len());
        assert((ci[i].block as int) < functions[ci[i].function as int].scan_count);
    }
}

/// The whole of retrieval agreement for an opened run: under the same
/// conditions that make identifiers unique, looking up the identifier of
/// any spectrum index entry recovers exactly its position.
pub proof fn lemma_run_native_id_round_trip(functions: Seq<ScanFunction>, info: &MassLynxInfoReader, i: int)
    requires
        forall|k: int| 0 <= k < functions.len() ==> (#[trigger] functions[k]).function == k,
        spec_total_cycles(functions) <= usize::MAX,
        forall|j: int| 0 <= j < spec_cycle_index(functions, info).len()
            ==> (#[trigger] spec_cycle_index(functions, info)[j]).im_block_size <= u32::MAX,
        0 <= i < spec_flatten_cycles(spec_cycle_index(functions, info)).len(),
    ensures
        ({
            let si = spec_flatten_cycles(spec_cycle_index(functions, info));
            spec_position_of_id(si, si[i].spec_native_id()) == Some(i)
        }),
{
    let ci = spec_cycle_index(functions, info);
    let si = spec_flatten_cycles(ci);
    lemma_cycle_index_entries(functions, info);
    lemma_spectrum_ids_unique(ci);
    lemma_native_id_round_trip(si, i);
}

/// Enumeration reads only the fields the catalog pins, so catalogs that
/// agree on them contribute the same cycles.
proof fn lemma_enumerate_congruent(f1: Seq<ScanFunction>, f2: Seq<ScanFunction>, info: &MassLynxInfoReader)
    requires
        f1.len() == f2.len(),
        forall|k: int| 0 <= k < f1.len()
            ==> (#[trigger] f1[k]).function == f2[k].function
                && f1[k].ms_level == f2[k].ms_level
                && f1[k].scan_count == f2[k].scan_count
                && f1[k].ion_mobility_block_size == f2[k].ion_mobility_block_size,
    ensures
        spec_enumerate_cycles(f1, info) == spec_enumerate_cycles(f2, info),
    decreases f1.len(),
{
    if f1.len() > 0 {
        let p1 = f1.drop_last();
        let p2 = f2.drop_last();
        assert forall|k: int| 0 <= k < p1.len()
            implies (#[trigger] p1[k]).function == p2[k].function
                && p1[k].ms_level == p2[k].ms_level
                && p1[k].scan_count == p2[k].scan_count
                && p1[k].ion_mobility_block_size == p2[k].ion_mobility_block_size by {
            assert(p1[k] == f1[k]);
            assert(p2[k] == f2[k]);
        }
        lemma_enumerate_congruent(p1, p2, info);
        let l1 = f1.last();
        let l2 = f2.last();
        assert(l1.function == l2.function && l1.ms_level == l2.ms_level
            && l1.scan_count == l2.scan_count
            && l1.ion_mobility_block_size == l2.ion_mobility_block_size);
        if l1.ms_level > 0 {
            let times = info.functions@[l1.function as int].retention_times@;
            assert(spec_function_cycles(l1, times) =~= spec_function_cycles(l2, times));
        }
        assert(spec_enumerate_cycles(f1, info) =~= spec_enumerate_cycles(f2, info));
    }
}

/// Opening the same run twice yields the same observations: two readers
/// opened over the same metadata model and path registry agree, field for
/// field, on the catalog, on both indexes, and on the initial retrieval
/// options.
pub proof fn lemma_open_deterministic(
    r1: &MassLynxReader,
    r2: &MassLynxReader,
    info: &MassLynxInfoReader,
    path: &crate::paths::RawPaths,
)
    requires
        crate::reader::spec_catalog_described(r1.functions@, info, path),
        crate::reader::spec_catalog_described(r2.functions@, info, path),
        r1.cycle_index@ == spec_cycle_index(r1.functions@, info),
        r2.cycle_index@ == spec_cycle_index(r2.functions@, info),
        r1.spectrum_index@ == spec_flatten_cycles(r1.cycle_index@),
        r2.spectrum_index@ == spec_flatten_cycles(r2.cycle_index@),
        r1.scan_reading_options.skip_lockmass && r1.scan_reading_options.load_signal,
        r2.scan_reading_options.skip_lockmass && r2.scan_reading_options.load_signal,
    ensures
        r1.functions@.len() == r2.functions@.len(),
        forall|f: int| 0 <= f < r1.functions@.len()
            ==> (#[trigger] r1.functions@[f]).function == r2.functions@[f].function
                && r1.functions@[f].ftype == r2.functions@[f].ftype
                && r1.functions@[f].ms_level == r2.functions@[f].ms_level
                && r1.functions@[f].is_lockmass == r2.functions@[f].is_lockmass
                && r1.functions@[f].ion_mobility_block_size == r2.functions@[f].ion_mobility_block_size
                && r1.functions@[f].scan_count == r2.functions@[f].scan_count
                && r1.functions@[f].scan_items@ == r2.functions@[f].scan_items@,
        r1.cycle_index@ == r2.cycle_index@,
        r1.spectrum_index@ == r2.spectrum_index@,
        r1.scan_reading_options == r2.scan_reading_options,
{
    assert forall|f: int| 0 <= f < r1.functions@.len()
        implies (#[trigger] r1.functions@[f]).function == r2.functions@[f].function
            && r1.functions@[f].ftype == r2.functions@[f].ftype
            && r1.functions@[f].ms_level == r2.functions@[f].ms_level
            && r1.functions@[f].is_lockmass == r2.functions@[f].is_lockmass
            && r1.functions@[f].ion_mobility_block_size == r2.functions@[f].ion_mobility_block_size
            && r1.functions@[f].scan_count == r2.functions@[f].scan_count
            && r1.functions@[f].scan_items@ == r2.functions@[f].scan_items@ by {
        assert(crate::reader::spec_function_described(r1.functions@[f], info, path, f));
        assert(crate::reader::spec_function_described(r2.functions@[f], info, path, f));
    }
    lemma_enumerate_congruent(r1.functions@, r2.functions@, info);
}

/// Retrieval by native identifier agrees with retrieval by global index:
/// looking up the identifier built from an entry recovers that entry's
/// position, whenever identifiers are pairwise unique.
pub proof fn lemma_native_id_round_trip(si: Seq<SpectrumIndexEntry>, i: int)
    requires
        0 <= i < si.len(),
        forall|p: int, q: int| 0 <= p < q < si.len()
            ==> (#[trigger] si[p]).spec_native_id() != (#[trigger] si[q]).spec_native_id(),
    ensures
        spec_position_of_id(si, si[i].spec_native_id()) == Some(i),
{
    assert forall|j: int| 0 <= j < i
        implies (#[trigger] si[j]).spec_native_id() != si[i].spec_native_id() by {
    }
    lemma_position_of_id_at(si, si[i].spec_native_id(), i);
}

/// Disabling signal loading empties a spectrum's signal arrays and changes
/// nothing else: a reader differing only in that option assembles the same
/// spectrum with empty arrays, whenever the loading reader assembles one.
pub proof fn lemma_signal_loading_spectrum(on: &MassLynxReader, off: &MassLynxReader, index: int)
    requires
        off.info_reader == on.info_reader,
        off.scan_reader == on.scan_reader,
        off.functions == on.functions,
        off.spectrum_index == on.spectrum_index,
        !off.scan_reading_options.load_signal,
    ensures
        off.spec_spectrum_at(index) matches Some(v2)
            ==> v2.mz_array == Seq::<u32>::empty() && v2.intensity_array == Seq::<u32>::empty(),
        on.spec_spectrum_at(index) matches Some(v1)
            ==> (off.spec_spectrum_at(index) matches Some(v2)
                && v2.time == v1.time
                && v2.identifier == v1.identifier
                && v2.index == v1.index
                && v2.drift_time == v1.drift_time
                && v2.ion_mode == v1.ion_mode
                && v2.is_continuum == v1.is_continuum
                && v2.items == v1.items),
{
}

/// Disabling signal loading empties a cycle's drift-scan list and changes
/// nothing else.
pub proof fn lemma_signal_loading_cycle(on: &MassLynxReader, off: &MassLynxReader, index: int)
    requires
        off.info_reader == on.info_reader,
        off.scan_reader == on.scan_reader,
        off.functions == on.functions,
        off.cycle_index == on.cycle_index,
        off.scan_reading_options.skip_lockmass == on.scan_reading_options.skip_lockmass,
        !off.scan_reading_options.load_signal,
    ensures
        off.spec_cycle_at(index) matches Some(v2) ==> v2.signal == Seq::<crate::reader::DriftScanView>::empty(),
        on.spec_cycle_at(index) matches Some(v1)
            ==> (off.spec_cycle_at(index) matches Some(v2)
                && v2.time == v1.time
                && v2.identifier == v1.identifier
                && v2.index == v1.index
                && v2.ion_mode == v1.ion_mode
                && v2.is_continuum == v1.is_continuum
                && v2.items == v1.items),
{
}

/// With lock-mass skipping enabled, a position owned by the designated
/// lock-mass function is not found.
pub proof fn lemma_lockmass_skip_hides(r: &MassLynxReader, index: int)
    requires
        0 <= index < r.cycle_index@.len(),
        r.scan_reading_options.skip_lockmass,
        (r.cycle_index@[index].function as int) < r.functions@.len(),
        r.functions@[r.cycle_index@[index].function as int].is_lockmass,
    ensures
        r.spec_cycle_at(index) is None,
{
}

/// With lock-mass skipping disabled, the lock-mass designation hides
/// nothing: the cycle is found whenever its lookups succeed.
pub proof fn lemma_lockmass_no_skip_found(r: &MassLynxReader, index: int)
    requires
        0 <= index < r.cycle_index@.len(),
        !r.scan_reading_options.skip_lockmass,
        (r.cycle_index@[index].function as int) < r.functions@.len(),
        (r.cycle_index@[index].function as int) < r.info_reader.functions@.len(),
        (r.cycle_index@[index].block as int)
            < r.info_reader.functions@[r.cycle_index@[index].function as int].retention_times@.len(),
        r.spec_cycle_signal(r.cycle_index@[index]) is Some,
        r.spec_scan_items_of(r.cycle_index@[index].function as int, r.cycle_index@[index].block as int) is Some,
    ensures
        r.spec_cycle_at(index) is Some,
{
}

/// Repeating the same retrieval yields the same record: retrieval is a
/// function of the run state and the request alone.
pub proof fn lemma_retrieval_idempotent(r: &MassLynxReader, index: int, s1: Spectrum, s2: Spectrum)
    requires
        Some(s1.view_spec()) == r.spec_spectrum_at(index),
        Some(s2.view_spec()) == r.spec_spectrum_at(index),
    ensures
        s1.view_spec() == s2.view_spec(),
{
}

/// The entry's acquisition time is the model's time for its function and
/// scan, and that cell exists.
pub open spec fn spec_entry_time_bound(e: CycleIndexEntry, info: &MassLynxInfoReader) -> bool {
    &&& (e.function as int) < info.functions@.len()
    &&& (e.block as int) < info.functions@[e.function as int].retention_times@.len()
    &&& e.time == info.functions@[e.function as int].retention_times@[e.block as int]
}

/// Enumeration stamps each entry with the model's time for its scan.
proof fn lemma_enumerate_time_bound(functions: Seq<ScanFunction>, info: &MassLynxInfoReader)
    requires
        forall|k: int| 0 <= k < functions.len() ==> (#[trigger] functions[k]).function == k,
        functions.len() <= info.functions@.len(),
        forall|k: int| 0 <= k < functions.len() ==> (#[trigger] functions[k]).scan_count
            <= info.functions@[k].retention_times@.len(),
    ensures
        forall|j: int| 0 <= j < spec_enumerate_cycles(functions, info).len()
            ==> spec_entry_time_bound(#[trigger] spec_enumerate_cycles(functions, info)[j], info),
    decreases functions.len(),
{
    let en = spec_enumerate_cycles(functions, info);
    if functions.len() == 0 {
    } else {
        let prefix_fns = functions.drop_last();
        assert forall|k: int| 0 <= k < prefix_fns.len()
            implies (#[trigger] prefix_fns[k]).function == k
                && prefix_fns[k].scan_count <= info.functions@[k].retention_times@.len() by {
            assert(prefix_fns[k] == functions[k]);
        }
        lemma_enumerate_time_bound(prefix_fns, info);
        let prefix = spec_enumerate_cycles(prefix_fns, info);
        let func = functions.last();
        let times = info.functions@[func.function as int].retention_times@;
        assert forall|j: int| 0 <= j < en.len()
            implies spec_entry_time_bound(#[trigger] en[j], info) by {
            if j < prefix.len() {
                assert(en[j] == prefix[j]);
            } else {
                assert(func.ms_level > 0);
                assert(en[j] == spec_function_cycles(func, times)[j - prefix.len()]);
                assert(func.function == functions.len() - 1);
                assert(func.scan_count <= times.len());
            }
        }
    }
}

/// Every element of a permutation carries its model time when every
/// element of the original does.
proof fn lemma_perm_time_bound(s: Seq<CycleIndexEntry>, t: Seq<CycleIndexEntry>, info: &MassLynxInfoReader)
    requires
        t.to_multiset() == s.to_multiset(),
        forall|i: int| 0 <= i < s.len() ==> spec_entry_time_bound(#[trigger] s[i], info),
    ensures
        forall|j: int| 0 <= j < t.len() ==> spec_entry_time_bound(#[trigger] t[j], info),
{
    broadcast use vstd::seq_lib::group_to_multiset_ensures;
    assert forall|j: int| 0 <= j < t.len() implies spec_entry_time_bound(#[trigger] t[j], info) by {
        assert(t.contains(t[j]));
        assert(t.to_multiset().count(t[j]) > 0);
        assert(s.contains(t[j]));
        let i = choose|i: int| 0 <= i < s.len() && s[i] == t[j];
        assert(spec_entry_time_bound(s[i], info));
    }
}

/// Every entry of a built cycle index carries the model's time for its
/// function and scan.
pub proof fn lemma_cycle_index_time_bound(functions: Seq<ScanFunction>, info: &MassLynxInfoReader)
    requires
        forall|k: int| 0 <= k < functions.len() ==> (#[trigger] functions[k]).function == k,
        functions.len() <= info.functions@.len(),
        forall|k: int| 0 <= k < functions.len() ==> (#[trigger] functions[k]).scan_count
            <= info.functions@[k].retention_times@.len(),
    ensures
        forall|j: int| 0 <= j < spec_cycle_index(functions, info).len()
            ==> spec_entry_time_bound(#[trigger] spec_cycle_index(functions, info)[j], info),
{
    let en = spec_enumerate_cycles(functions, info);
    let sorted = sort_entries(en);
    let ci = spec_cycle_index(functions, info);
    lemma_enumerate_time_bound(functions, info);
    lemma_sort_entries_ensures(en);
    lemma_perm_time_bound(en, sorted, info);
    assert forall|j: int| 0 <= j < ci.len()
        implies spec_entry_time_bound(#[trigger] ci[j], info) by {
        assert(ci[j] == spec_with_position(sorted[j], j));
        assert(spec_entry_time_bound(sorted[j], info));
    }
}

/// The model cell a spectrum entry's acquisition time is read from.
pub open spec fn spec_spectrum_time(e: SpectrumIndexEntry, info: &MassLynxInfoReader) -> u64 {
    info.functions@[e.function as int].retention_times@[e.cycle as int]
}

/// Expanding a time-ordered cycle index keeps the times ordered: every
/// spectrum entry reads its owning cycle's time, and the cycles come in
/// time order.
proof fn lemma_flatten_times_ordered(ci: Seq<CycleIndexEntry>, info: &MassLynxInfoReader)
    requires
        forall|i: int, j: int| 0 <= i < j < ci.len()
            ==> (#[trigger] ci[i]).time <= (#[trigger] ci[j]).time,
        forall|i: int| 0 <= i < ci.len() ==> spec_entry_time_bound(#[trigger] ci[i], info),
    ensures
        ({
            let si = spec_flatten_cycles(ci);
            &&& forall|p: int| 0 <= p < si.len()
                ==> exists|i: int| 0 <= i < ci.len()
                    && spec_spectrum_time(#[trigger] si[p], info) == (#[trigger] ci[i]).time
            &&& forall|p: int, q: int| 0 <= p <= q < si.len()
                ==> spec_spectrum_time(#[trigger] si[p], info)
                    <= spec_spectrum_time(#[trigger] si[q], info)
        }),
    decreases ci.len(),
{
    let si = spec_flatten_cycles(ci);
    if ci.len() == 0 {
    } else {
        let prefix_ci = ci.drop_last();
        assert forall|i: int, j: int| 0 <= i < j < prefix_ci.len()
            implies (#[trigger] prefix_ci[i]).time <= (#[trigger] prefix_ci[j]).time by {
            assert(prefix_ci[i] == ci[i]);
            assert(prefix_ci[j] == ci[j]);
        }
        assert forall|i: int| 0 <= i < prefix_ci.len()
            implies spec_entry_time_bound(#[trigger] prefix_ci[i], info) by {
            assert(prefix_ci[i] == ci[i]);
        }
        lemma_flatten_times_ordered(prefix_ci, info);
        let prefix = spec_flatten_cycles(prefix_ci);
        let last = ci.last();
        let tail = crate::reader::spec_cycle_spectra(last);
        assert(si == prefix + tail);
        assert(spec_entry_time_bound(last, info));
        // a tail entry reads the last cycle's time
        assert forall|o: int| 0 <= o < tail.len()
            implies spec_spectrum_time(#[trigger] tail[o], info) == last.time by {
            assert(tail[o].function == last.function);
            assert(tail[o].cycle == last.block);
        }
        assert forall|p: int| 0 <= p < si.len()
            implies exists|i: int| 0 <= i < ci.len()
                && spec_spectrum_time(#[trigger] si[p], info) == (#[trigger] ci[i]).time by {
            if p < prefix.len() {
                assert(si[p] == prefix[p]);
                let i = choose|i: int| 0 <= i < prefix_ci.len()
                    && spec_spectrum_time(prefix[p], info) == (#[trigger] prefix_ci[i]).time;
                assert(ci[i] == prefix_ci[i]);
                assert(spec_spectrum_time(si[p], info) == ci[i].time);
            } else {
                assert(si[p] == tail[p - prefix.len()]);
                assert(spec_spectrum_time(si[p], info) == ci[ci.len() - 1].time);
            }
        }
        assert forall|p: int, q: int| 0 <= p <= q < si.len()
            implies spec_spectrum_time(#[trigger] si[p], info)
                <= spec_spectrum_time(#[trigger] si[q], info) by {
            if q < prefix.len() {
                assert(si[p] == prefix[p]);
                assert(si[q] == prefix[q]);
            } else if p >= prefix.len() {
                assert(si[p] == tail[p - prefix.len()]);
                assert(si[q] == tail[q - prefix.len()]);
            } else {
                // an earlier cycle's time never exceeds the last cycle's
                assert(si[p] == prefix[p]);
                assert(si[q] == tail[q - prefix.len()]);
                let i = choose|i: int| 0 <= i < prefix_ci.len()
                    && spec_spectrum_time(prefix[p], info) == (#[trigger] prefix_ci[i]).time;
                assert(ci[i] == prefix_ci[i]);
                assert(ci[i].time <= ci[ci.len() - 1].time);
            }
        }
    }
}

/// Iteration yields records in non-decreasing acquisition time: over a
/// built run, any two assembled cycles, and any two assembled spectra,
/// come out time-ordered by their positions.
pub proof fn lemma_iteration_times_ordered(r: &MassLynxReader)
    requires
        forall|k: int| 0 <= k < r.functions@.len() ==> (#[trigger] r.functions@[k]).function == k,
        r.functions@.len() <= r.info_reader.functions@.len(),
        forall|k: int| 0 <= k < r.functions@.len() ==> (#[trigger] r.functions@[k]).scan_count
            <= r.info_reader.functions@[k].retention_times@.len(),
        r.cycle_index@ == spec_cycle_index(r.functions@, &r.info_reader),
        r.spectrum_index@ == spec_flatten_cycles(r.cycle_index@),
    ensures
        forall|i: int, j: int| 0 <= i <= j
            && (#[trigger] r.spec_cycle_at(i)) is Some && (#[trigger] r.spec_cycle_at(j)) is Some
            ==> r.spec_cycle_at(i)->Some_0.time <= r.spec_cycle_at(j)->Some_0.time,
        forall|i: int, j: int| 0 <= i <= j
            && (#[trigger] r.spec_spectrum_at(i)) is Some && (#[trigger] r.spec_spectrum_at(j)) is Some
            ==> r.spec_spectrum_at(i)->Some_0.time <= r.spec_spectrum_at(j)->Some_0.time,
{
    lemma_cycle_index_time_ordered(r.functions@, &r.info_reader);
    lemma_cycle_index_time_bound(r.functions@, &r.info_reader);
    lemma_flatten_times_ordered(r.cycle_index@, &r.info_reader);
    assert forall|i: int, j: int| 0 <= i <= j
        && (#[trigger] r.spec_cycle_at(i)) is Some && (#[trigger] r.spec_cycle_at(j)) is Some
        implies r.spec_cycle_at(i)->Some_0.time <= r.spec_cycle_at(j)->Some_0.time by {
        let e1 = r.cycle_index@[i];
        let e2 = r.cycle_index@[j];
        assert(spec_entry_time_bound(e1, &r.info_reader));
        assert(spec_entry_time_bound(e2, &r.info_reader));
        assert(r.spec_cycle_at(i)->Some_0.time == e1.time);
        assert(r.spec_cycle_at(j)->Some_0.time == e2.time);
    }
    assert forall|i: int, j: int| 0 <= i <= j
        && (#[trigger] r.spec_spectrum_at(i)) is Some && (#[trigger] r.spec_spectrum_at(j)) is Some
        implies r.spec_spectrum_at(i)->Some_0.time <= r.spec_spectrum_at(j)->Some_0.time by {
        let e1 = r.spectrum_index@[i];
        let e2 = r.spectrum_index@[j];
        assert(r.spec_spectrum_at(i)->Some_0.time == spec_spectrum_time(e1, &r.info_reader));
        assert(r.spec_spectrum_at(j)->Some_0.time == spec_spectrum_time(e2, &r.info_reader));
    }
}

} // verus!
