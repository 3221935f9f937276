//! The streaming k-way merge of per-function chromatogram series.
//!
//! Each acquisition function contributes one time/intensity series, already
//! ordered by time.  The merger repeatedly takes, among the series that are
//! not yet exhausted, the one whose next point has the smallest time — the
//! lowest function index winning ties — emits that point, and advances only
//! that series.  The result is one globally time-ordered series as long as
//! all inputs together.

use vstd::multiset::Multiset;
use vstd::prelude::*;

use crate::base::ChromatogramSeries;

verus! {

/// The points of one series: time and intensity zipped, stopping at the
/// shorter array.
pub open spec fn point_view(s: &ChromatogramSeries) -> Seq<(u64, u32)> {
    let n = if s.times@.len() <= s.intensities@.len() { s.times@.len() } else { s.intensities@.len() };
    Seq::new(n, |i: int| (s.times@[i], s.intensities@[i]))
}

/// The points of every series.
pub open spec fn series_views(v: &Vec<ChromatogramSeries>) -> Seq<Seq<(u64, u32)>> {
    Seq::new(v@.len(), |k: int| point_view(&v@[k]))
}

/// The total number of points left over all series.
pub open spec fn spec_total_len(rem: Seq<Seq<(u64, u32)>>) -> int
    decreases rem.len(),
{
    if rem.len() == 0 {
        0
    } else {
        spec_total_len(rem.drop_last()) + rem.last().len()
    }
}

/// The left-to-right fold that picks the series to draw from next: a later
/// series wins only with a strictly smaller head time, so the first
/// minimum wins ties.
pub open spec fn spec_pick_from(rem: Seq<Seq<(u64, u32)>>, i: int, best: int) -> int
    decreases rem.len() - i,
{
    if i < 0 || i >= rem.len() {
        best
    } else {
        let better = rem[i].len() > 0
            && (rem[best].len() == 0 || rem[i][0].0 < rem[best][0].0);
        spec_pick_from(rem, i + 1, if better { i } else { best })
    }
}

/// The index of the series whose head is drawn next.
pub open spec fn spec_pick(rem: Seq<Seq<(u64, u32)>>) -> int {
    spec_pick_from(rem, 1, 0)
}

/// The pick stays inside the range it scans.
proof fn lemma_pick_from_range(rem: Seq<Seq<(u64, u32)>>, i: int, best: int)
    requires
        0 <= best < rem.len(),
    ensures
        0 <= spec_pick_from(rem, i, best) < rem.len(),
    decreases rem.len() - i,
{
    if 0 <= i && i < rem.len() {
        let better = rem[i].len() > 0
            && (rem[best].len() == 0 || rem[i][0].0 < rem[best][0].0);
        lemma_pick_from_range(rem, i + 1, if better { i } else { best });
    }
}

/// What the fold guarantees about its result: the picked series' head is no
/// later than any other live head among those scanned, and the pick is only
/// exhausted when everything scanned is.
proof fn lemma_pick_from_min(rem: Seq<Seq<(u64, u32)>>, i: int, best: int)
    requires
        0 <= best < rem.len(),
        0 <= i,
    ensures
        ({
            let p = spec_pick_from(rem, i, best);
            &&& (rem[p].len() == 0 ==> rem[best].len() == 0
                && (forall|j: int| i <= j < rem.len() ==> (#[trigger] rem[j]).len() == 0))
            &&& (rem[best].len() > 0 ==> rem[p].len() > 0 && rem[p][0].0 <= rem[best][0].0)
            &&& (forall|j: int| i <= j < rem.len() && (#[trigger] rem[j]).len() > 0
                ==> rem[p].len() > 0 && rem[p][0].0 <= rem[j][0].0)
        }),
    decreases rem.len() - i,
{
    if i >= rem.len() {
    } else {
        let better = rem[i].len() > 0
            && (rem[best].len() == 0 || rem[i][0].0 < rem[best][0].0);
        lemma_pick_from_min(rem, i + 1, if better { i } else { best });
    }
}

/// The merged series: repeatedly draw the picked head until every series is
/// exhausted.
pub open spec fn spec_merge(rem: Seq<Seq<(u64, u32)>>) -> Seq<(u64, u32)>
    decreases spec_total_len(rem) + 1, rem.len(),
    via spec_merge_decreases
{
    if rem.len() == 0 {
        Seq::empty()
    } else {
        let k = spec_pick(rem);
        if !(0 <= k < rem.len()) {
            Seq::empty()
        } else if rem[k].len() == 0 {
            Seq::empty()
        } else {
            seq![rem[k][0]] + spec_merge(rem.update(k, rem[k].skip(1)))
        }
    }
}

#[via_fn]
proof fn spec_merge_decreases(rem: Seq<Seq<(u64, u32)>>) {
    lemma_total_len_nonneg(rem);
    if rem.len() > 0 {
        let k = spec_pick(rem);
        if 0 <= k < rem.len() && rem[k].len() > 0 {
            lemma_total_len_update(rem, k);
        }
    }
}

/// Dropping one point from one series lowers the total count by one.
proof fn lemma_total_len_update(rem: Seq<Seq<(u64, u32)>>, k: int)
    requires
        0 <= k < rem.len(),
        rem[k].len() > 0,
    ensures
        spec_total_len(rem.update(k, rem[k].skip(1))) == spec_total_len(rem) - 1,
    decreases rem.len(),
{
    let upd = rem.update(k, rem[k].skip(1));
    if k == rem.len() - 1 {
        assert(upd.drop_last() =~= rem.drop_last());
    } else {
        lemma_total_len_update(rem.drop_last(), k);
        assert(upd.drop_last() =~= rem.drop_last().update(k, rem[k].skip(1)));
        assert(upd.last() == rem.last());
    }
}

/// Every series holds a non-negative number of points.
proof fn lemma_total_len_nonneg(rem: Seq<Seq<(u64, u32)>>)
    ensures
        spec_total_len(rem) >= 0,
    decreases rem.len(),
{
    if rem.len() > 0 {
        lemma_total_len_nonneg(rem.drop_last());
    }
}

/// The merged series is exactly as long as all inputs together.
pub proof fn lemma_merge_len(rem: Seq<Seq<(u64, u32)>>)
    ensures
        spec_merge(rem).len() == spec_total_len(rem),
    decreases spec_total_len(rem) + 1, rem.len(),
{
    lemma_total_len_nonneg(rem);
    if rem.len() == 0 {
    } else {
        let k = spec_pick(rem);
        lemma_pick_from_range(rem, 1, 0);
        if rem[k].len() == 0 {
            lemma_pick_from_min(rem, 1, 0);
            lemma_all_empty_total(rem);
        } else {
            lemma_total_len_update(rem, k);
            lemma_merge_len(rem.update(k, rem[k].skip(1)));
        }
    }
}

/// When every series is exhausted the total is zero.
proof fn lemma_all_empty_total(rem: Seq<Seq<(u64, u32)>>)
    requires
        forall|j: int| 0 <= j < rem.len() ==> (#[trigger] rem[j]).len() == 0,
    ensures
        spec_total_len(rem) == 0,
    decreases rem.len(),
{
    if rem.len() > 0 {
        lemma_all_empty_total(rem.drop_last());
    }
}

/// The points of every series together, as a multiset.
pub open spec fn spec_total_multiset(rem: Seq<Seq<(u64, u32)>>) -> Multiset<(u64, u32)>
    decreases rem.len(),
{
    if rem.len() == 0 {
        Multiset::empty()
    } else {
        spec_total_multiset(rem.drop_last()).add(rem.last().to_multiset())
    }
}

/// When every series is exhausted nothing is left.
proof fn lemma_all_empty_multiset(rem: Seq<Seq<(u64, u32)>>)
    requires
        forall|j: int| 0 <= j < rem.len() ==> (#[trigger] rem[j]).len() == 0,
    ensures
        spec_total_multiset(rem) == Multiset::<(u64, u32)>::empty(),
    decreases rem.len(),
{
    broadcast use vstd::seq_lib::group_to_multiset_ensures;
    broadcast use vstd::multiset::group_multiset_axioms;
    if rem.len() > 0 {
        lemma_all_empty_multiset(rem.drop_last());
        assert(rem.last().to_multiset().len() == 0);
        assert(spec_total_multiset(rem) =~= Multiset::<(u64, u32)>::empty());
    }
}

/// Drawing one point from one series removes exactly that point from the
/// pool.
proof fn lemma_total_multiset_update(rem: Seq<Seq<(u64, u32)>>, k: int)
    requires
        0 <= k < rem.len(),
        rem[k].len() > 0,
    ensures
        spec_total_multiset(rem)
            == spec_total_multiset(rem.update(k, rem[k].skip(1))).insert(rem[k][0]),
    decreases rem.len(),
{
    broadcast use vstd::seq_lib::group_to_multiset_ensures;
    broadcast use vstd::multiset::group_multiset_axioms;
    let upd = rem.update(k, rem[k].skip(1));
    let h = rem[k][0];
    // a non-empty series is its head plus its tail
    assert(seq![h] + rem[k].skip(1) =~= rem[k]);
    vstd::seq_lib::lemma_multiset_commutative(seq![h], rem[k].skip(1));
    assert(seq![h].to_multiset() =~= Multiset::<(u64, u32)>::empty().insert(h));
    if k == rem.len() - 1 {
        assert(upd.drop_last() =~= rem.drop_last());
        assert(upd.last() =~= rem[k].skip(1));
        assert(spec_total_multiset(rem)
            =~= spec_total_multiset(upd).insert(h));
    } else {
        lemma_total_multiset_update(rem.drop_last(), k);
        assert(upd.drop_last() =~= rem.drop_last().update(k, rem[k].skip(1)));
        assert(upd.last() =~= rem.last());
        assert(spec_total_multiset(rem)
            =~= spec_total_multiset(upd).insert(h));
    }
}

/// The merged series holds exactly the points of all input series: nothing
/// is dropped, duplicated or invented.
pub proof fn lemma_merge_multiset(rem: Seq<Seq<(u64, u32)>>)
    ensures
        spec_merge(rem).to_multiset() == spec_total_multiset(rem),
    decreases spec_total_len(rem) + 1, rem.len(),
{
    broadcast use vstd::seq_lib::group_to_multiset_ensures;
    broadcast use vstd::multiset::group_multiset_axioms;
    lemma_total_len_nonneg(rem);
    if rem.len() == 0 {
    } else {
        let k = spec_pick(rem);
        lemma_pick_from_range(rem, 1, 0);
        if rem[k].len() == 0 {
            lemma_pick_from_min(rem, 1, 0);
            lemma_all_empty_multiset(rem);
        } else {
            let h = rem[k][0];
            let upd = rem.update(k, rem[k].skip(1));
            lemma_total_len_update(rem, k);
            lemma_merge_multiset(upd);
            lemma_total_multiset_update(rem, k);
            vstd::seq_lib::lemma_multiset_commutative(seq![h], spec_merge(upd));
            assert(seq![h].to_multiset() =~= Multiset::<(u64, u32)>::empty().insert(h));
            assert(spec_merge(rem).to_multiset() =~= spec_total_multiset(rem));
        }
    }
}

/// The fold keeps, as its running best, the first series whose head is
/// minimal among those scanned so far: every earlier live series has a
/// strictly later head.
proof fn lemma_pick_from_earliest(rem: Seq<Seq<(u64, u32)>>, i: int, best: int)
    requires
        0 <= best < rem.len(),
        best < i,
        forall|j: int| 0 <= j < best && (#[trigger] rem[j]).len() > 0
            ==> rem[best].len() > 0 && rem[j][0].0 > rem[best][0].0,
        forall|j: int| best <= j < i && (#[trigger] rem[j]).len() > 0
            ==> rem[best].len() > 0 && rem[j][0].0 >= rem[best][0].0,
    ensures
        ({
            let p = spec_pick_from(rem, i, best);
            forall|j: int| 0 <= j < p && (#[trigger] rem[j]).len() > 0
                ==> rem[p].len() > 0 && rem[j][0].0 > rem[p][0].0
        }),
    decreases rem.len() - i,
{
    if i >= rem.len() {
    } else {
        let better = rem[i].len() > 0
            && (rem[best].len() == 0 || rem[i][0].0 < rem[best][0].0);
        if better {
            assert forall|j: int| 0 <= j < i && (#[trigger] rem[j]).len() > 0
                implies rem[i].len() > 0 && rem[j][0].0 > rem[i][0].0 by {
            }
            lemma_pick_from_earliest(rem, i + 1, i);
        } else {
            lemma_pick_from_earliest(rem, i + 1, best);
        }
    }
}

/// Ties go to the lower series index: the drawn series' head time is
/// minimal among all live series, and every live series before the drawn
/// one has a strictly later head, so among equal times the point of the
/// lowest series index is emitted first.
pub proof fn lemma_merge_draw_order(rem: Seq<Seq<(u64, u32)>>)
    requires
        rem.len() > 0,
    ensures
        ({
            let p = spec_pick(rem);
            &&& 0 <= p < rem.len()
            &&& forall|j: int| 0 <= j < rem.len() && (#[trigger] rem[j]).len() > 0
                ==> rem[p].len() > 0 && rem[p][0].0 <= rem[j][0].0
            &&& forall|j: int| 0 <= j < p && (#[trigger] rem[j]).len() > 0
                ==> rem[p].len() > 0 && rem[j][0].0 > rem[p][0].0
        }),
{
    lemma_pick_from_range(rem, 1, 0);
    lemma_pick_from_min(rem, 1, 0);
    lemma_pick_from_earliest(rem, 1, 0);
    let p = spec_pick(rem);
    assert forall|j: int| 0 <= j < rem.len() && (#[trigger] rem[j]).len() > 0
        implies rem[p].len() > 0 && rem[p][0].0 <= rem[j][0].0 by {
    }
}

/// One series in non-decreasing time order.
pub open spec fn points_sorted(s: Seq<(u64, u32)>) -> bool {
    forall|i: int, j: int| 0 <= i <= j < s.len() ==> (#[trigger] s[i]).0 <= (#[trigger] s[j]).0
}

/// Every series in non-decreasing time order.
pub open spec fn all_points_sorted(rem: Seq<Seq<(u64, u32)>>) -> bool {
    forall|k: int| 0 <= k < rem.len() ==> points_sorted(#[trigger] rem[k])
}

/// Every remaining point is no earlier than the bound.
pub open spec fn all_points_at_least(rem: Seq<Seq<(u64, u32)>>, t: u64) -> bool {
    forall|k: int, i: int| 0 <= k < rem.len() && 0 <= i < rem[k].len()
        ==> (#[trigger] rem[k][i]).0 >= t
}

/// Merging series whose points all sit at or after a bound yields points at
/// or after the bound.
proof fn lemma_merge_bound(rem: Seq<Seq<(u64, u32)>>, t: u64)
    requires
        all_points_at_least(rem, t),
    ensures
        forall|i: int| 0 <= i < spec_merge(rem).len() ==> (#[trigger] spec_merge(rem)[i]).0 >= t,
    decreases spec_total_len(rem) + 1, rem.len(),
{
    lemma_total_len_nonneg(rem);
    if rem.len() == 0 {
    } else {
        let k = spec_pick(rem);
        lemma_pick_from_range(rem, 1, 0);
        if rem[k].len() == 0 {
        } else {
            let upd = rem.update(k, rem[k].skip(1));
            assert forall|k2: int, i: int| 0 <= k2 < upd.len() && 0 <= i < upd[k2].len()
                implies (#[trigger] upd[k2][i]).0 >= t by {
                if k2 == k {
                    assert(upd[k2][i] == rem[k][i + 1]);
                } else {
                    assert(upd[k2][i] == rem[k2][i]);
                }
            }
            lemma_total_len_update(rem, k);
            lemma_merge_bound(upd, t);
            let merged = seq![rem[k][0]] + spec_merge(upd);
            assert(rem[k][0].0 >= t);
            assert forall|i: int| 0 <= i < merged.len()
                implies (#[trigger] merged[i]).0 >= t by {
                if i > 0 {
                    assert(merged[i] == spec_merge(upd)[i - 1]);
                }
            }
        }
    }
}

/// Merging time-ordered series yields a time-ordered series.
pub proof fn lemma_merge_sorted(rem: Seq<Seq<(u64, u32)>>)
    requires
        all_points_sorted(rem),
    ensures
        points_sorted(spec_merge(rem)),
    decreases spec_total_len(rem) + 1, rem.len(),
{
    lemma_total_len_nonneg(rem);
    if rem.len() == 0 {
    } else {
        let k = spec_pick(rem);
        lemma_pick_from_range(rem, 1, 0);
        if rem[k].len() == 0 {
        } else {
            let p = rem[k][0];
            let upd = rem.update(k, rem[k].skip(1));
            lemma_pick_from_min(rem, 1, 0);
            // every point still unmerged is at or after the drawn time
            assert forall|k2: int, i: int| 0 <= k2 < upd.len() && 0 <= i < upd[k2].len()
                implies (#[trigger] upd[k2][i]).0 >= p.0 by {
                if k2 == k {
                    assert(upd[k2][i] == rem[k][i + 1]);
                    assert(rem[k][0].0 <= rem[k][i + 1].0);
                } else {
                    assert(upd[k2][i] == rem[k2][i]);
                    assert(rem[k][0].0 <= rem[k2][0].0);
                    assert(rem[k2][0].0 <= rem[k2][i].0);
                }
            }
            assert forall|k2: int| 0 <= k2 < upd.len() implies points_sorted(#[trigger] upd[k2]) by {
                if k2 == k {
                    assert forall|a: int, b: int| 0 <= a <= b < upd[k2].len()
                        implies (#[trigger] upd[k2][a]).0 <= (#[trigger] upd[k2][b]).0 by {
                        assert(upd[k2][a] == rem[k][a + 1]);
                        assert(upd[k2][b] == rem[k][b + 1]);
                    }
                } else {
                    assert(upd[k2] == rem[k2]);
                }
            }
            lemma_total_len_update(rem, k);
            lemma_merge_sorted(upd);
            lemma_merge_bound(upd, p.0);
            let merged = seq![p] + spec_merge(upd);
            assert forall|i: int, j: int| 0 <= i <= j < merged.len()
                implies (#[trigger] merged[i]).0 <= (#[trigger] merged[j]).0 by {
                if i == 0 {
                    if j > 0 {
                        assert(merged[j] == spec_merge(upd)[j - 1]);
                    }
                } else {
                    assert(merged[i] == spec_merge(upd)[i - 1]);
                    assert(merged[j] == spec_merge(upd)[j - 1]);
                }
            }
        }
    }
}

/// The streaming merger: the per-function series and one cursor into each.
#[derive(Debug, Default, Clone)]
pub struct ChromatogramMerger {
    series: Vec<ChromatogramSeries>,
    cursors: Vec<usize>,
}

impl ChromatogramMerger {
    /// One cursor per series, each within its series.
    pub closed spec fn wf(self) -> bool {
        self.cursors@.len() == self.series@.len()
        && forall|k: int| 0 <= k < self.series@.len()
            ==> (#[trigger] self.cursors@[k]) <= point_view(&self.series@[k]).len()
    }

    /// The points not yet drawn, per series.
    pub closed spec fn remaining(self) -> Seq<Seq<(u64, u32)>> {
        Seq::new(self.series@.len(), |k: int| point_view(&self.series@[k]).skip(self.cursors@[k] as int))
    }

    pub fn new(series: Vec<ChromatogramSeries>) -> (r: Self)
        ensures
            r.wf(),
            r.remaining() == series_views(&series),
    {
        let n = series.len();
        let mut cursors: Vec<usize> = Vec::new();
        let mut i: usize = 0;
        while i < n
            invariant
                i <= n,
                cursors@.len() == i,
                forall|k: int| 0 <= k < i ==> (#[trigger] cursors@[k]) == 0,
            decreases n - i,
        {
            cursors.push(0);
            i += 1;
        }
        let r = Self { series, cursors };
        proof {
            assert forall|k: int| 0 <= k < r.series@.len()
                implies r.remaining()[k] == series_views(&r.series)[k] by {
                assert(point_view(&r.series@[k]).skip(0) =~= point_view(&r.series@[k]));
            }
            assert(r.remaining() =~= series_views(&r.series));
        }
        r
    }

    /// Draws the next point: the head of the picked series, or nothing when
    /// every series is exhausted.
    pub fn next_point(&mut self) -> (r: Option<(u64, u32)>)
        requires
            old(self).wf(),
        ensures
            final(self).wf(),
            ({
                let rem = old(self).remaining();
                if rem.len() > 0 && rem[spec_pick(rem)].len() > 0 {
                    let k = spec_pick(rem);
                    r == Some(rem[k][0])
                        && final(self).remaining() == rem.update(k, rem[k].skip(1))
                } else {
                    r is None && final(self).remaining() == rem
                }
            }),
    {
        let ghost rem = self.remaining();
        let n = self.series.len();
        if n == 0 {
            return None;
        }
        let mut best: usize = 0;
        let mut i: usize = 1;
        while i < n
            invariant
                1 <= i <= n == self.series@.len(),
                best < n,
                self.wf(),
                rem == self.remaining(),
                spec_pick_from(rem, i as int, best as int) == spec_pick(rem),
            decreases n - i,
        {
            let cur_live = self.cursors[i] < self.series[i].times.len()
                && self.cursors[i] < self.series[i].intensities.len();
            let best_live = self.cursors[best] < self.series[best].times.len()
                && self.cursors[best] < self.series[best].intensities.len();
            proof {
                assert(rem[i as int] == point_view(&self.series@[i as int]).skip(self.cursors@[i as int] as int));
                assert(rem[best as int] == point_view(&self.series@[best as int]).skip(self.cursors@[best as int] as int));
            }
            let better = cur_live
                && (!best_live
                    || self.series[i].times[self.cursors[i]]
                        < self.series[best].times[self.cursors[best]]);
            proof {
                if cur_live {
                    assert(rem[i as int][0] == point_view(&self.series@[i as int])[self.cursors@[i as int] as int]);
                }
                if best_live {
                    assert(rem[best as int][0] == point_view(&self.series@[best as int])[self.cursors@[best as int] as int]);
                }
                assert(better == (rem[i as int].len() > 0
                    && (rem[best as int].len() == 0 || rem[i as int][0].0 < rem[best as int][0].0)));
            }
            if better {
                best = i;
            }
            i += 1;
        }
        let live = self.cursors[best] < self.series[best].times.len()
            && self.cursors[best] < self.series[best].intensities.len();
        proof {
            assert(rem[best as int] == point_view(&self.series@[best as int]).skip(self.cursors@[best as int] as int));
        }
        if !live {
            return None;
        }
        let t = self.series[best].times[self.cursors[best]];
        let y = self.series[best].intensities[self.cursors[best]];
        proof {
            assert(rem[best as int][0] == point_view(&self.series@[best as int])[self.cursors@[best as int] as int]);
        }
        let c = self.cursors[best];
        set_cursor(&mut self.cursors, best, c + 1);
        proof {
            let k = best as int;
            assert forall|k2: int| 0 <= k2 < self.series@.len()
                implies self.remaining()[k2] == rem.update(k, rem[k].skip(1))[k2] by {
                if k2 == k {
                    assert(self.remaining()[k2]
                        =~= point_view(&self.series@[k]).skip(old(self).cursors@[k] as int).skip(1));
                } else {
                    assert(self.remaining()[k2]
                        == point_view(&self.series@[k2]).skip(self.cursors@[k2] as int));
                }
            }
            assert(self.remaining() =~= rem.update(k, rem[k].skip(1)));
        }
        Some((t, y))
    }

    /// Drains the merger, collecting the merged time and intensity arrays.
    pub fn merge(self) -> (r: (Vec<u64>, Vec<u32>))
        requires
            self.wf(),
        ensures
            r.0@ == spec_merge(self.remaining()).map_values(|p: (u64, u32)| p.0),
            r.1@ == spec_merge(self.remaining()).map_values(|p: (u64, u32)| p.1),
    {
        let ghost rem0 = self.remaining();
        let ghost full = spec_merge(rem0);
        let mut this = self;
        let mut times: Vec<u64> = Vec::new();
        let mut intensities: Vec<u32> = Vec::new();
        proof {
            lemma_total_len_nonneg(this.remaining());
            lemma_merge_len(rem0);
        }
        loop
            invariant
                this.wf(),
                times@.len() == intensities@.len(),
                times@.len() <= full.len(),
                full == spec_merge(rem0),
                full == spec_merge(self.remaining()),
                forall|i: int| 0 <= i < times@.len() ==> #[trigger] times@[i] == full[i].0,
                forall|i: int| 0 <= i < intensities@.len() ==> #[trigger] intensities@[i] == full[i].1,
                spec_merge(this.remaining()) == full.skip(times@.len() as int),
            decreases spec_total_len(this.remaining()),
        {
            let ghost before = this.remaining();
            proof {
                lemma_total_len_nonneg(before);
                lemma_merge_len(before);
            }
            match this.next_point() {
                Some(p) => {
                    proof {
                        let k = spec_pick(before);
                        lemma_pick_from_range(before, 1, 0);
                        lemma_total_len_update(before, k);
                        lemma_merge_len(this.remaining());
                        assert(spec_merge(before)
                            == seq![before[k][0]] + spec_merge(this.remaining()));
                        assert(full.skip(times@.len() as int)[0] == p);
                        assert(spec_merge(this.remaining())
                            =~= full.skip(times@.len() as int).skip(1));
                        assert(full.skip(times@.len() as int).skip(1)
                            =~= full.skip(times@.len() as int + 1));
                        assert(full[times@.len() as int]
                            == full.skip(times@.len() as int)[0]);
                    }
                    times.push(p.0);
                    intensities.push(p.1);
                }
                None => {
                    proof {
                        assert(spec_merge(this.remaining()).len() == 0);
                        assert(full.skip(times@.len() as int).len() == 0);
                        assert(times@.len() == full.len());
                        assert(times@ =~= full.map_values(|q: (u64, u32)| q.0));
                        assert(intensities@ =~= full.map_values(|q: (u64, u32)| q.1));
                    }
                    return (times, intensities);
                }
            }
        }
    }
}

/// Writes one cursor, leaving the others unchanged.
fn set_cursor(cursors: &mut Vec<usize>, k: usize, value: usize)
    requires
        k < old(cursors)@.len(),
    ensures
        final(cursors)@ == old(cursors)@.update(k as int, value),
{
    let n = cursors.len();
    let mut rebuilt: Vec<usize> = Vec::new();
    let mut i: usize = 0;
    while i < n
        invariant
            i <= n == cursors@.len(),
            cursors == old(cursors),
            k < n,
            rebuilt@.len() == i,
            forall|j: int| 0 <= j < i && j != k ==> #[trigger] rebuilt@[j] == cursors@[j],
            i > k ==> rebuilt@[k as int] == value,
        decreases n - i,
    {
        if i == k {
            rebuilt.push(value);
        } else {
            rebuilt.push(cursors[i]);
        }
        i += 1;
    }
    proof {
        assert(rebuilt@ =~= old(cursors)@.update(k as int, value));
    }
    *cursors = rebuilt;
}

} // verus!
