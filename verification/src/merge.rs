//! The merge operations: concatenating beatmaps back to back with uniform or
//! per-pair gaps.
//!
//! The offset applied to the i-th beatmap is the sum of the durations of the
//! beatmaps before it plus the gaps configured between them. A merge shifts
//! every timed element of every beatmap after the first by the offset of its
//! beatmap, appends the shifted elements to a copy of the first beatmap,
//! sorts each of the five timed collections by time, and rewrites the label.

use vstd::prelude::*;

use crate::beatmap::{
    beatmap_fits, clone_beatmap, duration_spec, get_beatmap_duration, lemma_duration_fits,
    models_of, Beatmap, BeatmapModel, ControlPoint, HitObject, Timed,
};
use crate::label::{make_marathon_label, marathon_label};
use crate::sorting::{sort_by_time, sorted_by_time};

verus! {

/// Why a merge was refused: no charts were supplied, or the number of
/// transitions does not match the number of chart pairs.
#[derive(Clone, Copy, Debug, PartialEq, Eq)]
pub enum MergeError {
    EmptyInput,
    TransitionCountMismatch,
}

/// The gap milliseconds actually used: the supplied value, or 0.
pub open spec fn gap_value(gap_ms: Option<i64>) -> int {
    match gap_ms {
        Option::Some(g) => g as int,
        Option::None => 0,
    }
}

/// A sequence of `k` equal gaps.
pub open spec fn uniform_gaps(k: nat, g: int) -> Seq<int> {
    Seq::new(k, |i: int| g)
}

/// The gap vector as a sequence of mathematical integers.
pub open spec fn gaps_int(s: Seq<i64>) -> Seq<int> {
    s.map(|i: int, g: i64| g as int)
}

/// The offset added to the times of the i-th beatmap (0-based; the first
/// beatmap is never shifted): the durations of the beatmaps before it plus
/// the gaps before it.
pub open spec fn offset_at(charts: Seq<BeatmapModel>, gaps: Seq<int>, i: int) -> int
    decreases i,
{
    if i <= 0 {
        0
    } else {
        offset_at(charts, gaps, i - 1) + duration_spec(charts[i - 1]) + gaps[i - 1]
    }
}

/// The sequence with every element's time shifted by `off`, all other fields
/// unchanged.
pub open spec fn shifted_seq<T: Timed>(s: Seq<T>, off: int) -> Seq<T> {
    s.map(|i: int, e: T| e.shift_spec(off))
}

/// Every element's shifted time is representable as an `i64`.
pub open spec fn seq_shift_fits<T: Timed>(s: Seq<T>, off: int) -> bool {
    forall|j: int| 0 <= j < s.len() ==> i64::MIN <= (#[trigger] s[j]).time_of() + off <= i64::MAX
}

/// Shifting the whole beatmap by `off` stays within the `i64` bounds.
pub open spec fn shift_all_fits(m: BeatmapModel, off: int) -> bool {
    &&& seq_shift_fits(m.hit_objects, off)
    &&& seq_shift_fits(m.timing_points, off)
    &&& seq_shift_fits(m.effect_points, off)
    &&& seq_shift_fits(m.difficulty_points, off)
    &&& seq_shift_fits(m.sample_points, off)
}

/// The machine limits a merge needs: every duration computation, every
/// accumulated offset and every shifted time is representable as an `i64`.
pub open spec fn merge_fits(charts: Seq<BeatmapModel>, gaps: Seq<int>) -> bool {
    &&& forall|i: int| 0 <= i < charts.len() ==> beatmap_fits(#[trigger] charts[i])
    &&& forall|i: int|
        1 <= i < charts.len() ==> i64::MIN <= #[trigger] offset_at(charts, gaps, i) <= i64::MAX
    &&& forall|i: int|
        1 <= i < charts.len() ==> shift_all_fits(
            #[trigger] charts[i],
            offset_at(charts, gaps, i),
        )
}

/// One timed collection of a beatmap, as a function of its model.
pub open spec fn hit_objects_of() -> spec_fn(BeatmapModel) -> Seq<HitObject> {
    |m: BeatmapModel| m.hit_objects
}

pub open spec fn timing_points_of() -> spec_fn(BeatmapModel) -> Seq<ControlPoint> {
    |m: BeatmapModel| m.timing_points
}

pub open spec fn effect_points_of() -> spec_fn(BeatmapModel) -> Seq<ControlPoint> {
    |m: BeatmapModel| m.effect_points
}

pub open spec fn difficulty_points_of() -> spec_fn(BeatmapModel) -> Seq<ControlPoint> {
    |m: BeatmapModel| m.difficulty_points
}

pub open spec fn sample_points_of() -> spec_fn(BeatmapModel) -> Seq<ControlPoint> {
    |m: BeatmapModel| m.sample_points
}

/// One timed collection of the merged chart, before sorting: the first
/// beatmap's elements unshifted, then each later beatmap's elements shifted
/// by that beatmap's offset, in input order; `i` beatmaps taken.
pub open spec fn merged_upto<T: Timed>(
    charts: Seq<BeatmapModel>,
    gaps: Seq<int>,
    proj: spec_fn(BeatmapModel) -> Seq<T>,
    i: int,
) -> Seq<T>
    decreases i,
{
    if i <= 0 {
        Seq::empty()
    } else if i == 1 {
        proj(charts[0])
    } else {
        merged_upto(charts, gaps, proj, i - 1) + shifted_seq(
            proj(charts[i - 1]),
            offset_at(charts, gaps, i - 1),
        )
    }
}

/// One timed collection of the merged chart, before sorting, over all input
/// beatmaps.
pub open spec fn merged_seq<T: Timed>(
    charts: Seq<BeatmapModel>,
    gaps: Seq<int>,
    proj: spec_fn(BeatmapModel) -> Seq<T>,
) -> Seq<T> {
    merged_upto(charts, gaps, proj, charts.len() as int)
}

/// The sum of the collection's lengths over the first `i` beatmaps.
pub open spec fn total_len<T: Timed>(
    charts: Seq<BeatmapModel>,
    proj: spec_fn(BeatmapModel) -> Seq<T>,
    i: int,
) -> nat
    decreases i,
{
    if i <= 0 {
        0
    } else {
        total_len(charts, proj, i - 1) + proj(charts[i - 1]).len()
    }
}

/// The merged collection holds exactly as many elements as all the input
/// collections together: merging drops and duplicates nothing.
pub proof fn lemma_merged_len<T: Timed>(
    charts: Seq<BeatmapModel>,
    gaps: Seq<int>,
    proj: spec_fn(BeatmapModel) -> Seq<T>,
    i: int,
)
    ensures
        merged_upto(charts, gaps, proj, i).len() == total_len(charts, proj, i),
    decreases i,
{
    if i > 1 {
        lemma_merged_len(charts, gaps, proj, i - 1);
    } else if i == 1 {
        assert(total_len(charts, proj, 0) == 0);
        assert(merged_upto(charts, gaps, proj, 1) == proj(charts[0]));
    }
}

/// What one timed collection of a merge's result holds: exactly the merged
/// elements (as a multiset — sorting reorders, drops and duplicates
/// nothing), in order of non-decreasing time, as many as all the inputs
/// together.
pub open spec fn collection_ok<T: Timed>(
    charts: Seq<BeatmapModel>,
    gaps: Seq<int>,
    proj: spec_fn(BeatmapModel) -> Seq<T>,
    out: Seq<T>,
) -> bool {
    &&& out.to_multiset() == merged_seq(charts, gaps, proj).to_multiset()
    &&& sorted_by_time(out)
    &&& out.len() == total_len(charts, proj, charts.len() as int)
}

/// The full contract of a merge of two or more beatmaps: all five timed
/// collections merged, sorted and complete, and the label rewritten as
/// `"<first label> Marathon (<count> maps)"`.
pub open spec fn merge_result_ok(
    charts: Seq<BeatmapModel>,
    gaps: Seq<int>,
    r: BeatmapModel,
) -> bool {
    &&& collection_ok(charts, gaps, hit_objects_of(), r.hit_objects)
    &&& collection_ok(charts, gaps, timing_points_of(), r.timing_points)
    &&& collection_ok(charts, gaps, effect_points_of(), r.effect_points)
    &&& collection_ok(charts, gaps, difficulty_points_of(), r.difficulty_points)
    &&& collection_ok(charts, gaps, sample_points_of(), r.sample_points)
    &&& r.version == marathon_label(charts[0].version, charts.len() as nat)
}

/// Appends to `dst` a copy of every element of `src` with its time shifted
/// by `off`; `src` is left untouched.
fn append_shifted<T: Timed>(dst: &mut Vec<T>, src: &Vec<T>, off: i64)
    requires
        seq_shift_fits(src@, off as int),
    ensures
        final(dst)@ == old(dst)@ + shifted_seq(src@, off as int),
{
    let n = src.len();
    let mut k: usize = 0;
    while k < n
        invariant
            0 <= k <= n,
            n == src@.len(),
            seq_shift_fits(src@, off as int),
            dst@ == old(dst)@ + shifted_seq(src@.subrange(0, k as int), off as int),
        decreases n - k,
    {
        proof {
            assert(i64::MIN <= src@[k as int].time_of() + off <= i64::MAX);
        }
        let e = src[k].shifted(off);
        dst.push(e);
        proof {
            assert(dst@ =~= old(dst)@ + shifted_seq(src@.subrange(0, k as int + 1), off as int));
        }
        k += 1;
    }
    proof {
        assert(src@.subrange(0, n as int) =~= src@);
        assert(dst@ =~= old(dst)@ + shifted_seq(src@, off as int));
    }
}

/// The shared merge loop: seeds the result with a copy of the first beatmap,
/// appends every later beatmap's elements shifted by its accumulated offset,
/// sorts the five timed collections, and rewrites the label. A single
/// beatmap is returned as an unchanged copy.
fn merge_charts(beatmaps: &Vec<Beatmap>, gaps: &Vec<i64>) -> (r: Beatmap)
    requires
        beatmaps@.len() >= 1,
        gaps@.len() == beatmaps@.len() - 1,
        beatmaps@.len() >= 2 ==> merge_fits(models_of(beatmaps@), gaps_int(gaps@)),
    ensures
        beatmaps@.len() == 1 ==> r@ == beatmaps@[0]@,
        beatmaps@.len() >= 2 ==> merge_result_ok(models_of(beatmaps@), gaps_int(gaps@), r@),
{
    let ghost charts = models_of(beatmaps@);
    let ghost gs = gaps_int(gaps@);
    let n = beatmaps.len();
    let mut result = clone_beatmap(&beatmaps[0]);
    if n == 1 {
        return result;
    }
    proof {
        assert(charts[0] == beatmaps@[0]@);
        assert(beatmap_fits(beatmaps@[0]@));
    }
    let d0 = get_beatmap_duration(&beatmaps[0]);
    let mut acc: i128 = d0 as i128;
    let mut i: usize = 1;
    proof {
        assert(result@.hit_objects =~= merged_upto(charts, gs, hit_objects_of(), 1));
        assert(result@.timing_points =~= merged_upto(charts, gs, timing_points_of(), 1));
        assert(result@.effect_points =~= merged_upto(charts, gs, effect_points_of(), 1));
        assert(result@.difficulty_points =~= merged_upto(charts, gs, difficulty_points_of(), 1));
        assert(result@.sample_points =~= merged_upto(charts, gs, sample_points_of(), 1));
    }
    while i < n
        invariant
            1 <= i <= n,
            2 <= n == beatmaps@.len(),
            gaps@.len() == n - 1,
            charts == models_of(beatmaps@),
            gs == gaps_int(gaps@),
            merge_fits(charts, gs),
            acc == offset_at(charts, gs, i - 1) + duration_spec(charts[i - 1]),
            result@.hit_objects == merged_upto(charts, gs, hit_objects_of(), i as int),
            result@.timing_points == merged_upto(charts, gs, timing_points_of(), i as int),
            result@.effect_points == merged_upto(charts, gs, effect_points_of(), i as int),
            result@.difficulty_points == merged_upto(
                charts,
                gs,
                difficulty_points_of(),
                i as int,
            ),
            result@.sample_points == merged_upto(charts, gs, sample_points_of(), i as int),
            result@.version == charts[0].version,
        decreases n - i,
    {
        proof {
            if i - 1 >= 1 {
                assert(i64::MIN <= offset_at(charts, gs, i - 1) <= i64::MAX);
            }
            assert(beatmap_fits(charts[i - 1]));
            lemma_duration_fits(charts[i - 1]);
            assert(offset_at(charts, gs, i as int) == acc + gs[i - 1]);
            assert(gs[i - 1] == gaps@[i - 1] as int);
            assert(i64::MIN <= offset_at(charts, gs, i as int) <= i64::MAX);
        }
        let g = gaps[i - 1];
        let off128: i128 = acc + g as i128;
        let off: i64 = off128 as i64;
        proof {
            assert(off == offset_at(charts, gs, i as int));
            assert(charts[i as int] == beatmaps@[i as int]@);
            assert(shift_all_fits(charts[i as int], offset_at(charts, gs, i as int)));
        }
        let bm = &beatmaps[i];
        append_shifted(&mut result.hit_objects, &bm.hit_objects, off);
        append_shifted(&mut result.control_points.timing_points, &bm.control_points.timing_points, off);
        append_shifted(&mut result.control_points.effect_points, &bm.control_points.effect_points, off);
        append_shifted(
            &mut result.control_points.difficulty_points,
            &bm.control_points.difficulty_points,
            off,
        );
        append_shifted(&mut result.control_points.sample_points, &bm.control_points.sample_points, off);
        proof {
            assert(result@.hit_objects == merged_upto(charts, gs, hit_objects_of(), i as int)
                + shifted_seq(charts[i as int].hit_objects, offset_at(charts, gs, i as int)));
            assert(result@.hit_objects == merged_upto(charts, gs, hit_objects_of(), i as int + 1));
            assert(result@.timing_points == merged_upto(charts, gs, timing_points_of(), i as int + 1));
            assert(result@.effect_points == merged_upto(charts, gs, effect_points_of(), i as int + 1));
            assert(result@.difficulty_points == merged_upto(
                charts,
                gs,
                difficulty_points_of(),
                i as int + 1,
            ));
            assert(result@.sample_points == merged_upto(charts, gs, sample_points_of(), i as int + 1));
        }
        let di = get_beatmap_duration(bm);
        acc = off128 + di as i128;
        i += 1;
    }
    sort_by_time(&mut result.hit_objects);
    sort_by_time(&mut result.control_points.timing_points);
    sort_by_time(&mut result.control_points.effect_points);
    sort_by_time(&mut result.control_points.difficulty_points);
    sort_by_time(&mut result.control_points.sample_points);
    let label = make_marathon_label(&result.version, n);
    result.version = label;
    proof {
        lemma_merged_len(charts, gs, hit_objects_of(), n as int);
        lemma_merged_len(charts, gs, timing_points_of(), n as int);
        lemma_merged_len(charts, gs, effect_points_of(), n as int);
        lemma_merged_len(charts, gs, difficulty_points_of(), n as int);
        lemma_merged_len(charts, gs, sample_points_of(), n as int);
        vstd::seq_lib::to_multiset_len(result@.hit_objects);
        vstd::seq_lib::to_multiset_len(merged_seq(charts, gs, hit_objects_of()));
        vstd::seq_lib::to_multiset_len(result@.timing_points);
        vstd::seq_lib::to_multiset_len(merged_seq(charts, gs, timing_points_of()));
        vstd::seq_lib::to_multiset_len(result@.effect_points);
        vstd::seq_lib::to_multiset_len(merged_seq(charts, gs, effect_points_of()));
        vstd::seq_lib::to_multiset_len(result@.difficulty_points);
        vstd::seq_lib::to_multiset_len(merged_seq(charts, gs, difficulty_points_of()));
        vstd::seq_lib::to_multiset_len(result@.sample_points);
        vstd::seq_lib::to_multiset_len(merged_seq(charts, gs, sample_points_of()));
    }
    result
}

/// Concatenates the beatmaps into one marathon beatmap, separating every
/// consecutive pair by `gap_ms` milliseconds of silence (0 if not supplied).
///
/// Each beatmap after the first is shifted by the durations of the beatmaps
/// before it plus one gap per pair; the five timed collections of the result
/// are sorted by time, and the label of a merge of two or more beatmaps
/// becomes `"<first label> Marathon (<count> maps)"`. A single beatmap is
/// returned as an unchanged copy; no beatmaps at all is refused with
/// `EmptyInput`. The inputs are never changed.
pub fn concat_beatmaps(beatmaps: Vec<Beatmap>, gap_ms: Option<i64>) -> (r: Result<
    Beatmap,
    MergeError,
>)
    requires
        beatmaps@.len() >= 2 ==> merge_fits(
            models_of(beatmaps@),
            uniform_gaps((beatmaps@.len() - 1) as nat, gap_value(gap_ms)),
        ),
    ensures
        r is Err <==> beatmaps@.len() == 0,
        beatmaps@.len() == 0 ==> r == Result::<Beatmap, MergeError>::Err(MergeError::EmptyInput),
        beatmaps@.len() == 1 ==> r is Ok && r->Ok_0@ == beatmaps@[0]@,
        beatmaps@.len() >= 2 ==> r is Ok && merge_result_ok(
            models_of(beatmaps@),
            uniform_gaps((beatmaps@.len() - 1) as nat, gap_value(gap_ms)),
            r->Ok_0@,
        ),
{
    if beatmaps.len() == 0 {
        return Err(MergeError::EmptyInput);
    }
    let n = beatmaps.len();
    let g: i64 = match gap_ms {
        Some(v) => v,
        None => 0,
    };
    let mut gaps: Vec<i64> = Vec::new();
    let mut k: usize = 0;
    while k < n - 1
        invariant
            0 <= k <= n - 1,
            n == beatmaps@.len(),
            1 <= n,
            g == gap_value(gap_ms),
            gaps@.len() == k,
            forall|m: int| 0 <= m < k ==> gaps@[m] == g,
        decreases n - 1 - k,
    {
        gaps.push(g);
        k += 1;
    }
    proof {
        assert(gaps_int(gaps@) =~= uniform_gaps((beatmaps@.len() - 1) as nat, gap_value(gap_ms)));
    }
    let merged = merge_charts(&beatmaps, &gaps);
    Ok(merged)
}

/// The transition count matches: either no transitions were supplied, or
/// exactly one per consecutive pair of beatmaps.
pub open spec fn transitions_ok(n: int, transitions: Option<Vec<i64>>) -> bool {
    match transitions {
        Option::Some(ts) => ts@.len() == n - 1,
        Option::None => true,
    }
}

/// The gaps a transition merge uses: the supplied transitions, or one zero
/// gap per consecutive pair.
pub open spec fn transition_gaps(n: int, transitions: Option<Vec<i64>>) -> Seq<int> {
    match transitions {
        Option::Some(ts) => gaps_int(ts@),
        Option::None => Seq::new((n - 1) as nat, |i: int| 0),
    }
}

/// Concatenates the beatmaps into one marathon beatmap with an explicit
/// transition gap per consecutive pair (all zero if not supplied).
///
/// As with a uniform-gap merge, each beatmap after the first is shifted by
/// the durations of the beatmaps before it plus the transitions before it,
/// the five timed collections of the result are sorted by time, and the
/// label of a merge of two or more beatmaps becomes
/// `"<first label> Marathon (<count> maps)"`. A single beatmap is returned
/// as an unchanged copy. No beatmaps at all is refused with `EmptyInput`; a
/// transition sequence whose length is not exactly one less than the number
/// of beatmaps is refused with `TransitionCountMismatch`. The inputs are
/// never changed.
pub fn concat_beatmaps_with_transitions(
    beatmaps: Vec<Beatmap>,
    transitions: Option<Vec<i64>>,
) -> (r: Result<Beatmap, MergeError>)
    requires
        (beatmaps@.len() >= 2 && transitions_ok(beatmaps@.len() as int, transitions))
            ==> merge_fits(
            models_of(beatmaps@),
            transition_gaps(beatmaps@.len() as int, transitions),
        ),
    ensures
        beatmaps@.len() == 0 ==> r == Result::<Beatmap, MergeError>::Err(MergeError::EmptyInput),
        beatmaps@.len() > 0 && !transitions_ok(beatmaps@.len() as int, transitions) ==> r
            == Result::<Beatmap, MergeError>::Err(MergeError::TransitionCountMismatch),
        r is Ok <==> beatmaps@.len() > 0 && transitions_ok(beatmaps@.len() as int, transitions),
        beatmaps@.len() == 1 && transitions_ok(1, transitions) ==> r is Ok && r->Ok_0@
            == beatmaps@[0]@,
        beatmaps@.len() >= 2 && transitions_ok(beatmaps@.len() as int, transitions) ==> r is Ok
            && merge_result_ok(
            models_of(beatmaps@),
            transition_gaps(beatmaps@.len() as int, transitions),
            r->Ok_0@,
        ),
{
    if beatmaps.len() == 0 {
        return Err(MergeError::EmptyInput);
    }
    let n = beatmaps.len();
    let gaps: Vec<i64> = match transitions {
        Some(ts) => {
            if ts.len() != n - 1 {
                return Err(MergeError::TransitionCountMismatch);
            }
            ts
        },
        None => {
            let mut zs: Vec<i64> = Vec::new();
            let mut k: usize = 0;
            while k < n - 1
                invariant
                    0 <= k <= n - 1,
                    1 <= n,
                    zs@.len() == k,
                    forall|m: int| 0 <= m < k ==> zs@[m] == 0,
                decreases n - 1 - k,
            {
                zs.push(0);
                k += 1;
            }
            zs
        },
    };
    proof {
        assert(gaps_int(gaps@) =~= transition_gaps(beatmaps@.len() as int, transitions));
    }
    let merged = merge_charts(&beatmaps, &gaps);
    Ok(merged)
}

} // verus!
