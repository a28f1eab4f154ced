//! The data model: beatmaps, hit objects, control points, and the duration
//! calculator.
//!
//! Times are integer milliseconds. Every timed element carries, besides its
//! time field, a `payload`: an opaque identifier under which the caller keeps
//! whatever untimed data (position, samples, tempo, scroll speed, ...) belongs
//! to the element. The merge operations never read or change a payload, which
//! is how the contracts state that merging touches nothing but time fields.

use vstd::prelude::*;

verus! {

/// The kind of a hit object: instantaneous, or sustained (a hold note) with a
/// duration in milliseconds counted from its start time.
#[derive(Clone, Copy, Debug, PartialEq, Eq)]
pub enum HitObjectKind {
    Instant,
    Hold { duration: i64 },
}

/// A timed gameplay event of a beatmap.
#[derive(Clone, Copy, Debug, PartialEq, Eq)]
pub struct HitObject {
    /// Start time in milliseconds.
    pub start_time: i64,
    /// Instantaneous or sustained.
    pub kind: HitObjectKind,
    /// The caller's identifier for the element's untimed data.
    pub payload: u64,
}

/// One entry of a timed control sequence (tempo, effect, difficulty or sample
/// control): a time in milliseconds plus the caller's payload identifier.
#[derive(Clone, Copy, Debug, PartialEq, Eq)]
pub struct ControlPoint {
    /// Time in milliseconds.
    pub time: i64,
    /// The caller's identifier for the entry's untimed data.
    pub payload: u64,
}

/// The four independent timed control sequences of a beatmap.
#[derive(Clone, Debug, PartialEq)]
pub struct ControlPoints {
    pub timing_points: Vec<ControlPoint>,
    pub effect_points: Vec<ControlPoint>,
    pub difficulty_points: Vec<ControlPoint>,
    pub sample_points: Vec<ControlPoint>,
}

/// A chart: a display label, hit objects, and control point sequences.
#[derive(Clone, Debug, PartialEq)]
pub struct Beatmap {
    /// The display-name / version label.
    pub version: String,
    pub hit_objects: Vec<HitObject>,
    pub control_points: ControlPoints,
}

/// The mathematical content of a beatmap: the label as a character sequence
/// and the five timed collections as sequences. Two beatmaps with the same
/// model are the same chart, whatever their allocation identity.
#[verifier::ext_equal]
pub struct BeatmapModel {
    pub version: Seq<char>,
    pub hit_objects: Seq<HitObject>,
    pub timing_points: Seq<ControlPoint>,
    pub effect_points: Seq<ControlPoint>,
    pub difficulty_points: Seq<ControlPoint>,
    pub sample_points: Seq<ControlPoint>,
}

impl View for Beatmap {
    type V = BeatmapModel;

    open spec fn view(&self) -> BeatmapModel {
        BeatmapModel {
            version: self.version@,
            hit_objects: self.hit_objects@,
            timing_points: self.control_points.timing_points@,
            effect_points: self.control_points.effect_points@,
            difficulty_points: self.control_points.difficulty_points@,
            sample_points: self.control_points.sample_points@,
        }
    }
}

/// The models of a sequence of beatmaps, element for element.
pub open spec fn models_of(s: Seq<Beatmap>) -> Seq<BeatmapModel> {
    s.map(|i: int, b: Beatmap| b@)
}

/// A timed element: it exposes its time as a mathematical integer, and can be
/// shifted, which changes the time field and nothing else.
pub trait Timed: Sized + Copy {
    /// The element's time in milliseconds.
    spec fn time_of(self) -> int;

    /// The element with its time field replaced by `time + off`, every other
    /// field unchanged.
    spec fn shift_spec(self, off: int) -> Self;

    proof fn lemma_shift_time(self, off: int)
        requires
            i64::MIN <= self.time_of() + off <= i64::MAX,
        ensures
            self.shift_spec(off).time_of() == self.time_of() + off,
    ;

    fn time_val(&self) -> (t: i64)
        ensures
            t == self.time_of(),
    ;

    fn shifted(&self, off: i64) -> (r: Self)
        requires
            i64::MIN <= self.time_of() + off <= i64::MAX,
        ensures
            r == self.shift_spec(off as int),
    ;
}

impl Timed for HitObject {
    open spec fn time_of(self) -> int {
        self.start_time as int
    }

    open spec fn shift_spec(self, off: int) -> Self {
        HitObject {
            start_time: (self.start_time + off) as i64,
            kind: self.kind,
            payload: self.payload,
        }
    }

    proof fn lemma_shift_time(self, off: int) {
    }

    fn time_val(&self) -> i64 {
        self.start_time
    }

    fn shifted(&self, off: i64) -> Self {
        HitObject { start_time: self.start_time + off, kind: self.kind, payload: self.payload }
    }
}

impl Timed for ControlPoint {
    open spec fn time_of(self) -> int {
        self.time as int
    }

    open spec fn shift_spec(self, off: int) -> Self {
        ControlPoint { time: (self.time + off) as i64, payload: self.payload }
    }

    proof fn lemma_shift_time(self, off: int) {
    }

    fn time_val(&self) -> i64 {
        self.time
    }

    fn shifted(&self, off: i64) -> Self {
        ControlPoint { time: self.time + off, payload: self.payload }
    }
}

/// The effective end time of a hit object: its start time for instantaneous
/// objects, start time plus sustain duration for hold objects.
pub open spec fn object_end(o: HitObject) -> int {
    match o.kind {
        HitObjectKind::Hold { duration } => o.start_time + duration,
        HitObjectKind::Instant => o.start_time as int,
    }
}

/// The maximum effective end time over `s[0..i]`; meaningful for `1 <= i`.
pub open spec fn max_end_upto(s: Seq<HitObject>, i: int) -> int
    decreases i,
{
    if i <= 1 {
        object_end(s[0])
    } else if max_end_upto(s, i - 1) >= object_end(s[i - 1]) {
        max_end_upto(s, i - 1)
    } else {
        object_end(s[i - 1])
    }
}

/// The playable duration of a beatmap: the maximum effective end time over
/// its hit objects, or 0 if it has none. There is no floor at zero: a beatmap
/// whose objects all end at negative times has a negative duration.
pub open spec fn duration_spec(m: BeatmapModel) -> int {
    if m.hit_objects.len() == 0 {
        0
    } else {
        max_end_upto(m.hit_objects, m.hit_objects.len() as int)
    }
}

/// Every effective end time of the beatmap's hit objects is representable as
/// an `i64` (only a hold's `start_time + duration` could fall outside).
pub open spec fn beatmap_fits(m: BeatmapModel) -> bool {
    forall|j: int|
        0 <= j < m.hit_objects.len() ==> i64::MIN <= object_end(#[trigger] m.hit_objects[j])
            <= i64::MAX
}

/// The duration of a beatmap lies between the `i64` bounds whenever every
/// object's end time does.
pub proof fn lemma_duration_fits(m: BeatmapModel)
    requires
        beatmap_fits(m),
    ensures
        i64::MIN <= duration_spec(m) <= i64::MAX,
{
    if m.hit_objects.len() > 0 {
        lemma_max_end_fits(m.hit_objects, m.hit_objects.len() as int);
    }
}

proof fn lemma_max_end_fits(s: Seq<HitObject>, i: int)
    requires
        1 <= i <= s.len(),
        forall|j: int| 0 <= j < s.len() ==> i64::MIN <= object_end(#[trigger] s[j]) <= i64::MAX,
    ensures
        i64::MIN <= max_end_upto(s, i) <= i64::MAX,
    decreases i,
{
    if i > 1 {
        lemma_max_end_fits(s, i - 1);
    }
}

/// Computes the playable duration of a beatmap in milliseconds: the maximum
/// effective end time over its hit objects (start time, or start time plus
/// sustain duration for hold objects), or 0 for a beatmap without hit objects.
pub fn get_beatmap_duration(beatmap: &Beatmap) -> (d: i64)
    requires
        beatmap_fits(beatmap@),
    ensures
        d == duration_spec(beatmap@),
{
    let n = beatmap.hit_objects.len();
    if n == 0 {
        return 0;
    }
    proof {
        assert(i64::MIN <= object_end(beatmap@.hit_objects[0]) <= i64::MAX);
    }
    let mut best = object_end_val(&beatmap.hit_objects[0]);
    let mut i: usize = 1;
    while i < n
        invariant
            1 <= i <= n,
            n == beatmap.hit_objects@.len(),
            beatmap_fits(beatmap@),
            best == max_end_upto(beatmap.hit_objects@, i as int),
        decreases n - i,
    {
        proof {
            assert(i64::MIN <= object_end(beatmap@.hit_objects[i as int]) <= i64::MAX);
        }
        let end = object_end_val(&beatmap.hit_objects[i]);
        if end > best {
            best = end;
        }
        i += 1;
    }
    best
}

fn object_end_val(o: &HitObject) -> (e: i64)
    requires
        i64::MIN <= object_end(*o) <= i64::MAX,
    ensures
        e == object_end(*o),
{
    match o.kind {
        HitObjectKind::Hold { duration } => o.start_time + duration,
        HitObjectKind::Instant => o.start_time,
    }
}

/// An element-for-element copy of a vector of timed elements.
pub fn copy_elements<T: Timed>(v: &Vec<T>) -> (r: Vec<T>)
    ensures
        r@ == v@,
{
    let mut r: Vec<T> = Vec::new();
    let n = v.len();
    let mut i: usize = 0;
    while i < n
        invariant
            0 <= i <= n,
            n == v@.len(),
            r@ == v@.subrange(0, i as int),
        decreases n - i,
    {
        r.push(v[i]);
        proof {
            assert(r@ =~= v@.subrange(0, i as int + 1));
        }
        i += 1;
    }
    proof {
        assert(r@ =~= v@);
    }
    r
}

/// A deep copy of a beatmap; the caller's input is left untouched.
pub fn clone_beatmap(b: &Beatmap) -> (r: Beatmap)
    ensures
        r@ == b@,
{
    let r = Beatmap {
        version: b.version.clone(),
        hit_objects: copy_elements(&b.hit_objects),
        control_points: ControlPoints {
            timing_points: copy_elements(&b.control_points.timing_points),
            effect_points: copy_elements(&b.control_points.effect_points),
            difficulty_points: copy_elements(&b.control_points.difficulty_points),
            sample_points: copy_elements(&b.control_points.sample_points),
        },
    };
    proof {
        assert(r@ =~= b@);
    }
    r
}

} // verus!
