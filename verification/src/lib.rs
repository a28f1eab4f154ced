//! Merging of rhythm-game charts ("beatmaps") into a single marathon chart.
//!
//! A beatmap holds a display label, a sequence of timed hit objects, and four
//! sequences of timed control points. The merge operations concatenate several
//! beatmaps back to back: every timed element of each subsequent beatmap is
//! shifted by an accumulated offset (the durations of the beatmaps before it,
//! plus the configured gaps), the shifted elements are appended to a copy of
//! the first beatmap, each timed collection is sorted by time, and the label
//! is rewritten to mark the result as a marathon.

pub mod beatmap;
pub mod label;
pub mod merge;
pub mod sorting;

pub use beatmap::{Beatmap, BeatmapModel, ControlPoint, ControlPoints, HitObject, HitObjectKind};
pub use beatmap::{clone_beatmap, get_beatmap_duration, Timed};
pub use merge::{concat_beatmaps, concat_beatmaps_with_transitions, MergeError};
