use marathon::{
    concat_beatmaps, concat_beatmaps_with_transitions, get_beatmap_duration, Beatmap,
    ControlPoint, ControlPoints, HitObject, HitObjectKind, MergeError,
};

fn empty_control_points() -> ControlPoints {
    ControlPoints {
        timing_points: Vec::new(),
        effect_points: Vec::new(),
        difficulty_points: Vec::new(),
        sample_points: Vec::new(),
    }
}

fn chart(label: &str, hits: Vec<HitObject>) -> Beatmap {
    Beatmap {
        version: String::from(label),
        hit_objects: hits,
        control_points: empty_control_points(),
    }
}

fn instant(start_time: i64, payload: u64) -> HitObject {
    HitObject {
        start_time,
        kind: HitObjectKind::Instant,
        payload,
    }
}

fn hold(start_time: i64, duration: i64, payload: u64) -> HitObject {
    HitObject {
        start_time,
        kind: HitObjectKind::Hold { duration },
        payload,
    }
}

fn cp(time: i64, payload: u64) -> ControlPoint {
    ControlPoint { time, payload }
}

#[test]
fn duration_of_sustained_hit() {
    let b = chart("A", vec![hold(500, 300, 0)]);
    assert_eq!(get_beatmap_duration(&b), 800);
}

#[test]
fn duration_of_empty_chart() {
    let b = chart("A", Vec::new());
    assert_eq!(get_beatmap_duration(&b), 0);
}

#[test]
fn duration_takes_maximum_end_time() {
    let b = chart("A", vec![instant(900, 0), hold(400, 300, 1), instant(100, 2)]);
    assert_eq!(get_beatmap_duration(&b), 900);
    let c = chart("A", vec![instant(900, 0), hold(800, 300, 1)]);
    assert_eq!(get_beatmap_duration(&c), 1100);
}

#[test]
fn duration_of_negative_only_chart_is_negative() {
    let b = chart("A", vec![instant(-100, 0), instant(-400, 1)]);
    assert_eq!(get_beatmap_duration(&b), -100);
}

#[test]
fn empty_input_is_refused() {
    assert_eq!(
        concat_beatmaps(Vec::new(), None),
        Err(MergeError::EmptyInput)
    );
    assert_eq!(
        concat_beatmaps_with_transitions(Vec::new(), None),
        Err(MergeError::EmptyInput)
    );
}

#[test]
fn transition_count_mismatch_is_refused() {
    let maps = vec![
        chart("A", vec![instant(0, 0)]),
        chart("B", vec![instant(0, 1)]),
        chart("C", vec![instant(0, 2)]),
    ];
    let r = concat_beatmaps_with_transitions(maps, Some(vec![100]));
    assert_eq!(r, Err(MergeError::TransitionCountMismatch));
}

#[test]
fn transition_count_match_succeeds() {
    let maps = vec![
        chart("A", vec![instant(0, 0)]),
        chart("B", vec![instant(0, 1)]),
        chart("C", vec![instant(0, 2)]),
    ];
    let r = concat_beatmaps_with_transitions(maps, Some(vec![100, 200]));
    assert!(r.is_ok());
}

#[test]
fn single_chart_gap_merge_is_unchanged() {
    let b = chart("Solo", vec![instant(10, 0), hold(20, 5, 1)]);
    let r = concat_beatmaps(vec![b.clone()], Some(500)).unwrap();
    assert_eq!(r, b);
}

#[test]
fn single_chart_transition_merge_is_unchanged() {
    let b = chart("Solo", vec![instant(10, 0)]);
    let r = concat_beatmaps_with_transitions(vec![b.clone()], None).unwrap();
    assert_eq!(r, b);
    let r2 = concat_beatmaps_with_transitions(vec![b.clone()], Some(Vec::new())).unwrap();
    assert_eq!(r2, b);
}

#[test]
fn single_chart_with_nonempty_transitions_is_refused() {
    let b = chart("Solo", vec![instant(10, 0)]);
    let r = concat_beatmaps_with_transitions(vec![b], Some(vec![100]));
    assert_eq!(r, Err(MergeError::TransitionCountMismatch));
}

#[test]
fn two_charts_zero_gap() {
    let a = chart("A", vec![instant(1000, 0)]);
    let b = chart("B", vec![instant(0, 1)]);
    let r = concat_beatmaps(vec![a, b], Some(0)).unwrap();
    let times: Vec<i64> = r.hit_objects.iter().map(|h| h.start_time).collect();
    assert_eq!(times, vec![1000, 1000]);
    assert_eq!(r.version, "A Marathon (2 maps)");
}

#[test]
fn two_charts_gap_shifts_by_duration_plus_gap() {
    let a = chart("A", vec![instant(1000, 0)]);
    let b = chart("B", vec![instant(0, 1), instant(250, 2)]);
    let r = concat_beatmaps(vec![a, b], Some(500)).unwrap();
    let times: Vec<i64> = r.hit_objects.iter().map(|h| h.start_time).collect();
    assert_eq!(times, vec![1000, 1500, 1750]);
}

#[test]
fn default_gap_is_zero() {
    let a = chart("A", vec![instant(1000, 0)]);
    let b = chart("B", vec![instant(0, 1)]);
    let r = concat_beatmaps(vec![a, b], None).unwrap();
    let times: Vec<i64> = r.hit_objects.iter().map(|h| h.start_time).collect();
    assert_eq!(times, vec![1000, 1000]);
}

#[test]
fn transitions_are_added_before_shifting() {
    let a = chart("A", vec![hold(600, 400, 0)]);
    let b = chart("B", vec![instant(0, 1)]);
    let c = chart("C", vec![instant(0, 2)]);
    // duration(A) = 1000, so B is shifted by 1000 + 100 = 1100; B's own
    // duration is 0, so C is shifted by 1100 + 0 + 200 = 1300.
    let r = concat_beatmaps_with_transitions(vec![a, b, c], Some(vec![100, 200])).unwrap();
    let times: Vec<i64> = r.hit_objects.iter().map(|h| h.start_time).collect();
    assert_eq!(times, vec![600, 1100, 1300]);
}

#[test]
fn default_transitions_are_zero() {
    let a = chart("A", vec![instant(300, 0)]);
    let b = chart("B", vec![instant(0, 1)]);
    let r = concat_beatmaps_with_transitions(vec![a, b], None).unwrap();
    let times: Vec<i64> = r.hit_objects.iter().map(|h| h.start_time).collect();
    assert_eq!(times, vec![300, 300]);
}

#[test]
fn element_counts_are_preserved() {
    let mut a = chart("A", vec![instant(0, 0), instant(50, 1)]);
    a.control_points.timing_points = vec![cp(0, 10), cp(30, 11)];
    a.control_points.effect_points = vec![cp(5, 12)];
    a.control_points.difficulty_points = vec![cp(7, 13)];
    a.control_points.sample_points = vec![cp(9, 14), cp(11, 15), cp(13, 16)];
    let mut b = chart("B", vec![instant(0, 2)]);
    b.control_points.timing_points = vec![cp(0, 20)];
    b.control_points.sample_points = vec![cp(2, 21)];
    let r = concat_beatmaps(vec![a, b], Some(10)).unwrap();
    assert_eq!(r.hit_objects.len(), 3);
    assert_eq!(r.control_points.timing_points.len(), 3);
    assert_eq!(r.control_points.effect_points.len(), 1);
    assert_eq!(r.control_points.difficulty_points.len(), 1);
    assert_eq!(r.control_points.sample_points.len(), 4);
}

#[test]
fn control_points_are_shifted_and_sorted() {
    let mut a = chart("A", vec![instant(1000, 0)]);
    a.control_points.timing_points = vec![cp(0, 10), cp(900, 11)];
    let mut b = chart("B", vec![instant(0, 1)]);
    b.control_points.timing_points = vec![cp(0, 20), cp(500, 21)];
    // duration(A) = 1000, gap 0: B's points land at 1000 and 1500.
    let r = concat_beatmaps(vec![a, b], None).unwrap();
    let times: Vec<i64> = r.control_points.timing_points.iter().map(|p| p.time).collect();
    assert_eq!(times, vec![0, 900, 1000, 1500]);
    let payloads: Vec<u64> = r
        .control_points
        .timing_points
        .iter()
        .map(|p| p.payload)
        .collect();
    assert_eq!(payloads, vec![10, 11, 20, 21]);
}

#[test]
fn result_collections_are_sorted() {
    // The second chart's elements start earlier than the first chart ends
    // after shifting by a negative-duration first chart.
    let a = chart("A", vec![instant(500, 0), instant(100, 1)]);
    let b = chart("B", vec![instant(0, 2), instant(-600, 3)]);
    let r = concat_beatmaps(vec![a, b], Some(0)).unwrap();
    let times: Vec<i64> = r.hit_objects.iter().map(|h| h.start_time).collect();
    let mut sorted = times.clone();
    sorted.sort();
    assert_eq!(times, sorted);
    assert_eq!(times, vec![-100, 100, 500, 500]);
}

#[test]
fn hold_durations_and_payloads_survive_the_shift() {
    let a = chart("A", vec![instant(1000, 7)]);
    let b = chart("B", vec![hold(0, 250, 9)]);
    let r = concat_beatmaps(vec![a, b], Some(0)).unwrap();
    let shifted = r.hit_objects.iter().find(|h| h.payload == 9).unwrap();
    assert_eq!(shifted.start_time, 1000);
    assert_eq!(shifted.kind, HitObjectKind::Hold { duration: 250 });
    let kept = r.hit_objects.iter().find(|h| h.payload == 7).unwrap();
    assert_eq!(kept.kind, HitObjectKind::Instant);
}

#[test]
fn label_counts_all_charts() {
    let mut maps = Vec::new();
    for i in 0..12 {
        maps.push(chart("Base", vec![instant(i * 10, i as u64)]));
    }
    let r = concat_beatmaps(maps, None).unwrap();
    assert_eq!(r.version, "Base Marathon (12 maps)");
}

#[test]
fn transition_merge_rewrites_label_too() {
    let a = chart("X", vec![instant(0, 0)]);
    let b = chart("Y", vec![instant(0, 1)]);
    let r = concat_beatmaps_with_transitions(vec![a, b], None).unwrap();
    assert_eq!(r.version, "X Marathon (2 maps)");
}

#[test]
fn inputs_are_not_mutated() {
    let a = chart("A", vec![instant(1000, 0)]);
    let b = chart("B", vec![instant(0, 1)]);
    let a_copy = a.clone();
    let b_copy = b.clone();
    let _ = concat_beatmaps(vec![a.clone(), b.clone()], Some(50)).unwrap();
    assert_eq!(a, a_copy);
    assert_eq!(b, b_copy);
}
