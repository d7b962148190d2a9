use beatgrid::model::{mouse_pressed, update, Model, TickAction};
use beatgrid::scenes::{Area, Rule, Scene};

fn wide_box() -> Vec<Area> {
    vec![Area { x0: -100, y0: -100, x1: 100, y1: 100 }]
}

fn scene(measures: usize, loop_: bool) -> Scene {
    Scene { path: "/fa/1.mp3", loop_, measures, boxes: wide_box(), render: Rule::NoiseStrokes }
}

fn tracker(scenes: Vec<Scene>) -> Model {
    Model::with_scenes(scenes).expect("valid playlist")
}

#[test]
fn measures_14_wrap_sequence() {
    // Phases 0.1, 0.9, 0.05 in fixed point: the measure increments exactly
    // at the 0.9 -> 0.05 transition.
    let mut m = tracker(vec![scene(14, true)]);
    assert_eq!(update(&mut m, 6554), TickAction::Stay);
    assert_eq!(m.current_measure, 0);
    assert_eq!(update(&mut m, 58982), TickAction::Stay);
    assert_eq!(m.current_measure, 0);
    assert_eq!(update(&mut m, 3277), TickAction::Stay);
    assert_eq!(m.current_measure, 1);
    assert_eq!(m.last_whole, 3277);
}

#[test]
fn no_wrap_no_increment() {
    let mut m = tracker(vec![scene(4, true)]);
    for phase in [0, 1000, 20000, 20000, 40000, 65535] {
        assert_eq!(update(&mut m, phase), TickAction::Stay);
        assert_eq!(m.current_measure, 0);
        assert_eq!(m.current_scene, 0);
        assert_eq!(m.last_whole, phase);
    }
}

#[test]
fn wrap_counts_one_measure_each() {
    let mut m = tracker(vec![scene(100, true)]);
    for round in 1..=5u32 {
        update(&mut m, 60000);
        update(&mut m, 100);
        assert_eq!(m.current_measure, round as usize);
    }
}

#[test]
fn completion_switches_scene() {
    let mut m = tracker(vec![scene(1, false), scene(2, true), scene(3, true)]);
    assert_eq!(update(&mut m, 60000), TickAction::Stay);
    let action = update(&mut m, 5);
    assert_eq!(action, TickAction::Switch { preload: Some(2) });
    assert_eq!(m.current_scene, 1);
    assert_eq!(m.current_measure, 0);
    assert_eq!(m.last_whole, 0);
    assert_eq!(m.current_element, 1);
    assert!(!m.queue_next);
}

#[test]
fn measure_and_phase_reset_on_transition() {
    let mut m = tracker(vec![scene(2, false), scene(2, true)]);
    update(&mut m, 60000);
    update(&mut m, 5); // first measure wraps: 0 -> 1, no switch yet
    assert_eq!(m.current_measure, 1);
    assert!(!m.queue_next);
    update(&mut m, 60000);
    let action = update(&mut m, 5); // last measure completes: switch now
    assert_eq!(action, TickAction::Switch { preload: None });
    assert_eq!(m.current_scene, 1);
    assert_eq!(m.current_measure, 0);
    assert_eq!(m.last_whole, 0);
}

#[test]
fn advance_past_last_scene_is_noop() {
    let mut m = tracker(vec![scene(1, false)]);
    update(&mut m, 60000);
    let action = update(&mut m, 5);
    assert_eq!(action, TickAction::Stay);
    assert_eq!(m.current_scene, 0);
    assert_eq!(m.current_measure, 0);
    assert!(!m.queue_next);
    assert_eq!(m.current_element, 0);
}

#[test]
fn looping_scene_never_queues() {
    let mut m = tracker(vec![scene(2, true), scene(2, true)]);
    for _ in 0..6 {
        update(&mut m, 60000);
        update(&mut m, 5);
    }
    assert_eq!(m.current_scene, 0);
    assert!(!m.queue_next);
}

#[test]
fn click_sets_pending() {
    let mut m = tracker(vec![scene(8, true)]);
    mouse_pressed(&mut m, 0, 0);
    assert!(m.queue_next);
}

#[test]
fn click_outside_leaves_pending_clear() {
    let mut m = tracker(vec![scene(8, true)]);
    mouse_pressed(&mut m, 150, 0);
    assert!(!m.queue_next);
    mouse_pressed(&mut m, 100, 0); // the border itself is outside
    assert!(!m.queue_next);
}

#[test]
fn click_sets_pending_at_any_phase() {
    for phase in [0u32, 12345, 65535] {
        let mut m = tracker(vec![scene(8, true)]);
        update(&mut m, phase);
        mouse_pressed(&mut m, -99, 99);
        assert!(m.queue_next);
    }
}

#[test]
fn click_then_wrap_switches() {
    let mut m = tracker(vec![scene(8, true), scene(4, true)]);
    mouse_pressed(&mut m, 0, 0);
    // Ascending phases keep the advance queued without firing it.
    update(&mut m, 10000);
    update(&mut m, 50000);
    assert!(m.queue_next);
    assert_eq!(m.current_scene, 0);
    // The next wraparound consumes it.
    let action = update(&mut m, 100);
    assert_eq!(action, TickAction::Switch { preload: None });
    assert_eq!(m.current_scene, 1);
    assert_eq!(m.current_measure, 0);
    assert_eq!(m.last_whole, 0);
}

#[test]
fn slot_alternates_on_switches() {
    let mut m = tracker(vec![scene(1, false), scene(1, false), scene(1, false)]);
    update(&mut m, 60000);
    let a1 = update(&mut m, 5);
    assert_eq!(a1, TickAction::Switch { preload: Some(2) });
    assert_eq!(m.current_element, 1);
    update(&mut m, 60000);
    let a2 = update(&mut m, 5);
    assert_eq!(a2, TickAction::Switch { preload: None });
    assert_eq!(m.current_element, 0);
    assert_eq!(m.current_scene, 2);
}

#[test]
fn with_scenes_rejects_bad_playlists() {
    assert!(Model::with_scenes(vec![]).is_none());
    assert!(Model::with_scenes(vec![scene(0, true)]).is_none());
    let no_boxes =
        Scene { path: "/fa/1.mp3", loop_: true, measures: 4, boxes: vec![], render: Rule::NoiseStrokes };
    assert!(Model::with_scenes(vec![no_boxes]).is_none());
}

#[test]
fn new_model_starts_at_origin() {
    let m = Model::new();
    assert_eq!(m.current_scene, 0);
    assert_eq!(m.current_measure, 0);
    assert_eq!(m.last_whole, 0);
    assert_eq!(m.current_element, 0);
    assert!(!m.queue_next);
    assert_eq!(m.scaling, 40);
}
