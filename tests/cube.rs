use spinning_cube::angle::{advance_angle, wrap_angle, FULL_TURN};
use spinning_cube::clock::{nanos_from_parts, FrameClock};
use spinning_cube::geometry::{cube_indices, cube_vertices, Vertex, INDEX_COUNT, VERTEX_COUNT};
use spinning_cube::render_loop::{stops_loop, FrameLoop, InputEvent, Key, Phase};

const SECOND: u64 = 1_000_000_000;
const DEGREE: u64 = 1_000_000_000;

#[test]
fn vertex_new_appends_w() {
    let v = Vertex::new([-1, 1, -1], [1, 0]);
    assert_eq!(v.pos, [-1, 1, -1, 1]);
    assert_eq!(v.uv, [1, 0]);
}

#[test]
fn cube_has_24_vertices_on_unit_corners() {
    let vs = cube_vertices();
    assert_eq!(vs.len(), VERTEX_COUNT);
    for v in &vs {
        for c in 0..3 {
            assert!(v.pos[c] == 1 || v.pos[c] == -1);
        }
        assert_eq!(v.pos[3], 1);
        assert!(v.uv[0] == 0 || v.uv[0] == 1);
        assert!(v.uv[1] == 0 || v.uv[1] == 1);
    }
    assert_eq!(vs[4].pos, [-1, 1, -1, 1]);
    assert_eq!(vs[4].uv, [1, 0]);
    assert_eq!(vs[23].pos, [1, -1, -1, 1]);
    assert_eq!(vs[23].uv, [0, 1]);
}

#[test]
fn cube_indices_are_whole_valid_triangles() {
    let idx = cube_indices();
    assert_eq!(idx.len(), INDEX_COUNT);
    assert_eq!(idx.len() % 3, 0);
    assert!(idx.iter().all(|&i| (i as usize) < VERTEX_COUNT));
    assert_eq!(&idx[0..6], &[0, 1, 2, 2, 3, 0]);
    assert_eq!(&idx[30..36], &[20, 21, 22, 22, 23, 20]);
}

#[test]
fn clock_tick_measures_elapsed() {
    let mut c = FrameClock::new(5);
    assert_eq!(c.tick(12), 7);
    assert_eq!(c.previous, 12);
    assert_eq!(c.tick(12), 0);
    assert_eq!(c.tick(3), 0);
    assert_eq!(c.previous, 3);
}

#[test]
fn nanos_from_parts_combines_and_saturates() {
    assert_eq!(nanos_from_parts(2, 500), 2_000_000_500);
    assert_eq!(nanos_from_parts(0, 0), 0);
    assert_eq!(nanos_from_parts(u64::MAX, 0), u64::MAX);
}

#[test]
fn advance_angle_wraps_into_one_turn() {
    assert_eq!(advance_angle(0, SECOND), 150 * DEGREE);
    assert_eq!(advance_angle(300 * DEGREE, SECOND), 90 * DEGREE);
    assert_eq!(advance_angle(0, 0), 0);
    assert!(advance_angle(FULL_TURN - 1, u64::MAX) < FULL_TURN);
}

#[test]
fn wrap_angle_is_periodic() {
    let a = 123 * DEGREE + 7;
    assert_eq!(wrap_angle(a), wrap_angle(a + FULL_TURN));
    assert_eq!(wrap_angle(FULL_TURN), 0);
}

#[test]
fn constant_rate_angle_matches_closed_form() {
    let d: u64 = 16_666_667;
    let mut l = FrameLoop::new(());
    l.start(0);
    for n in 1..=100u64 {
        l.frame(n * d);
        let expected = ((150u128 * d as u128 * n as u128) % FULL_TURN as u128) as u64;
        assert_eq!(l.angle(), expected);
        assert!(l.angle() < FULL_TURN);
    }
}

#[test]
fn three_one_second_frames() {
    let mut l = FrameLoop::new(());
    l.start(0);
    let mut seen = Vec::new();
    for n in 1..=3u64 {
        assert_eq!(l.frame(n * SECOND), SECOND);
        seen.push(l.angle());
    }
    assert_eq!(seen, vec![150 * DEGREE, 300 * DEGREE, 90 * DEGREE]);
}

#[test]
fn close_event_stops_loop() {
    let mut l = FrameLoop::new(());
    assert_eq!(l.phase(), Phase::Setup);
    l.start(0);
    assert!(l.is_running());
    l.handle_events(&vec![InputEvent::Other, InputEvent::KeyPressed(Key::Other)]);
    assert!(l.is_running());
    l.handle_events(&vec![InputEvent::Closed]);
    assert!(!l.is_running());
    assert_eq!(l.phase(), Phase::Stopped);
    let angle = l.angle();
    assert_eq!(l.frame(10 * SECOND), 0);
    assert_eq!(l.angle(), angle);
}

#[test]
fn escape_key_stops_like_close() {
    let mut a = FrameLoop::new(());
    let mut b = FrameLoop::new(());
    a.start(0);
    b.start(0);
    a.handle_event(InputEvent::Closed);
    b.handle_event(InputEvent::KeyPressed(Key::Escape));
    assert_eq!(a.phase(), b.phase());
    assert_eq!(b.phase(), Phase::Stopped);
    assert!(stops_loop(InputEvent::KeyPressed(Key::Escape)));
    assert!(!stops_loop(InputEvent::KeyPressed(Key::Other)));
    b.start(5);
    assert_eq!(b.phase(), Phase::Stopped);
}

#[test]
fn transform_is_kept_across_frames() {
    let mut l = FrameLoop::new([[1i32, 2], [3, 4]]);
    l.start(0);
    for n in 1..=5u64 {
        l.frame(n * SECOND);
        assert_eq!(*l.transform(), [[1, 2], [3, 4]]);
    }
    l.handle_event(InputEvent::Closed);
    assert_eq!(*l.transform(), [[1, 2], [3, 4]]);
}
