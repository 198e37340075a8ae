use circle_field::{
    body_at, decimal_text, populate, spawn_line, SpawnedBody, CIRCLE_COUNT, HALF_HEIGHT,
    HALF_WIDTH, HEIGHT, WIDTH,
};

#[test]
fn half_extents_match_world_size() {
    assert_eq!(HALF_WIDTH * 2, WIDTH);
    assert_eq!(HALF_HEIGHT * 2, HEIGHT);
    assert_eq!(HALF_WIDTH, 640);
    assert_eq!(HALF_HEIGHT, 360);
}

#[test]
fn populate_places_circle_count_bodies() {
    let mut rng = rand::thread_rng();
    let bodies = populate(&mut rng);
    assert_eq!(bodies.len(), CIRCLE_COUNT);
    assert_eq!(bodies.len(), 10);
}

#[test]
fn populate_starts_every_body_at_rest() {
    let mut rng = rand::thread_rng();
    for b in populate(&mut rng) {
        assert_eq!(b.vx, 0);
        assert_eq!(b.vy, 0);
    }
}

#[test]
fn populate_stays_inside_spawn_rectangle() {
    let mut rng = rand::thread_rng();
    for _ in 0..200 {
        for b in populate(&mut rng) {
            assert!(-640 <= b.x && b.x < 640, "x out of range: {}", b.x);
            assert!(-360 <= b.y && b.y < 360, "y out of range: {}", b.y);
        }
    }
}

#[test]
fn populate_draws_varied_positions() {
    let mut rng = rand::thread_rng();
    let bodies = populate(&mut rng);
    let first = bodies[0];
    assert!(bodies.iter().any(|b| b.x != first.x || b.y != first.y));
    assert!(bodies.iter().any(|b| b.x != -640));
    assert!(bodies.iter().any(|b| b.y != -360));
}

#[test]
fn body_at_keeps_position_and_is_at_rest() {
    let b = body_at(-640, 359);
    assert_eq!(b, SpawnedBody { x: -640, y: 359, vx: 0, vy: 0 });
}

#[test]
fn decimal_text_renders_integers() {
    assert_eq!(decimal_text(0), "0");
    assert_eq!(decimal_text(7), "7");
    assert_eq!(decimal_text(-7), "-7");
    assert_eq!(decimal_text(1000), "1000");
    assert_eq!(decimal_text(-640), "-640");
    assert_eq!(decimal_text(i32::MAX), "2147483647");
    assert_eq!(decimal_text(i32::MIN), "-2147483648");
}

#[test]
fn spawn_line_formats_both_coordinates() {
    assert_eq!(spawn_line(&body_at(0, 0)), "x -> 0 and y -> 0");
    assert_eq!(spawn_line(&body_at(-640, 359)), "x -> -640 and y -> 359");
    assert_eq!(spawn_line(&body_at(12, -360)), "x -> 12 and y -> -360");
}

#[test]
fn spawn_line_matches_float_printing() {
    for x in -640..640 {
        let b = body_at(x, -x / 2);
        let expected = format!("x -> {} and y -> {}", b.x as f32, b.y as f32);
        assert_eq!(spawn_line(&b), expected);
    }
}

#[test]
fn spawn_diagnostics_give_one_line_per_body() {
    let mut rng = rand::thread_rng();
    let lines: Vec<String> = populate(&mut rng).iter().map(spawn_line).collect();
    assert_eq!(lines.len(), 10);
    for line in &lines {
        let rest = line.strip_prefix("x -> ").expect("line starts with the x label");
        let (x, y) = rest.split_once(" and y -> ").expect("line holds the y label");
        let x: f32 = x.parse().expect("x is a number");
        let y: f32 = y.parse().expect("y is a number");
        assert!(x.is_finite() && y.is_finite());
    }
}
