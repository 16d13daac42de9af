use ballpit::cursor::{update_cursor, MyWorldCoords};
use ballpit::frame::{run_frame, FrameInput};
use ballpit::geom::Point;
use ballpit::scatter::{
    draw_kick, kick_from_draws, update_balls, Kick, NUM_DIRECTIONS, POS_MAX, QUARTER, VEL_MAX, VEL_MIN,
};
use ballpit::scene::{Ball, World};

fn within(b: &Ball, c: Point) -> bool {
    let dx = (b.position.x - c.x) as i128;
    let dy = (b.position.y - c.y) as i128;
    let r = POS_MAX as i128;
    dx * dx + dy * dy < r * r
}

fn velocity_in_bounds(b: &Ball) -> bool {
    VEL_MIN <= b.velocity.x && b.velocity.x < VEL_MAX && VEL_MIN <= b.velocity.y && b.velocity.y < VEL_MAX
}

#[test]
fn cursor_inside_window_overwrites_position() {
    let mut coords = MyWorldCoords::new();
    update_cursor(&mut coords, Some(Point::new(-12_500, 40_000)));
    assert_eq!(coords, MyWorldCoords(Point::new(-12_500, 40_000)));
    update_cursor(&mut coords, Some(Point::new(3, 4)));
    assert_eq!(coords.0, Point::new(3, 4));
}

#[test]
fn cursor_outside_window_keeps_last_position() {
    let mut coords = MyWorldCoords::new();
    update_cursor(&mut coords, None);
    assert_eq!(coords.0, Point::new(0, 0));
    update_cursor(&mut coords, Some(Point::new(7_000, -8_000)));
    update_cursor(&mut coords, None);
    assert_eq!(coords.0, Point::new(7_000, -8_000));
}

#[test]
fn held_button_scatters_balls_around_cursor() {
    let mut world = World::setup(800_000, 600_000);
    let coords = MyWorldCoords(Point::new(100_000, 50_000));
    update_balls(&coords, true, &mut world);
    assert_eq!(world.balls().len(), 100);
    for b in world.balls() {
        assert!(within(b, coords.0));
        assert!(velocity_in_bounds(b));
    }
}

#[test]
fn held_button_draws_varied_velocities() {
    let mut world = World::setup(800_000, 600_000);
    let coords = MyWorldCoords(Point::new(0, 0));
    update_balls(&coords, true, &mut world);
    let first = world.balls()[0];
    assert!(world.balls().iter().any(|b| b.velocity != first.velocity));
    assert!(world.balls().iter().any(|b| b.velocity.x != VEL_MIN));
    assert!(world.balls().iter().any(|b| b.position != first.position));
}

#[test]
fn released_button_leaves_balls_alone() {
    let mut world = World::setup(800_000, 600_000);
    let coords = MyWorldCoords(Point::new(100_000, 50_000));
    update_balls(&coords, true, &mut world);
    let before = world.balls().clone();
    update_balls(&coords, false, &mut world);
    assert_eq!(*world.balls(), before);
}

#[test]
fn synthetic_click_at_100_50_keeps_balls_in_radius_5() {
    let mut world = World::setup(800_000, 600_000);
    let mut coords = MyWorldCoords::new();
    let input = FrameInput {
        cursor_world: Some(Point::new(100_000, 50_000)),
        left_pressed: true,
        resized: vec![],
    };
    let lines = run_frame(&mut world, &mut coords, &input);
    assert!(lines.is_empty());
    assert_eq!(coords.0, Point::new(100_000, 50_000));
    assert_eq!(world.balls().len(), 100);
    for b in world.balls() {
        assert!(within(b, Point::new(100_000, 50_000)));
    }
}

#[test]
fn drawn_kicks_stay_in_bounds() {
    let mut rng = rand::thread_rng();
    for _ in 0..2000 {
        let k = draw_kick(&mut rng);
        let (dx, dy) = (k.offset.x as i128, k.offset.y as i128);
        assert!(dx * dx + dy * dy < 25_000_000);
        assert!(VEL_MIN <= k.velocity.x && k.velocity.x < VEL_MAX);
        assert!(VEL_MIN <= k.velocity.y && k.velocity.y < VEL_MAX);
    }
}

#[test]
fn apply_kicks_moves_each_ball_by_its_kick() {
    let mut world = World::setup(800_000, 600_000);
    let kicks: Vec<Kick> = (0..100)
        .map(|i| Kick {
            offset: Point::new(i - 50, 4_999 - 2 * i),
            velocity: Point::new(-1_000_000, 999_999 - i),
        })
        .collect();
    world.apply_kicks(Point::new(-3_000, 2_000), &kicks);
    for (i, b) in world.balls().iter().enumerate() {
        let i = i as i64;
        assert_eq!(b.position, Point::new(-3_000 + i - 50, 2_000 + 4_999 - 2 * i));
        assert_eq!(b.velocity, Point::new(-1_000_000, 999_999 - i));
    }
}

#[test]
fn drawn_kicks_reach_every_quarter_of_the_disc() {
    let mut rng = rand::thread_rng();
    let mut seen = [false; 4];
    for _ in 0..4000 {
        let k = draw_kick(&mut rng);
        let (x, y) = (k.offset.x, k.offset.y);
        if x > 0 && y >= 0 {
            seen[0] = true;
        } else if x <= 0 && y > 0 {
            seen[1] = true;
        } else if x < 0 && y <= 0 {
            seen[2] = true;
        } else if x >= 0 && y < 0 {
            seen[3] = true;
        }
        assert!(x.abs() < POS_MAX && y.abs() < POS_MAX);
    }
    assert_eq!(seen, [true; 4]);
}

#[test]
fn kick_from_draws_scales_and_turns_the_direction() {
    let k = kick_from_draws(0, 4_999, 12, -34);
    assert_eq!(k, Kick { offset: Point::new(4_999, 0), velocity: Point::new(12, -34) });
    assert_eq!(kick_from_draws(QUARTER, 4_999, 0, 0).offset, Point::new(0, 4_999));
    assert_eq!(kick_from_draws(2 * QUARTER, 4_999, 0, 0).offset, Point::new(-4_999, 0));
    assert_eq!(kick_from_draws(3 * QUARTER, 4_999, 0, 0).offset, Point::new(0, -4_999));
    // an eighth of a turn: cos = sin = 0.707106
    assert_eq!(kick_from_draws(128, 4_999, 0, 0).offset, Point::new(3_534, 3_534));
    assert_eq!(kick_from_draws(128 + QUARTER, 4_999, 0, 0).offset, Point::new(-3_534, 3_534));
    // one step past the x axis: cos = 0.999981, sin = 0.006135
    assert_eq!(kick_from_draws(1, 3_000, 0, 0).offset, Point::new(2_999, 18));
    assert_eq!(kick_from_draws(NUM_DIRECTIONS - 1, 3_000, 0, 0).offset, Point::new(2_999, -18));
    assert_eq!(kick_from_draws(77, 0, 5, 6).offset, Point::new(0, 0));
}
