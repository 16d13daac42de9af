use ballpit::frame::{run_frame, FrameInput, WindowResized};
use ballpit::cursor::MyWorldCoords;
use ballpit::geom::Point;
use ballpit::scene::{
    Ball, CollisionGroups, World, BALL_GROUP, FLOOR_WALL_HALF_H, FLOOR_WALL_HALF_W, NUM_BALLS,
    SIDE_WALL_HALF_H, SIDE_WALL_HALF_W, WALL_GROUP,
};

#[test]
fn setup_spawns_all_balls_at_rest_at_origin() {
    let world = World::setup(800_000, 600_000);
    assert_eq!(world.ball_count(), 100);
    assert_eq!(world.balls().len(), NUM_BALLS);
    for b in world.balls() {
        assert_eq!(*b, Ball { position: Point::new(0, 0), velocity: Point::new(0, 0) });
    }
}

#[test]
fn setup_places_walls_on_window_edges() {
    let world = World::setup(800_000, 600_000);
    let w = world.walls();
    assert_eq!(w.len(), 4);
    assert_eq!(w[0].center, Point::new(-400_000, 0));
    assert_eq!(w[1].center, Point::new(400_000, 0));
    assert_eq!(w[2].center, Point::new(0, -300_000));
    assert_eq!(w[3].center, Point::new(0, 300_000));
    assert_eq!(w[0].half_extents, Point::new(SIDE_WALL_HALF_W, SIDE_WALL_HALF_H));
    assert_eq!(w[1].half_extents, Point::new(10_000, 1_000_000));
    assert_eq!(w[2].half_extents, Point::new(FLOOR_WALL_HALF_W, FLOOR_WALL_HALF_H));
    assert_eq!(w[3].half_extents, Point::new(2_000_000, 10_000));
    for wall in w {
        assert_eq!(wall.groups, CollisionGroups::new(WALL_GROUP, BALL_GROUP));
    }
}

#[test]
fn walls_stay_after_resize() {
    let mut world = World::setup(800_000, 600_000);
    let before = world.walls().clone();
    let mut coords = MyWorldCoords::new();
    let input = FrameInput {
        cursor_world: None,
        left_pressed: false,
        resized: vec![WindowResized { width: 1_024_000, height: 768_000 }],
    };
    let lines = run_frame(&mut world, &mut coords, &input);
    assert_eq!(lines.len(), 1);
    assert_eq!(lines[0], b"1024.0 x 768.0".to_vec());
    assert_eq!(*world.walls(), before);
    assert_eq!(world.walls()[1].center, Point::new(400_000, 0));
    assert_eq!(world.ball_count(), 100);
}

#[test]
fn collision_groups_pair_balls_with_walls_only() {
    let ball = CollisionGroups::ball();
    let wall = CollisionGroups::wall();
    assert!(ball.test(&wall));
    assert!(wall.test(&ball));
    assert!(!ball.test(&ball));
    assert!(!wall.test(&wall));
    assert!(CollisionGroups::new(3, 3).test(&ball));
}
