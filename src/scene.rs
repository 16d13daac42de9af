use vstd::prelude::*;
use crate::geom::{Point, UNITS};

verus! {

/// How many balls the scene holds, from startup to the end.
pub const NUM_BALLS: usize = 100;

/// Radius of every ball.
pub const RADIUS: i64 = 5 * UNITS;

/// Restitution of a ball, in thousandths: perfectly elastic.
pub const RESTITUTION: i64 = UNITS;

/// Gravity multiplier of a ball, in thousandths.
pub const GRAVITY_SCALE: i64 = 5 * UNITS;

/// Half extents of the left and right walls.
pub const SIDE_WALL_HALF_W: i64 = 10 * UNITS;
pub const SIDE_WALL_HALF_H: i64 = 1000 * UNITS;

/// Half extents of the bottom and top walls.
pub const FLOOR_WALL_HALF_W: i64 = 2000 * UNITS;
pub const FLOOR_WALL_HALF_H: i64 = 10 * UNITS;

/// Collision group bit of the walls.
pub const WALL_GROUP: u32 = 1;

/// Collision group bit of the balls.
pub const BALL_GROUP: u32 = 2;

/// Which groups a collider belongs to, and which groups it may touch.
#[derive(Clone, Copy, Debug, PartialEq, Eq, Structural)]
pub struct CollisionGroups {
    pub memberships: u32,
    pub filters: u32,
}

/// Two colliders are tested for contact when each belongs to a group that
/// the other one accepts.
pub open spec fn interacts(a: CollisionGroups, b: CollisionGroups) -> bool {
    (a.memberships & b.filters) != 0 && (b.memberships & a.filters) != 0
}

pub open spec fn spec_wall_groups() -> CollisionGroups {
    CollisionGroups { memberships: WALL_GROUP, filters: BALL_GROUP }
}

pub open spec fn spec_ball_groups() -> CollisionGroups {
    CollisionGroups { memberships: BALL_GROUP, filters: WALL_GROUP }
}

impl CollisionGroups {
    pub fn new(memberships: u32, filters: u32) -> (r: CollisionGroups)
        ensures
            r == (CollisionGroups { memberships, filters }),
    {
        CollisionGroups { memberships, filters }
    }

    /// The groups of a wall: it touches balls only.
    pub fn wall() -> (r: CollisionGroups)
        ensures
            r == spec_wall_groups(),
    {
        CollisionGroups { memberships: WALL_GROUP, filters: BALL_GROUP }
    }

    /// The groups of a ball: it touches walls only.
    pub fn ball() -> (r: CollisionGroups)
        ensures
            r == spec_ball_groups(),
    {
        CollisionGroups { memberships: BALL_GROUP, filters: WALL_GROUP }
    }

    /// Whether a contact between the two colliders is looked for.
    pub fn test(&self, other: &CollisionGroups) -> (r: bool)
        ensures
            r == interacts(*self, *other),
    {
        (self.memberships & other.filters) != 0 && (other.memberships & self.filters) != 0
    }
}

/// Balls touch walls, while two balls never touch, nor two walls.
pub proof fn lemma_group_partition()
    ensures
        interacts(spec_ball_groups(), spec_wall_groups()),
        interacts(spec_wall_groups(), spec_ball_groups()),
        !interacts(spec_ball_groups(), spec_ball_groups()),
        !interacts(spec_wall_groups(), spec_wall_groups()),
{
    assert(1u32 & 1u32 != 0) by (bit_vector);
    assert(2u32 & 2u32 != 0) by (bit_vector);
    assert(1u32 & 2u32 == 0) by (bit_vector);
    assert(2u32 & 1u32 == 0) by (bit_vector);
}

/// A dynamic ball: where it is and how fast it moves.
#[derive(Clone, Copy, Debug, PartialEq, Eq, Structural)]
pub struct Ball {
    pub position: Point,
    pub velocity: Point,
}

/// A static box collider, centred on `center`.
#[derive(Clone, Copy, Debug, PartialEq, Eq, Structural)]
pub struct Wall {
    pub center: Point,
    pub half_extents: Point,
    pub groups: CollisionGroups,
}

/// A ball at the origin, at rest.
pub open spec fn spec_ball_at_rest() -> Ball {
    Ball { position: Point { x: 0, y: 0 }, velocity: Point { x: 0, y: 0 } }
}

pub open spec fn spec_wall(cx: int, cy: int, hx: int, hy: int) -> Wall {
    Wall {
        center: Point { x: cx as i64, y: cy as i64 },
        half_extents: Point { x: hx as i64, y: hy as i64 },
        groups: spec_wall_groups(),
    }
}

/// The four walls of a window `width` wide and `height` high: left, right,
/// bottom and top, each on the middle of its edge.
pub open spec fn wall_layout(width: int, height: int) -> Seq<Wall> {
    seq![
        spec_wall(-(width / 2), 0, SIDE_WALL_HALF_W as int, SIDE_WALL_HALF_H as int),
        spec_wall(width / 2, 0, SIDE_WALL_HALF_W as int, SIDE_WALL_HALF_H as int),
        spec_wall(0, -(height / 2), FLOOR_WALL_HALF_W as int, FLOOR_WALL_HALF_H as int),
        spec_wall(0, height / 2, FLOOR_WALL_HALF_W as int, FLOOR_WALL_HALF_H as int),
    ]
}

fn make_wall(cx: i64, cy: i64, hx: i64, hy: i64) -> (r: Wall)
    ensures
        r == spec_wall(cx as int, cy as int, hx as int, hy as int),
{
    Wall {
        center: Point { x: cx, y: cy },
        half_extents: Point { x: hx, y: hy },
        groups: CollisionGroups::wall(),
    }
}

/// The scene: its balls and its walls. The number of balls and of walls
/// never changes once the scene is built.
pub struct World {
    balls: Vec<Ball>,
    walls: Vec<Wall>,
}

impl World {
    #[verifier::type_invariant]
    spec fn inv(&self) -> bool {
        self.balls@.len() == NUM_BALLS && self.walls@.len() == 4
    }

    /// The balls, in a fixed order.
    pub closed spec fn spec_balls(&self) -> Seq<Ball> {
        self.balls@
    }

    /// The walls: left, right, bottom, top.
    pub closed spec fn spec_walls(&self) -> Seq<Wall> {
        self.walls@
    }

    /// Builds the scene for a window `width` wide and `height` high: the four
    /// walls on its edges and `NUM_BALLS` balls at rest at the origin.
    pub fn setup(width: i64, height: i64) -> (w: World)
        requires
            width >= 0,
            height >= 0,
        ensures
            w.spec_walls() == wall_layout(width as int, height as int),
            w.spec_balls().len() == NUM_BALLS,
            forall|i: int| 0 <= i < NUM_BALLS ==> #[trigger] w.spec_balls()[i] == spec_ball_at_rest(),
    {
        let mut walls: Vec<Wall> = Vec::new();
        walls.push(make_wall(-(width / 2), 0, SIDE_WALL_HALF_W, SIDE_WALL_HALF_H));
        walls.push(make_wall(width / 2, 0, SIDE_WALL_HALF_W, SIDE_WALL_HALF_H));
        walls.push(make_wall(0, -(height / 2), FLOOR_WALL_HALF_W, FLOOR_WALL_HALF_H));
        walls.push(make_wall(0, height / 2, FLOOR_WALL_HALF_W, FLOOR_WALL_HALF_H));
        assert(walls@ == wall_layout(width as int, height as int));
        let mut balls: Vec<Ball> = Vec::new();
        let mut i: usize = 0;
        while i < NUM_BALLS
            invariant
                i <= NUM_BALLS,
                balls@.len() == i,
                forall|j: int| 0 <= j < i ==> #[trigger] balls@[j] == spec_ball_at_rest(),
            decreases NUM_BALLS - i,
        {
            balls.push(Ball { position: Point::origin(), velocity: Point::origin() });
            i = i + 1;
        }
        World { balls, walls }
    }

    /// Puts `balls` in place of the balls; the walls stay.
    pub(crate) fn set_balls(&mut self, balls: Vec<Ball>)
        requires
            balls@.len() == NUM_BALLS,
        ensures
            final(self).spec_balls() == balls@,
            final(self).spec_walls() == old(self).spec_walls(),
    {
        proof { use_type_invariant(&*self); }
        self.balls = balls;
    }

    /// The balls; every scene holds exactly `NUM_BALLS` of them.
    pub fn balls(&self) -> (r: &Vec<Ball>)
        ensures
            r@ == self.spec_balls(),
            r@.len() == NUM_BALLS,
    {
        proof { use_type_invariant(self); }
        &self.balls
    }

    pub fn walls(&self) -> (r: &Vec<Wall>)
        ensures
            r@ == self.spec_walls(),
            r@.len() == 4,
    {
        proof { use_type_invariant(self); }
        &self.walls
    }

    pub fn ball_count(&self) -> (r: usize)
        ensures
            r == NUM_BALLS,
            r == self.spec_balls().len(),
    {
        proof { use_type_invariant(self); }
        self.balls.len()
    }
}

} // verus!
