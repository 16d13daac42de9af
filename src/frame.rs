use vstd::prelude::*;
use crate::cursor::{MyWorldCoords, update_cursor};
use crate::geom::{Point, in_world};
use crate::report::{resize_line, size_line};
use crate::scatter::{scattered, thrown, update_balls};
use crate::scene::{World, NUM_BALLS};

verus! {

/// The window took a new size, in thousandths of a world unit.
#[derive(Clone, Copy, Debug, PartialEq, Eq, Structural)]
pub struct WindowResized {
    pub width: i64,
    pub height: i64,
}

/// What one frame brings: the cursor's world position (`None` when the
/// cursor is outside the window), whether the left button is held, and the
/// resize events since the last frame.
pub struct FrameInput {
    pub cursor_world: Option<Point>,
    pub left_pressed: bool,
    pub resized: Vec<WindowResized>,
}

/// A window size cannot be negative.
pub open spec fn sizes_ok(events: Seq<WindowResized>) -> bool {
    forall|i: int| 0 <= i < events.len() ==> #[trigger] events[i].width >= 0 && events[i].height >= 0
}

/// The report lines of the resize events, one per event, in order. It is a
/// report only: nothing in the scene follows the new size.
pub fn on_resize_system(events: &Vec<WindowResized>) -> (r: Vec<Vec<u8>>)
    requires
        sizes_ok(events@),
    ensures
        r@.len() == events@.len(),
        forall|i: int| 0 <= i < events@.len() ==>
            #[trigger] r@[i]@ == size_line(events@[i].width as nat, events@[i].height as nat),
{
    let mut r: Vec<Vec<u8>> = Vec::new();
    let mut i: usize = 0;
    while i < events.len()
        invariant
            i <= events@.len(),
            sizes_ok(events@),
            r@.len() == i,
            forall|j: int| 0 <= j < i ==>
                #[trigger] r@[j]@ == size_line(events@[j].width as nat, events@[j].height as nat),
        decreases events@.len() - i,
    {
        let e = events[i];
        r.push(resize_line(e.width, e.height));
        i = i + 1;
    }
    r
}

/// Runs one frame in the fixed order: the cursor tracker first, then the
/// scatter, which sees the fresh cursor; the resize observer beside them.
/// Returns the lines that report the resize events. The walls keep the place they were given at
/// startup, whatever resize events come.
pub fn run_frame(world: &mut World, coords: &mut MyWorldCoords, input: &FrameInput) -> (lines: Vec<Vec<u8>>)
    requires
        in_world(old(coords).0),
        sizes_ok(input.resized@),
        input.cursor_world matches Some(p) ==> in_world(p),
    ensures
        input.cursor_world matches Some(p) ==> *final(coords) == MyWorldCoords(p),
        input.cursor_world is None ==> *final(coords) == *old(coords),
        final(world).spec_walls() == old(world).spec_walls(),
        final(world).spec_balls().len() == NUM_BALLS,
        input.left_pressed ==> forall|i: int| 0 <= i < NUM_BALLS ==>
            thrown(#[trigger] final(world).spec_balls()[i], final(coords).0),
        input.left_pressed ==> forall|i: int| 0 <= i < NUM_BALLS ==>
            scattered(#[trigger] final(world).spec_balls()[i], final(coords).0),
        !input.left_pressed ==> final(world).spec_balls() == old(world).spec_balls(),
        lines@.len() == input.resized@.len(),
        forall|i: int| 0 <= i < input.resized@.len() ==>
            #[trigger] lines@[i]@ == size_line(input.resized@[i].width as nat, input.resized@[i].height as nat),
{
    update_cursor(coords, input.cursor_world);
    let lines = on_resize_system(&input.resized);
    update_balls(coords, input.left_pressed, world);
    lines
}

} // verus!
