//! Triangles on the screen, in whole pixels.

use crate::mesh::Triangle;
use vstd::prelude::*;

verus! {

/// The width of the screen in pixels.
pub const SCREEN_WIDTH: i32 = 1000;

/// The height of the screen in pixels.
pub const SCREEN_HEIGHT: i32 = 640;

/// The width and the height of the screen in pixels.
pub const SCREEN_SIZE: (i32, i32) = (SCREEN_WIDTH, SCREEN_HEIGHT);

/// A pixel position. The screen holds the positions with `x` from 0 up to
/// the width and `y` from 0 up to the height, both bounds left out at the
/// upper end; any other position is off the screen.
#[derive(Clone, Copy, Debug, PartialEq, Eq, Structural)]
pub struct ScreenPoint {
    pub x: i32,
    pub y: i32,
}

/// A line from one pixel position to another.
#[derive(Clone, Copy, Debug, PartialEq, Eq, Structural)]
pub struct Segment {
    pub start: ScreenPoint,
    pub end: ScreenPoint,
}

/// A triangle in pixel positions, ready to be drawn.
#[derive(Clone, Copy, Debug, PartialEq, Eq)]
pub struct ScreenTriangle {
    pub vertices: [ScreenPoint; 3],
}

impl ScreenPoint {
    /// Whether the position is on the screen.
    pub open spec fn within_screen(self) -> bool {
        0 <= self.x < SCREEN_WIDTH && 0 <= self.y < SCREEN_HEIGHT
    }

    /// Whether the position is on the screen.
    pub fn on_screen(&self) -> (r: bool)
        ensures
            r == self.within_screen(),
    {
        self.x >= 0 && self.x < SCREEN_WIDTH && self.y >= 0 && self.y < SCREEN_HEIGHT
    }
}

impl ScreenTriangle {
    /// Whether at least one of the three vertices is on the screen.
    ///
    /// This says that the triangle may be seen, not that it is: a triangle
    /// that crosses the screen with all three vertices outside does not
    /// pass, and one with a single vertex inside does.
    pub open spec fn touches_screen(self) -> bool {
        self.vertices[0].within_screen() || self.vertices[1].within_screen()
            || self.vertices[2].within_screen()
    }

    /// The three edges in drawing order: first to second vertex, second to
    /// third, third back to first.
    pub open spec fn outline(self) -> Seq<Segment> {
        seq![
            Segment { start: self.vertices[0], end: self.vertices[1] },
            Segment { start: self.vertices[1], end: self.vertices[2] },
            Segment { start: self.vertices[2], end: self.vertices[0] },
        ]
    }

    /// The triangle over `a`, `b` and `c`, in this order.
    pub fn new(a: ScreenPoint, b: ScreenPoint, c: ScreenPoint) -> (t: Self)
        ensures
            t.vertices@ == seq![a, b, c],
    {
        ScreenTriangle { vertices: [a, b, c] }
    }

    /// Whether at least one of the three vertices is on the screen.
    pub fn on_screen(&self) -> (r: bool)
        ensures
            r == self.touches_screen(),
    {
        let a = self.vertices[0].on_screen();
        let b = self.vertices[1].on_screen();
        let c = self.vertices[2].on_screen();
        a || b || c
    }

    /// The three edges in drawing order.
    pub fn edges(&self) -> (e: [Segment; 3])
        ensures
            e@ == self.outline(),
    {
        let a = self.vertices[0];
        let b = self.vertices[1];
        let c = self.vertices[2];
        [Segment { start: a, end: b }, Segment { start: b, end: c }, Segment { start: c, end: a }]
    }
}

impl<P> Triangle<P> {
    /// The triangle on the screen, with each vertex where `to_screen` puts
    /// it. No depth is kept.
    pub fn project_on_screen_space<F: Fn(&P) -> ScreenPoint>(&self, to_screen: F) -> (s:
        ScreenTriangle)
        requires
            forall|k: int| 0 <= k < 3 ==> to_screen.requires((&#[trigger] self.vertices[k],)),
        ensures
            forall|k: int|
                0 <= k < 3 ==> to_screen.ensures((&self.vertices[k],), #[trigger] s.vertices[k]),
    {
        let a = to_screen(&self.vertices[0]);
        let b = to_screen(&self.vertices[1]);
        let c = to_screen(&self.vertices[2]);
        ScreenTriangle::new(a, b, c)
    }
}

/// A triangle with all three vertices on the screen is on the screen.
pub proof fn triangle_inside_is_on_screen(t: ScreenTriangle)
    requires
        forall|k: int| 0 <= k < 3 ==> (#[trigger] t.vertices[k]).within_screen(),
    ensures
        t.touches_screen(),
{
}

/// A triangle is off the screen exactly when each of its vertices is.
pub proof fn triangle_off_screen_has_no_vertex_inside(t: ScreenTriangle)
    ensures
        !t.touches_screen() <==> forall|k: int|
            0 <= k < 3 ==> !(#[trigger] t.vertices[k]).within_screen(),
{
    if !t.touches_screen() {
        assert forall|k: int| 0 <= k < 3 implies !(#[trigger] t.vertices[k]).within_screen() by {
            assert(k == 0 || k == 1 || k == 2);
        }
    }
}

} // verus!
