//! The constants that a scene starts with.
use crate::number::Ratio;
use vstd::prelude::*;

verus! {

/// Each side of the texture that holds what a light sees, in texels.
pub const SHADOW_SIZE: u16 = 512;

/// A camera that looks at the origin from a distance, with its angles in
/// degrees.
#[derive(Clone, Copy, Debug, PartialEq, Eq)]
pub struct ArcBall {
    pub theta: Ratio,
    pub phi: Ratio,
    pub dist: Ratio,
    pub fovy: Ratio,
    pub near: Ratio,
    pub far: Ratio,
}

/// How the scene is looked at.
#[derive(Clone, Copy, Debug, PartialEq, Eq)]
pub struct Settings {
    pub cam: ArcBall,
    pub exposure: Ratio,
    pub gamma: Ratio,
    /// How many degrees the camera turns for a pixel of drag.
    pub orbit_speed: Ratio,
    /// How far the camera may look down or up, in degrees.
    pub phi_limit: Ratio,
    /// What the wheel's lines are multiplied by in the exponent of the distance.
    pub zoom_speed: Ratio,
}

/// The settings that a scene starts with.
pub fn initial_settings() -> (settings: Settings)
    ensures
        settings == (Settings {
            cam: ArcBall {
                theta: Ratio { num: 45, den: 1 },
                phi: Ratio { num: 35264, den: 1000 },
                dist: Ratio { num: 4, den: 1 },
                fovy: Ratio { num: 35, den: 1 },
                near: Ratio { num: 1, den: 10 },
                far: Ratio { num: 100, den: 1 },
            },
            exposure: Ratio { num: 1, den: 10 },
            gamma: Ratio { num: 22, den: 10 },
            orbit_speed: Ratio { num: 2, den: 10 },
            phi_limit: Ratio { num: 89, den: 1 },
            zoom_speed: Ratio { num: -1int as i32, den: 10 },
        }),
{
    Settings {
        cam: ArcBall {
            theta: Ratio::new(45, 1),
            phi: Ratio::new(35264, 1000),
            dist: Ratio::new(4, 1),
            fovy: Ratio::new(35, 1),
            near: Ratio::new(1, 10),
            far: Ratio::new(100, 1),
        },
        exposure: Ratio::new(1, 10),
        gamma: Ratio::new(22, 10),
        orbit_speed: Ratio::new(2, 10),
        phi_limit: Ratio::new(89, 1),
        zoom_speed: Ratio::new(-1, 10),
    }
}

/// A corner of the quad that covers the screen.
#[derive(Clone, Copy, Debug, PartialEq, Eq)]
pub struct Corner {
    pub x: i8,
    pub y: i8,
    pub z: i8,
}

/// The corners of the quad that covers the screen.
pub open spec fn corners() -> Seq<Corner> {
    seq![
        Corner { x: -1int as i8, y: -1int as i8, z: 0 },
        Corner { x: -1int as i8, y: 1, z: 0 },
        Corner { x: 1, y: -1int as i8, z: 0 },
        Corner { x: 1, y: 1, z: 0 },
    ]
}

/// The quad's triangles, three corners for each.
pub open spec fn triangles() -> Seq<u16> {
    seq![0u16, 1u16, 2u16, 3u16, 1u16, 2u16]
}

/// The corners of the quad that covers the screen.
pub fn quad_corners() -> (result: [Corner; 4])
    ensures
        result@ == corners(),
{
    let result = [
        Corner { x: -1, y: -1, z: 0 },
        Corner { x: -1, y: 1, z: 0 },
        Corner { x: 1, y: -1, z: 0 },
        Corner { x: 1, y: 1, z: 0 },
    ];
    assert(result@ =~= corners());
    result
}

/// The quad's triangles, three corners for each.
pub fn quad_triangles() -> (result: [u16; 6])
    ensures
        result@ == triangles(),
{
    let result = [0u16, 1u16, 2u16, 3u16, 1u16, 2u16];
    assert(result@ =~= triangles());
    result
}

/// On which side of the line from `a` to `b` the point `(x / scale, y / scale)`
/// lies: the sign is that of the side, zero is on the line.
pub open spec fn side(a: Corner, b: Corner, x: int, y: int, scale: int) -> int {
    (b.x - a.x) * (y - scale * a.y) - (b.y - a.y) * (x - scale * a.x)
}

/// The point `(x / scale, y / scale)` lies in triangle `t` of the quad, or on its
/// edge.
pub open spec fn in_triangle(t: int, x: int, y: int, scale: int) -> bool {
    let a = corners()[triangles()[3 * t] as int];
    let b = corners()[triangles()[3 * t + 1] as int];
    let c = corners()[triangles()[3 * t + 2] as int];
    let (ab, bc, ca) = (side(a, b, x, y, scale), side(b, c, x, y, scale), side(c, a, x, y, scale));
    (ab >= 0 && bc >= 0 && ca >= 0) || (ab <= 0 && bc <= 0 && ca <= 0)
}

/// The quad's two triangles together cover the square from -1 to 1 and nothing
/// beyond it, and where they meet is on their common edge.
pub proof fn quad_covers_the_screen(x: int, y: int, scale: int)
    requires
        scale > 0,
    ensures
        in_triangle(0, x, y, scale) || in_triangle(1, x, y, scale) <==> -scale <= x <= scale
            && -scale <= y <= scale,
        in_triangle(0, x, y, scale) && in_triangle(1, x, y, scale) ==> x + y == 0,
{
    let (a, b, c, d) = (corners()[0], corners()[1], corners()[2], corners()[3]);
    assert(side(a, b, x, y, scale) == -2 * (x + scale)) by (nonlinear_arith)
        requires
            a.x == -1 && a.y == -1 && b.x == -1 && b.y == 1,
    ;
    assert(side(b, c, x, y, scale) == 2 * (x + y)) by (nonlinear_arith)
        requires
            b.x == -1 && b.y == 1 && c.x == 1 && c.y == -1,
    ;
    assert(side(c, a, x, y, scale) == -2 * (y + scale)) by (nonlinear_arith)
        requires
            c.x == 1 && c.y == -1 && a.x == -1 && a.y == -1,
    ;
    assert(side(d, b, x, y, scale) == -2 * (y - scale)) by (nonlinear_arith)
        requires
            d.x == 1 && d.y == 1 && b.x == -1 && b.y == 1,
    ;
    assert(side(c, d, x, y, scale) == -2 * (x - scale)) by (nonlinear_arith)
        requires
            c.x == 1 && c.y == -1 && d.x == 1 && d.y == 1,
    ;
}

} // verus!
