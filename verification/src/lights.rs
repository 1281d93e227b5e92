//! The point lights that circle the object.
use crate::args::Color;
use crate::number::{Direction, Ratio};
use vstd::prelude::*;

verus! {

/// An angle: `index` of `count` equal parts of a full turn.
#[derive(Clone, Copy, Debug, PartialEq, Eq)]
pub struct Turn {
    pub index: usize,
    pub count: usize,
}

impl Turn {
    /// The angle in degrees, multiplied by `count`.
    pub open spec fn scaled_degrees(self) -> int {
        360 * self.index
    }
}

/// The colour of a light without its strength.
#[derive(Clone, Copy, Debug, PartialEq, Eq)]
pub enum Hue {
    /// A colour that was asked for; the factor on its opacity counts too.
    Chosen(Color),
    /// A direction in colour space that chance has given.
    Random(Direction),
}

/// What a light gives off: its hue, and as strength an equal share of a total
/// that all the lights have together.
#[derive(Clone, Copy, Debug, PartialEq, Eq)]
pub struct Radiance {
    pub hue: Hue,
    pub total: Ratio,
    pub lights: usize,
}

impl Radiance {
    /// The ambient light of a chosen colour, with a total of 1.5.
    pub fn chosen_ambient(color: Color, lights: usize) -> (radiance: Radiance)
        ensures
            radiance == (Radiance {
                hue: Hue::Chosen(color),
                total: Ratio { num: 3, den: 2 },
                lights,
            }),
    {
        Radiance { hue: Hue::Chosen(color), total: Ratio::new(3, 2), lights }
    }

    /// The direct light of a chosen colour, with a total of 250.
    pub fn chosen_color(color: Color, lights: usize) -> (radiance: Radiance)
        ensures
            radiance == (Radiance {
                hue: Hue::Chosen(color),
                total: Ratio { num: 250, den: 1 },
                lights,
            }),
    {
        Radiance { hue: Hue::Chosen(color), total: Ratio::new(250, 1), lights }
    }

    /// The ambient light of a random colour, with a total of 0.02.
    pub open spec fn spec_random_ambient(direction: Direction, lights: usize) -> Radiance {
        Radiance { hue: Hue::Random(direction), total: Ratio { num: 1, den: 50 }, lights }
    }

    /// The direct light of a random colour, with a total of 350.
    pub open spec fn spec_random_color(direction: Direction, lights: usize) -> Radiance {
        Radiance { hue: Hue::Random(direction), total: Ratio { num: 350, den: 1 }, lights }
    }

    /// The ambient light of a random colour, with a total of 0.02.
    pub fn random_ambient(direction: Direction, lights: usize) -> (radiance: Radiance)
        ensures
            radiance == Radiance::spec_random_ambient(direction, lights),
    {
        Radiance { hue: Hue::Random(direction), total: Ratio::new(1, 50), lights }
    }

    /// The direct light of a random colour, with a total of 350.
    pub fn random_color(direction: Direction, lights: usize) -> (radiance: Radiance)
        ensures
            radiance == Radiance::spec_random_color(direction, lights),
    {
        Radiance { hue: Hue::Random(direction), total: Ratio::new(350, 1), lights }
    }
}

/// A light on its way round the object.
#[derive(Clone, Copy, Debug, PartialEq, Eq)]
pub struct PointLight {
    pub base_angle: Turn,
    pub color: Radiance,
    pub ambient: Radiance,
}

/// The camera that a light sees the scene through, at every time `t` in seconds:
/// it looks at the origin from the distance `dist`, at the azimuth
/// `theta = base_angle + theta_rate * t` and the elevation
/// `phi_swing * sin(theta + phi_rate * t)`, all in degrees.
#[derive(Clone, Copy, Debug, PartialEq, Eq)]
pub struct LightCamera {
    pub base_angle: Turn,
    pub theta_rate: Ratio,
    pub phi_rate: Ratio,
    pub phi_swing: Ratio,
    pub dist: Ratio,
    pub fovy: Ratio,
    pub aspect: Ratio,
    pub near: Ratio,
    pub far: Ratio,
}

impl PointLight {
    /// The camera of this light.
    pub fn animate_camera(&self) -> (camera: LightCamera)
        ensures
            camera == (LightCamera {
                base_angle: self.base_angle,
                theta_rate: Ratio { num: 30, den: 1 },
                phi_rate: Ratio { num: 13, den: 1 },
                phi_swing: Ratio { num: 45, den: 1 },
                dist: Ratio { num: 7, den: 1 },
                fovy: Ratio { num: 20, den: 1 },
                aspect: Ratio { num: 1, den: 1 },
                near: Ratio { num: 1, den: 10 },
                far: Ratio { num: 100, den: 1 },
            }),
    {
        LightCamera {
            base_angle: self.base_angle,
            theta_rate: Ratio::new(30, 1),
            phi_rate: Ratio::new(13, 1),
            phi_swing: Ratio::new(45, 1),
            dist: Ratio::new(7, 1),
            fovy: Ratio::new(20, 1),
            aspect: Ratio::new(1, 1),
            near: Ratio::new(1, 10),
            far: Ratio::new(100, 1),
        }
    }
}

/// `count` lights of one colour, spread evenly over a full turn.
pub open spec fn even_lights(count: nat, ambient: Radiance, color: Radiance) -> Seq<PointLight> {
    Seq::new(
        count,
        |i: int|
            PointLight {
                base_angle: Turn { index: i as usize, count: count as usize },
                color,
                ambient,
            },
    )
}

/// Makes `count` lights of one colour, spread evenly over a full turn.
pub fn create_lights(count: usize, ambient: Radiance, color: Radiance) -> (lights: Vec<PointLight>)
    ensures
        lights@ == even_lights(count as nat, ambient, color),
{
    let mut lights: Vec<PointLight> = Vec::new();
    let mut i: usize = 0;
    while i < count
        invariant
            i <= count,
            lights@ == even_lights(count as nat, ambient, color).take(i as int),
        decreases count - i,
    {
        lights.push(PointLight { base_angle: Turn { index: i, count }, color, ambient });
        i += 1;
        assert(lights@ =~= even_lights(count as nat, ambient, color).take(i as int));
    }
    assert(lights@ =~= even_lights(count as nat, ambient, color));
    lights
}

/// The lights in one ambient and one direct colour; their angles stay.
pub open spec fn with_colors(
    lights: Seq<PointLight>,
    ambient: Radiance,
    color: Radiance,
) -> Seq<PointLight> {
    lights.map_values(
        |light: PointLight| PointLight { base_angle: light.base_angle, color, ambient },
    )
}

/// Gives all lights one ambient and one direct colour.
pub fn set_colors(lights: &mut Vec<PointLight>, ambient: Radiance, color: Radiance)
    ensures
        final(lights)@ == with_colors(old(lights)@, ambient, color),
{
    let ghost before = lights@;
    let mut i: usize = 0;
    while i < lights.len()
        invariant
            i <= lights.len(),
            lights@.len() == before.len(),
            forall|j: int|
                0 <= j < i ==> #[trigger] lights@[j] == with_colors(before, ambient, color)[j],
            forall|j: int| i <= j < lights@.len() ==> #[trigger] lights@[j] == before[j],
        decreases lights.len() - i,
    {
        let base_angle = lights[i].base_angle;
        lights.set(i, PointLight { base_angle, color, ambient });
        i += 1;
    }
    assert(lights@ =~= with_colors(before, ambient, color));
}

/// The lights in random colours: one ambient direction for all of them, and one
/// direction of its own for each. Their angles stay.
pub open spec fn with_random_colors(
    lights: Seq<PointLight>,
    ambient: Direction,
    colors: Seq<Direction>,
) -> Seq<PointLight> {
    Seq::new(
        lights.len(),
        |i: int|
            PointLight {
                base_angle: lights[i].base_angle,
                color: Radiance::spec_random_color(colors[i], lights.len() as usize),
                ambient: Radiance::spec_random_ambient(ambient, lights.len() as usize),
            },
    )
}

/// Gives the lights random colours: one ambient direction for all of them, and
/// one direction of its own for each.
pub fn set_random_colors(lights: &mut Vec<PointLight>, ambient: Direction, colors: &Vec<Direction>)
    requires
        colors.len() == old(lights).len(),
    ensures
        final(lights)@ == with_random_colors(old(lights)@, ambient, colors@),
{
    let ghost before = lights@;
    let count = lights.len();
    let mut i: usize = 0;
    while i < count
        invariant
            i <= count,
            count == before.len(),
            count == colors.len(),
            lights@.len() == before.len(),
            forall|j: int|
                0 <= j < i ==> #[trigger] lights@[j] == with_random_colors(
                    before,
                    ambient,
                    colors@,
                )[j],
            forall|j: int| i <= j < lights@.len() ==> #[trigger] lights@[j] == before[j],
        decreases count - i,
    {
        let base_angle = lights[i].base_angle;
        lights.set(
            i,
            PointLight {
                base_angle,
                color: Radiance::random_color(colors[i], count),
                ambient: Radiance::random_ambient(ambient, count),
            },
        );
        i += 1;
    }
    assert(lights@ =~= with_random_colors(before, ambient, colors@));
}

/// All lights are in this ambient and this direct colour.
pub open spec fn show_colors(lights: Seq<PointLight>, ambient: Radiance, color: Radiance) -> bool {
    forall|i: int|
        0 <= i < lights.len() ==> (#[trigger] lights[i]).ambient == ambient && lights[i].color
            == color
}

/// The lights stand at the equal parts of a full turn, one at each.
pub open spec fn evenly_spread(lights: Seq<PointLight>) -> bool {
    forall|i: int|
        0 <= i < lights.len() ==> (#[trigger] lights[i]).base_angle == (Turn {
            index: i as usize,
            count: lights.len() as usize,
        })
}

/// Each light has an equal share of what all have together.
pub open spec fn well_shared(lights: Seq<PointLight>) -> bool {
    forall|i: int|
        0 <= i < lights.len() ==> (#[trigger] lights[i]).ambient.lights == lights.len()
            && lights[i].color.lights == lights.len()
}

/// The sum of the numerators of the totals that lights have a share of.
pub open spec fn summed_numerators(shares: Seq<Radiance>) -> int
    decreases shares.len(),
{
    if shares.len() == 0 {
        0
    } else {
        summed_numerators(shares.drop_last()) + shares.last().total.num
    }
}

/// The shares that lights have of one total add up to this total, however many
/// lights there are: a share is `total.num / (total.den * lights)`.
pub proof fn shares_add_up(shares: Seq<Radiance>, total: Ratio)
    requires
        forall|i: int|
            0 <= i < shares.len() ==> (#[trigger] shares[i]).total == total && shares[i].lights
                == shares.len(),
    ensures
        summed_numerators(shares) * total.den == total.num * (total.den * shares.len()),
{
    lemma_summed_numerators(shares, total);
    let (num, den, count) = (total.num as int, total.den as int, shares.len() as int);
    assert((num * count) * den == num * (den * count)) by (nonlinear_arith);
}

/// Equal numerators add up to their multiple.
proof fn lemma_summed_numerators(shares: Seq<Radiance>, total: Ratio)
    requires
        forall|i: int| 0 <= i < shares.len() ==> (#[trigger] shares[i]).total == total,
    ensures
        summed_numerators(shares) == total.num * shares.len(),
    decreases shares.len(),
{
    if shares.len() > 0 {
        lemma_summed_numerators(shares.drop_last(), total);
        let (num, count) = (total.num as int, shares.len() as int);
        assert(num * (count - 1) + num == num * count) by (nonlinear_arith);
    }
}

/// Lights that are spread evenly start at the angle zero, are one `count`-th of
/// 360 degrees apart, and close the circle.
pub proof fn even_lights_divide_the_circle(lights: Seq<PointLight>)
    requires
        evenly_spread(lights),
        0 < lights.len() <= usize::MAX,
    ensures
        lights[0].base_angle.scaled_degrees() == 0,
        forall|i: int|
            0 <= i < lights.len() - 1 ==> #[trigger] lights[i + 1].base_angle.scaled_degrees()
                - lights[i].base_angle.scaled_degrees() == 360,
        lights.last().base_angle.scaled_degrees() + 360 == 360 * lights.len(),
        forall|i: int|
            0 <= i < lights.len() ==> (#[trigger] lights[i]).base_angle.count == lights.len(),
{
}

/// Random colours that are replaced by the colours from before leave the lights
/// as they were.
pub proof fn random_colors_can_be_taken_back(
    lights: Seq<PointLight>,
    ambient: Radiance,
    color: Radiance,
    random_ambient: Direction,
    random_colors: Seq<Direction>,
)
    requires
        show_colors(lights, ambient, color),
    ensures
        with_colors(with_random_colors(lights, random_ambient, random_colors), ambient, color)
            == lights,
{
    let random = with_random_colors(lights, random_ambient, random_colors);
    assert forall|i: int| 0 <= i < lights.len() implies with_colors(random, ambient, color)[i]
        == lights[i] by {
        assert(random[i].base_angle == lights[i].base_angle);
        assert(lights[i].ambient == ambient && lights[i].color == color);
    }
    assert(with_colors(random, ambient, color) =~= lights);
}

} // verus!
