use pbr_demo::args::Color;
use pbr_demo::lights::{
    create_lights, set_colors, set_random_colors, Hue, LightCamera, Radiance, Turn,
};
use pbr_demo::number::{Direction, Ratio, Scalar};

fn color(red: u8) -> Color {
    Color { red, green: 2, blue: 3, alpha: None }
}

fn direction(bits: u32) -> Direction {
    Direction { x: Scalar { bits }, y: Scalar { bits: bits + 1 }, z: Scalar { bits: bits + 2 } }
}

#[test]
fn chosen_colors_share_their_totals() {
    let ambient = Radiance::chosen_ambient(color(1), 5);
    assert_eq!(ambient.hue, Hue::Chosen(color(1)));
    assert_eq!(ambient.total, Ratio { num: 3, den: 2 });
    assert_eq!(ambient.lights, 5);
    let direct = Radiance::chosen_color(color(1), 5);
    assert_eq!(direct.total, Ratio { num: 250, den: 1 });
    assert_eq!(direct.lights, 5);
}

#[test]
fn lights_divide_the_circle() {
    let ambient = Radiance::chosen_ambient(color(1), 5);
    let direct = Radiance::chosen_color(color(4), 5);
    let lights = create_lights(5, ambient, direct);
    assert_eq!(lights.len(), 5);
    for (i, light) in lights.iter().enumerate() {
        assert_eq!(light.base_angle, Turn { index: i, count: 5 });
        assert_eq!(light.ambient, ambient);
        assert_eq!(light.color, direct);
    }
    let degrees = lights[2].base_angle.index as f32 * 360. / lights[2].base_angle.count as f32;
    assert_eq!(degrees, 144.);
}

#[test]
fn there_may_be_no_lights() {
    let none = Radiance::chosen_ambient(color(1), 0);
    let mut lights = create_lights(0, none, none);
    assert_eq!(lights.len(), 0);
    set_random_colors(&mut lights, direction(1), &vec![]);
    set_colors(&mut lights, none, none);
    assert_eq!(lights.len(), 0);
}

#[test]
fn shares_add_up_to_the_total() {
    let direct = Radiance::chosen_color(color(4), 4);
    let lights = create_lights(4, direct, direct);
    let sum: f32 = lights
        .iter()
        .map(|l| l.color.total.num as f32 / l.color.total.den as f32 / l.color.lights as f32)
        .sum();
    assert_eq!(sum, 250.);
}

#[test]
fn random_colors_have_one_ambient_and_many_directs() {
    let ambient = Radiance::chosen_ambient(color(1), 3);
    let direct = Radiance::chosen_color(color(4), 3);
    let mut lights = create_lights(3, ambient, direct);
    let before = lights.clone();
    let colors = vec![direction(10), direction(20), direction(30)];
    set_random_colors(&mut lights, direction(1), &colors);
    for i in 0..3 {
        assert_eq!(lights[i].base_angle, before[i].base_angle);
        assert_eq!(
            lights[i].ambient,
            Radiance { hue: Hue::Random(direction(1)), total: Ratio { num: 1, den: 50 }, lights: 3 }
        );
        assert_eq!(
            lights[i].color,
            Radiance { hue: Hue::Random(colors[i]), total: Ratio { num: 350, den: 1 }, lights: 3 }
        );
    }
    set_colors(&mut lights, ambient, direct);
    assert_eq!(lights, before);
}

#[test]
fn a_light_looks_at_the_scene() {
    let direct = Radiance::chosen_color(color(4), 2);
    let lights = create_lights(2, direct, direct);
    let whole = |num| Ratio { num, den: 1 };
    assert_eq!(
        lights[1].animate_camera(),
        LightCamera {
            base_angle: Turn { index: 1, count: 2 },
            theta_rate: whole(30),
            phi_rate: whole(13),
            phi_swing: whole(45),
            dist: whole(7),
            fovy: whole(20),
            aspect: whole(1),
            near: Ratio { num: 1, den: 10 },
            far: whole(100),
        }
    );
}
