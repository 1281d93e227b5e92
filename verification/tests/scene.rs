use pbr_demo::app::{App, Layers, Parts};
use pbr_demo::args::Color;
use pbr_demo::event::{
    ElementState, Event, Key, MouseButton, OrbitStep, Response, ScrollDelta,
};
use pbr_demo::frame::Command;
use pbr_demo::lights::{Hue, Radiance};
use pbr_demo::number::{Direction, Ratio, Scalar};
use pbr_demo::pipeline::{Object, Resources, ViewPair};

/// Handles that are names.
struct Names;

impl Resources for Names {
    type Vertices = String;
    type QuadVertices = &'static str;
    type Slice = String;
    type Sampler = &'static str;
    type Texture = String;
    type GeometryView = String;
    type GeometryTarget = String;
    type LuminanceView = String;
    type LuminanceTarget = String;
    type Depth = String;
    type ShadowView = &'static str;
    type ShadowDepth = &'static str;
    type Surface = String;
    type TransformBuffer = &'static str;
    type LiveBuffer = &'static str;
    type LightBuffer = &'static str;
}

fn object(name: &str) -> Object<Names> {
    Object {
        mesh: (format!("{} vertices", name), format!("{} slice", name)),
        sampler: "sampler",
        normal: format!("{} normal", name),
        albedo: format!("{} albedo", name),
        roughness: format!("{} roughness", name),
        metalness: format!("{} metalness", name),
    }
}

fn layers(name: &str) -> Layers<Names> {
    let pair = |layer: &str| ViewPair {
        resource: format!("{} {} resource", name, layer),
        target: format!("{} {} target", name, layer),
    };
    Layers {
        layer_a: pair("a"),
        layer_b: pair("b"),
        value: pair("value"),
        depth: format!("{} depth", name),
    }
}

fn color(red: u8) -> Color {
    Color { red, green: 2, blue: 3, alpha: None }
}

fn scalar(value: f32) -> Scalar {
    Scalar { bits: value.to_bits() }
}

fn direction(value: f32) -> Direction {
    Direction { x: scalar(value), y: scalar(value + 1.), z: scalar(value + 2.) }
}

fn scene(names: &[&str], lights: usize) -> App<Names> {
    let parts = Parts {
        objects: names.iter().map(|name| object(name)).collect(),
        quad: ("quad vertices", "quad slice".to_string()),
        layers: layers("first"),
        gbuf_sampler: "buffer sampler",
        shadow: ("shadow view", "shadow sampler"),
        shadow_depth: "shadow depth",
        deferred_transform: "deferred transform",
        shadow_transform: "shadow transform",
        live: "live",
        light: "light",
        surface: "first surface".to_string(),
        aspect: scalar(1.5),
    };
    App::new(parts, lights, color(10), color(20))
}

fn press(key: Key) -> Event {
    Event::KeyboardInput(ElementState::Pressed, Some(key))
}

fn assert_bound(app: &App<Names>, name: &str) {
    assert_eq!(app.deferred_data.verts, format!("{} vertices", name));
    assert_eq!(app.shadow_data.verts, format!("{} vertices", name));
    assert_eq!(app.deferred_data.normal, (format!("{} normal", name), "sampler"));
    assert_eq!(app.pbr_data.albedo, (format!("{} albedo", name), "sampler"));
    assert_eq!(app.pbr_data.roughness, (format!("{} roughness", name), "sampler"));
    assert_eq!(app.pbr_data.metalness, (format!("{} metalness", name), "sampler"));
}

fn assert_attached(app: &App<Names>, name: &str) {
    assert_eq!(app.deferred_data.layer_a, format!("{} a target", name));
    assert_eq!(app.deferred_data.layer_b, format!("{} b target", name));
    assert_eq!(app.deferred_data.depth, format!("{} depth", name));
    assert_eq!(app.pbr_data.layer_a, (format!("{} a resource", name), "buffer sampler"));
    assert_eq!(app.pbr_data.layer_b, (format!("{} b resource", name), "buffer sampler"));
    assert_eq!(app.pbr_data.luminance, format!("{} value target", name));
    assert_eq!(app.ldr_data.luminance, (format!("{} value resource", name), "buffer sampler"));
}

#[test]
fn a_new_scene_shows_the_first_object() {
    let app = scene(&["cube", "ball"], 2);
    assert_eq!(app.current, 0);
    assert_eq!(app.mouse_pos, None);
    assert_eq!(app.orbit_diff, vec![]);
    assert!(!app.left_down);
    assert_eq!(app.aspect, scalar(1.5));
    assert_eq!(app.objects.len(), 2);
    assert_bound(&app, "cube");
    assert_attached(&app, "first");
    assert_eq!(app.quad.0, "quad vertices");
    assert_eq!(app.quad.1, "quad slice");
    assert_eq!(app.pbr_data.verts, "quad vertices");
    assert_eq!(app.ldr_data.verts, "quad vertices");
    assert_eq!(app.pbr_data.live, "live");
    assert_eq!(app.ldr_data.live, "live");
    assert_eq!(app.pbr_data.light, "light");
    assert_eq!(app.pbr_data.shadow, ("shadow view", "shadow sampler"));
    assert_eq!(app.ldr_data.color, "first surface");
    assert_eq!(app.deferred_data.transform, "deferred transform");
    assert_eq!(app.shadow_data.transform, "shadow transform");
    assert_eq!(app.shadow_data.depth, "shadow depth");
}

#[test]
fn a_new_scene_has_lights_in_the_chosen_colors() {
    let app = scene(&["cube"], 4);
    let ambient =
        Radiance { hue: Hue::Chosen(color(10)), total: Ratio { num: 3, den: 2 }, lights: 4 };
    let direct =
        Radiance { hue: Hue::Chosen(color(20)), total: Ratio { num: 250, den: 1 }, lights: 4 };
    assert_eq!(app.inital_color, (true, ambient, direct));
    assert_eq!(app.lights.len(), 4);
    for light in &app.lights {
        assert_eq!(light.ambient, ambient);
        assert_eq!(light.color, direct);
    }
}

#[test]
fn the_m_key_walks_round_the_objects() {
    let names = ["cube", "ball", "cone"];
    let mut app = scene(&names, 1);
    for step in 1..=7 {
        assert_eq!(app.on(press(Key::M)), Response::Nothing);
        assert_eq!(app.current, step % 3);
        assert_bound(&app, names[step % 3]);
        assert_attached(&app, "first");
        assert_eq!(app.pbr_data.light, "light");
    }
}

#[test]
fn the_only_object_stays() {
    let mut app = scene(&["cube"], 1);
    app.on(press(Key::M));
    assert_eq!(app.current, 0);
    assert_bound(&app, "cube");
}

#[test]
fn an_object_binds_the_passes() {
    let mut app = scene(&["cube"], 1);
    object("ball").apply_to_data(
        &mut app.deferred_data,
        &mut app.pbr_data,
        &mut app.shadow_data,
    );
    assert_bound(&app, "ball");
    assert_attached(&app, "first");
}

#[test]
fn arrows_scale_exposure_and_gamma() {
    let mut app = scene(&["cube"], 1);
    let mut scale = |key| match app.on(press(key)) {
        Response::ScaleExposure(ratio) => ("exposure", ratio.num as f32 / ratio.den as f32),
        Response::ScaleGamma(ratio) => ("gamma", ratio.num as f32 / ratio.den as f32),
        _ => ("nothing", 1.),
    };
    assert_eq!(scale(Key::Up), ("exposure", 1.1));
    assert_eq!(scale(Key::Down), ("exposure", 0.9));
    assert_eq!(scale(Key::Right), ("gamma", 1.05));
    assert_eq!(scale(Key::Left), ("gamma", 0.95));
}

#[test]
fn the_c_key_goes_to_random_colors_and_back() {
    let mut app = scene(&["cube"], 3);
    let first = app.lights.clone();
    assert_eq!(app.on(press(Key::C)), Response::DrawColors(3));
    assert_eq!(app.lights, first);
    assert!(app.inital_color.0);

    let colors = vec![direction(1.), direction(4.), direction(7.)];
    app.recolor(direction(0.), &colors);
    assert!(!app.inital_color.0);
    for i in 0..3 {
        assert_eq!(app.lights[i].base_angle, first[i].base_angle);
        assert_eq!(app.lights[i].ambient.hue, Hue::Random(direction(0.)));
        assert_eq!(app.lights[i].color.hue, Hue::Random(colors[i]));
        let share = |r: Radiance| r.total.num as f32 / r.total.den as f32 / r.lights as f32;
        assert_eq!(share(app.lights[i].ambient), 0.02 / 3.);
        assert_eq!(share(app.lights[i].color), 350. / 3.);
    }

    assert_eq!(app.on(press(Key::C)), Response::Nothing);
    assert_eq!(app.lights, first);
    assert!(app.inital_color.0);
    assert_eq!(app.on(press(Key::C)), Response::DrawColors(3));
}

#[test]
fn other_events_do_nothing() {
    let mut app = scene(&["cube", "ball"], 1);
    let events = [
        press(Key::Escape),
        press(Key::Other),
        Event::KeyboardInput(ElementState::Pressed, None),
        Event::KeyboardInput(ElementState::Released, Some(Key::M)),
        Event::KeyboardInput(ElementState::Released, Some(Key::C)),
        Event::KeyboardInput(ElementState::Released, Some(Key::Up)),
        Event::MouseInput(ElementState::Pressed, MouseButton::Other),
        Event::MouseWheel(ScrollDelta::PixelDelta(scalar(1.), scalar(2.))),
        Event::Other,
    ];
    for event in events {
        assert_eq!(app.on(event), Response::Nothing);
        assert_eq!(app.current, 0);
        assert_eq!(app.orbit_diff, vec![]);
        assert!(!app.left_down);
        assert!(app.inital_color.0);
    }
}

#[test]
fn escape_ends_the_demo() {
    assert_eq!(App::<Names>::get_exit_key(), Some(Key::Escape));
}

#[test]
fn drags_are_kept_while_the_button_is_held() {
    let mut app = scene(&["cube"], 1);
    app.on(Event::MouseMoved(100, 50));
    app.on(Event::MouseMoved(110, 40));
    assert_eq!(app.orbit_diff, vec![]);
    assert_eq!(app.mouse_pos, Some((110, 40)));

    app.on(Event::MouseInput(ElementState::Pressed, MouseButton::Left));
    app.on(Event::MouseMoved(113, 38));
    app.on(Event::MouseMoved(103, 48));
    app.on(Event::MouseInput(ElementState::Released, MouseButton::Left));
    app.on(Event::MouseMoved(0, 0));
    assert_eq!(
        app.orbit_diff,
        vec![OrbitStep::Drag { dx: 3, dy: -2 }, OrbitStep::Drag { dx: -10, dy: 10 }]
    );
}

#[test]
fn drags_sum_to_the_way_of_the_pointer() {
    let mut app = scene(&["cube"], 1);
    app.on(Event::MouseMoved(5, 6));
    app.on(Event::MouseInput(ElementState::Pressed, MouseButton::Left));
    for (x, y) in [(7, 9), (-30, 12), (1000, -4), (8, 8)] {
        app.on(Event::MouseMoved(x, y));
    }
    let mut sum = (0, 0);
    for step in app.render().orbit {
        match step {
            OrbitStep::Drag { dx, dy } => sum = (sum.0 + dx, sum.1 + dy),
            OrbitStep::Scroll(_) => panic!("nothing was scrolled"),
        }
    }
    assert_eq!(sum, (8 - 5, 8 - 6));
}

#[test]
fn a_pointer_comes_back_without_a_jump() {
    let mut app = scene(&["cube"], 1);
    app.on(Event::MouseMoved(5, 6));
    app.on(Event::MouseInput(ElementState::Pressed, MouseButton::Left));
    app.on(Event::MouseLeft);
    assert_eq!(app.mouse_pos, None);
    app.on(Event::MouseMoved(500, 600));
    assert_eq!(app.orbit_diff, vec![OrbitStep::Drag { dx: 0, dy: 0 }]);
}

#[test]
fn a_motion_may_be_too_long() {
    let mut app = scene(&["cube"], 1);
    assert!(app.motion_fits(Event::MouseMoved(i32::MIN, i32::MAX)));
    app.on(Event::MouseMoved(-1, 0));
    assert!(app.motion_fits(Event::MouseMoved(i32::MAX - 1, i32::MIN)));
    assert!(!app.motion_fits(Event::MouseMoved(i32::MAX, 0)));
    app.on(Event::MouseMoved(1, 1));
    assert!(!app.motion_fits(Event::MouseMoved(0, i32::MIN)));
    assert!(app.motion_fits(Event::MouseLeft));
}

#[test]
fn a_frame_takes_all_movements_with_it() {
    let mut app = scene(&["cube", "ball"], 1);
    app.on(press(Key::M));
    app.on(Event::MouseWheel(ScrollDelta::LineDelta(scalar(9.), scalar(-1.))));
    app.on(Event::MouseInput(ElementState::Pressed, MouseButton::Left));
    app.on(Event::MouseMoved(3, 4));
    app.on(Event::MouseMoved(4, 4));
    let frame = app.render();
    assert_eq!(
        frame.orbit,
        vec![
            OrbitStep::Scroll(scalar(-1.)),
            OrbitStep::Drag { dx: 0, dy: 0 },
            OrbitStep::Drag { dx: 1, dy: 0 },
        ]
    );
    assert_eq!(frame.commands.len(), 15);
    assert_eq!(frame.commands[5], Command::DrawGeometry(1));
    assert_eq!(frame.commands[9], Command::DrawShadow(1));
    assert_eq!(app.orbit_diff, vec![]);
    assert_eq!(app.render().orbit, vec![]);
    app.on(Event::MouseMoved(9, 9));
    assert_eq!(app.render().orbit, vec![OrbitStep::Drag { dx: 5, dy: 5 }]);
}

#[test]
fn a_resize_replaces_all_layers() {
    let mut app = scene(&["cube", "ball"], 1);
    app.on(press(Key::M));
    app.on_resize(layers("second"), "second surface".to_string(), scalar(2.));
    assert_attached(&app, "second");
    assert_bound(&app, "ball");
    assert_eq!(app.ldr_data.color, "second surface");
    assert_eq!(app.aspect, scalar(2.));
    assert_eq!(app.current, 1);
    assert_eq!(app.pbr_data.shadow, ("shadow view", "shadow sampler"));
    app.on(press(Key::M));
    assert_attached(&app, "second");
}
