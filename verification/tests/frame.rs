use pbr_demo::frame::{draw_frame, Command};
use pbr_demo::number::Ratio;
use pbr_demo::settings::{initial_settings, quad_corners, quad_triangles, SHADOW_SIZE};

fn value(ratio: Ratio) -> f32 {
    ratio.num as f32 / ratio.den as f32
}

#[test]
fn a_frame_without_lights_shows_nothing_lit() {
    assert_eq!(
        draw_frame(0, 3),
        vec![
            Command::ClearLuminance,
            Command::ClearLayerA,
            Command::ClearLayerB,
            Command::ClearDepth,
            Command::SetView,
            Command::DrawGeometry(3),
            Command::SetLive,
            Command::DrawWindow,
            Command::Flush,
        ]
    );
}

#[test]
fn every_light_has_six_commands() {
    let frame = draw_frame(3, 1);
    assert_eq!(frame.len(), 9 + 6 * 3);
    for light in 0..3 {
        assert_eq!(
            &frame[7 + 6 * light..13 + 6 * light],
            &[
                Command::SetLightView(light),
                Command::ClearShadow,
                Command::DrawShadow(1),
                Command::ClearDepth,
                Command::SetLight(light),
                Command::DrawLight,
            ]
        );
    }
}

#[test]
fn each_light_is_set_once_and_the_window_is_last() {
    let frame = draw_frame(4, 0);
    for light in 0..4 {
        assert_eq!(frame.iter().filter(|c| **c == Command::SetLight(light)).count(), 1);
    }
    assert!(!frame.contains(&Command::SetLight(4)));
    assert_eq!(frame[frame.len() - 2], Command::DrawWindow);
    assert_eq!(frame[frame.len() - 1], Command::Flush);
}

#[test]
fn settings_are_the_numbers_that_they_should_be() {
    let settings = initial_settings();
    assert_eq!(value(settings.cam.theta), 45.);
    assert_eq!(value(settings.cam.phi), 35.264);
    assert_eq!(value(settings.cam.dist), 4.);
    assert_eq!(value(settings.cam.fovy), 35.);
    assert_eq!(value(settings.cam.near), 0.1);
    assert_eq!(value(settings.cam.far), 100.);
    assert_eq!(value(settings.exposure), 0.1);
    assert_eq!(value(settings.gamma), 2.2);
    assert_eq!(value(settings.orbit_speed), 0.2);
    assert_eq!(value(settings.phi_limit), 89.);
    assert_eq!(value(settings.zoom_speed), -0.1);
    assert_eq!(SHADOW_SIZE, 512);
}

#[test]
fn the_quad_has_four_corners_and_two_triangles() {
    let corners: Vec<(i8, i8, i8)> = quad_corners().iter().map(|c| (c.x, c.y, c.z)).collect();
    assert_eq!(corners, vec![(-1, -1, 0), (-1, 1, 0), (1, -1, 0), (1, 1, 0)]);
    assert_eq!(quad_triangles(), [0, 1, 2, 3, 1, 2]);
}

#[test]
fn the_quad_covers_the_middle_of_each_quarter() {
    let corners = quad_corners();
    let triangles = quad_triangles();
    let inside = |t: usize, x: f32, y: f32| {
        let corner = |k: usize| {
            let c = corners[triangles[3 * t + k] as usize];
            (c.x as f32, c.y as f32)
        };
        let side = |a: (f32, f32), b: (f32, f32)| {
            (b.0 - a.0) * (y - a.1) - (b.1 - a.1) * (x - a.0)
        };
        let (a, b, c) = (corner(0), corner(1), corner(2));
        let sides = [side(a, b), side(b, c), side(c, a)];
        sides.iter().all(|s| *s >= 0.) || sides.iter().all(|s| *s <= 0.)
    };
    for (x, y) in [(-0.9, -0.9), (-0.9, 0.8), (0.9, -0.8), (0.9, 0.9)] {
        assert!(inside(0, x, y) || inside(1, x, y));
    }
    assert!(!inside(0, 1.1, 0.) && !inside(1, 1.1, 0.));
}
