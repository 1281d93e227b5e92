//! What each operation does, said of every call: of what it is given and of what
//! comes back.
use crate::app::{App, Frame, Layers, Parts};
use crate::args::{get_args, get_color, parse_number, Args, ArgsError, Color, ColorError, Given};
use crate::event::{
    ElementState, Event, Key, MouseButton, OrbitStep, Response, ScrollDelta,
};
use crate::frame::{draw_frame, Command};
use crate::lights::{
    create_lights, set_colors, set_random_colors, Hue, LightCamera, PointLight, Radiance,
};
use crate::number::{Direction, Ratio, Scalar};
use crate::pipeline::{
    DeferredData, LdrData, Object, PbrData, Resources, ShadowData,
};
use crate::texture::{load_image, texture_of, Picture, Texture, TextureError};
use vstd::prelude::*;
use vstd::utf8::encode_utf8;

verus! {

/// A frame for `count` lights has nine commands and six for each light. It clears
/// the picture and fills the geometry buffer with the object, and it ends with the
/// window and the flush. What a light sees is drawn in its own pass, from its own
/// place and after the last light's shadow is cleared, and then its light is added.
pub proof fn a_frame_draws_the_object_in_every_light(
    count: usize,
    object: usize,
    commands: Vec<Command>,
)
    requires
        call_ensures(draw_frame, (count, object), commands),
    ensures
        commands@.len() == 9 + 6 * count,
        commands@[0] == Command::ClearLuminance,
        commands@[1] == Command::ClearLayerA,
        commands@[2] == Command::ClearLayerB,
        commands@[3] == Command::ClearDepth,
        commands@[4] == Command::SetView,
        commands@[5] == Command::DrawGeometry(object),
        commands@[6] == Command::SetLive,
        forall|light: usize|
            light < count ==> {
                &&& #[trigger] commands@[7 + 6 * light] == Command::SetLightView(light)
                &&& commands@[8 + 6 * light] == Command::ClearShadow
                &&& commands@[9 + 6 * light] == Command::DrawShadow(object)
                &&& commands@[10 + 6 * light] == Command::ClearDepth
                &&& commands@[11 + 6 * light] == Command::SetLight(light)
                &&& commands@[12 + 6 * light] == Command::DrawLight
            },
        commands@[7 + 6 * count] == Command::DrawWindow,
        commands@[8 + 6 * count] == Command::Flush,
{
    crate::frame::the_window_comes_last(count as nat, object, 0);
    crate::frame::the_window_comes_last(count as nat, object, 7 + 6 * count);
    crate::frame::the_window_comes_last(count as nat, object, 8 + 6 * count);
    assert forall|light: usize| light < count implies {
        &&& #[trigger] commands@[7 + 6 * light] == Command::SetLightView(light)
        &&& commands@[8 + 6 * light] == Command::ClearShadow
        &&& commands@[9 + 6 * light] == Command::DrawShadow(object)
        &&& commands@[10 + 6 * light] == Command::ClearDepth
        &&& commands@[11 + 6 * light] == Command::SetLight(light)
        &&& commands@[12 + 6 * light] == Command::DrawLight
    } by {
        crate::frame::every_light_has_its_pass(count as nat, object, light);
        let pass = commands@.subrange(7 + 6 * light, 13 + 6 * light);
        assert(pass[0] == commands@[7 + 6 * light]);
        assert(pass[1] == commands@[8 + 6 * light]);
        assert(pass[2] == commands@[9 + 6 * light]);
        assert(pass[3] == commands@[10 + 6 * light]);
        assert(pass[4] == commands@[11 + 6 * light]);
        assert(pass[5] == commands@[12 + 6 * light]);
    }
}

/// The lights that are made stand one at each of `count` equal parts of a turn,
/// all in the colours that were asked for.
pub proof fn lights_are_made_alike(
    count: usize,
    ambient: Radiance,
    color: Radiance,
    lights: Vec<PointLight>,
)
    requires
        call_ensures(create_lights, (count, ambient, color), lights),
    ensures
        lights@.len() == count,
        forall|i: int|
            0 <= i < count ==> {
                &&& (#[trigger] lights@[i]).base_angle.index == i
                &&& lights@[i].base_angle.count == count
                &&& lights@[i].ambient == ambient
                &&& lights@[i].color == color
            },
{
}

/// Every light, without exception, gets the two colours that all get, and stays
/// where it is.
pub proof fn all_lights_get_the_colors(
    lights: &mut Vec<PointLight>,
    ambient: Radiance,
    color: Radiance,
)
    requires
        call_ensures(set_colors, (lights, ambient, color), ()),
    ensures
        final(lights)@.len() == old(lights)@.len(),
        forall|i: int|
            0 <= i < old(lights)@.len() ==> {
                &&& (#[trigger] final(lights)@[i]).ambient == ambient
                &&& final(lights)@[i].color == color
                &&& final(lights)@[i].base_angle == old(lights)@[i].base_angle
            },
{
}

/// Every light, without exception, gets the random colour that was drawn for it,
/// as a share of 350, and the ambient one that was drawn for all, as a share of
/// 0.02, and stays where it is.
pub proof fn all_lights_get_their_random_colors(
    lights: &mut Vec<PointLight>,
    ambient: Direction,
    colors: &Vec<Direction>,
)
    requires
        colors@.len() == old(lights)@.len(),
        call_ensures(set_random_colors, (lights, ambient, colors), ()),
    ensures
        final(lights)@.len() == old(lights)@.len(),
        forall|i: int|
            0 <= i < old(lights)@.len() ==> {
                let light = #[trigger] final(lights)@[i];
                &&& light.color.hue == Hue::Random(colors@[i])
                &&& light.color.total.num == 350 && light.color.total.den == 1
                &&& light.color.lights == old(lights)@.len()
                &&& light.ambient.hue == Hue::Random(ambient)
                &&& light.ambient.total.num == 1 && light.ambient.total.den == 50
                &&& light.ambient.lights == old(lights)@.len()
                &&& light.base_angle == old(lights)@[i].base_angle
            },
{
    assert(old(lights).len() == old(lights)@.len());
}

/// A chosen colour keeps its channels and its factor, whichever it is and however
/// many lights there are, and is a share of 1.5 or of 250; a random one is a share
/// of 0.02 or of 350.
pub proof fn radiances_keep_their_hue(
    color: Color,
    direction: Direction,
    lights: usize,
    chosen: (Radiance, Radiance),
    random: (Radiance, Radiance),
)
    requires
        call_ensures(Radiance::chosen_ambient, (color, lights), chosen.0),
        call_ensures(Radiance::chosen_color, (color, lights), chosen.1),
        call_ensures(Radiance::random_ambient, (direction, lights), random.0),
        call_ensures(Radiance::random_color, (direction, lights), random.1),
    ensures
        chosen.0.hue == Hue::Chosen(color) && chosen.1.hue == Hue::Chosen(color),
        random.0.hue == Hue::Random(direction) && random.1.hue == Hue::Random(direction),
        chosen.0.lights == lights && chosen.1.lights == lights,
        random.0.lights == lights && random.1.lights == lights,
        2 * chosen.0.total.num == 3 * chosen.0.total.den && chosen.0.total.den > 0,
        chosen.1.total.num == 250 * chosen.1.total.den && chosen.1.total.den > 0,
        50 * random.0.total.num == random.0.total.den && random.0.total.den > 0,
        random.1.total.num == 350 * random.1.total.den && random.1.total.den > 0,
{
}

/// A light's camera starts from the light's own angle. In all else the cameras of
/// any two lights are the same.
pub proof fn light_cameras_differ_by_their_angle(
    first: PointLight,
    second: PointLight,
    cameras: (LightCamera, LightCamera),
)
    requires
        call_ensures(PointLight::animate_camera, (&first,), cameras.0),
        call_ensures(PointLight::animate_camera, (&second,), cameras.1),
    ensures
        cameras.0.base_angle == first.base_angle,
        cameras.1 == (LightCamera { base_angle: second.base_angle, ..cameras.0 }),
        cameras.0.theta_rate == (Ratio { num: 30, den: 1 }),
        cameras.0.phi_rate == (Ratio { num: 13, den: 1 }),
        cameras.0.phi_swing == (Ratio { num: 45, den: 1 }),
        cameras.0.dist == (Ratio { num: 7, den: 1 }),
        cameras.0.fovy == (Ratio { num: 20, den: 1 }),
        cameras.0.aspect == (Ratio { num: 1, den: 1 }),
        cameras.0.near == (Ratio { num: 1, den: 10 }),
        cameras.0.far == (Ratio { num: 100, den: 1 }),
{
}

/// A fraction is what it is made of.
pub proof fn a_ratio_is_its_parts(num: i32, den: u32, ratio: Ratio)
    requires
        call_ensures(Ratio::new, (num, den), ratio),
    ensures
        ratio.num == num,
        ratio.den == den,
{
}

/// A picture's pixels become the texels as they stand: the byte of a channel at a
/// column and a row is the same before and after. The sides lose what is beyond
/// sixteen bits and nothing else.
pub proof fn texels_are_the_pixels(
    picture: Picture,
    texture: Texture,
    x: int,
    y: int,
    channel: int,
)
    requires
        call_ensures(texture_of, (picture,), texture),
    ensures
        texture.texels@ == picture.pixels@,
        0 <= x < picture.width && 0 <= y < picture.height && 0 <= channel < 4
            ==> texture.texels@[4 * (y * picture.width + x) + channel] == picture.pixels@[4 * (y
            * picture.width + x) + channel],
        picture.width < 65536 ==> texture.width == picture.width,
        picture.height < 65536 ==> texture.height == picture.height,
        (picture.width - texture.width) % 65536 == 0,
        (picture.height - texture.height) % 65536 == 0,
{
}

/// A PNG file that can be decoded gives a texture with the decoded pixels as they
/// stand; any other file gives none.
pub proof fn a_png_file_gives_its_pixels(bytes: &[u8], texture: Result<Texture, TextureError>)
    requires
        call_ensures(load_image, (bytes,), texture),
    ensures
        texture is Ok <==> crate::texture::decoded_png(bytes@) is Some,
        texture matches Ok(texture) ==> {
            let (width, height, pixels) = crate::texture::decoded_png(bytes@)->0;
            &&& texture.texels@ == pixels
            &&& texture.texels@.len() == 4 * width * height
            &&& width < 65536 ==> texture.width == width
            &&& height < 65536 ==> texture.height == height
            &&& (width - texture.width) % 65536 == 0
            &&& (height - texture.height) % 65536 == 0
        },
{
}

/// A texture that was loaded and one that is made from the same picture are the
/// same.
pub proof fn loading_is_decoding_and_making(
    bytes: &[u8],
    loaded: Texture,
    picture: Picture,
    made: Texture,
)
    requires
        call_ensures(load_image, (bytes,), Ok::<Texture, TextureError>(loaded)),
        crate::texture::decoded_png(bytes@) == Some((picture.width, picture.height, picture.pixels@)),
        call_ensures(texture_of, (picture,), made),
    ensures
        loaded.width == made.width,
        loaded.height == made.height,
        loaded.texels@ == made.texels@,
{
}

/// A new scene shows the first object: every pass is bound to it. The passes read
/// from the layers that are drawn to, the lights and the window read the live
/// values from one buffer, and the lights are in the colours that were asked for.
pub proof fn a_new_scene_is_wired_up<R: Resources>(
    parts: Parts<R>,
    light_count: usize,
    ambient: Color,
    color: Color,
    app: App<R>,
)
    requires
        parts.objects@.len() > 0,
        call_ensures(App::<R>::new, (parts, light_count, ambient, color), app),
    ensures
        app.mouse_pos is None && !app.left_down && app.orbit_diff@.len() == 0,
        app.current == 0 && app.objects == parts.objects && app.quad == parts.quad,
        app.aspect == parts.aspect,
        app.inital_color.0,
        app.inital_color.1.hue == Hue::Chosen(ambient) && app.inital_color.1.lights == light_count,
        app.inital_color.1.total == (Ratio { num: 3, den: 2 }),
        app.inital_color.2.hue == Hue::Chosen(color) && app.inital_color.2.lights == light_count,
        app.inital_color.2.total == (Ratio { num: 250, den: 1 }),
        app.lights@.len() == light_count,
        forall|i: int|
            0 <= i < light_count ==> {
                &&& (#[trigger] app.lights@[i]).base_angle.index == i
                &&& app.lights@[i].base_angle.count == light_count
                &&& app.lights@[i].ambient == app.inital_color.1
                &&& app.lights@[i].color == app.inital_color.2
            },
        ({
            let first = parts.objects@[0];
            &&& cloned(first.mesh.0, app.deferred_data.verts)
            &&& cloned(first.mesh.0, app.shadow_data.verts)
            &&& cloned(first.normal, app.deferred_data.normal.0)
            &&& cloned(first.albedo, app.pbr_data.albedo.0)
            &&& cloned(first.metalness, app.pbr_data.metalness.0)
            &&& cloned(first.roughness, app.pbr_data.roughness.0)
            &&& cloned(first.sampler, app.deferred_data.normal.1)
            &&& cloned(first.sampler, app.pbr_data.albedo.1)
            &&& cloned(first.sampler, app.pbr_data.metalness.1)
            &&& cloned(first.sampler, app.pbr_data.roughness.1)
        }),
        app.deferred_data.layer_a == parts.layers.layer_a.target,
        app.deferred_data.layer_b == parts.layers.layer_b.target,
        app.deferred_data.depth == parts.layers.depth,
        app.deferred_data.transform == parts.deferred_transform,
        app.pbr_data.layer_a.0 == parts.layers.layer_a.resource,
        app.pbr_data.layer_b.0 == parts.layers.layer_b.resource,
        app.pbr_data.luminance == parts.layers.value.target,
        app.pbr_data.live == parts.live && app.pbr_data.light == parts.light,
        app.pbr_data.shadow == parts.shadow,
        cloned(parts.quad.0, app.pbr_data.verts) && cloned(parts.quad.0, app.ldr_data.verts),
        cloned(parts.gbuf_sampler, app.pbr_data.layer_a.1),
        cloned(parts.gbuf_sampler, app.pbr_data.layer_b.1),
        cloned(parts.gbuf_sampler, app.ldr_data.luminance.1),
        app.ldr_data.luminance.0 == parts.layers.value.resource,
        cloned(parts.live, app.ldr_data.live),
        app.ldr_data.color == parts.surface,
        app.shadow_data.transform == parts.shadow_transform,
        app.shadow_data.depth == parts.shadow_depth,
{
}

/// A scene can be made wherever there is an object, with any number of lights in
/// any colours.
pub proof fn any_objects_make_a_scene<R: Resources>(
    parts: Parts<R>,
    light_count: usize,
    ambient: Color,
    color: Color,
)
    requires
        parts.objects@.len() > 0,
    ensures
        call_requires(App::<R>::new, (parts, light_count, ambient, color)),
{
}

/// An object brings its own mesh, maps and sampler to the passes, each to its
/// place, and nothing else changes.
pub proof fn an_object_brings_its_own<R: Resources>(
    object: &Object<R>,
    deferred: &mut DeferredData<R>,
    pbr: &mut PbrData<R>,
    shadow: &mut ShadowData<R>,
)
    requires
        call_ensures(Object::<R>::apply_to_data, (object, deferred, pbr, shadow), ()),
    ensures
        cloned(object.mesh.0, final(deferred).verts),
        cloned(object.mesh.0, final(shadow).verts),
        cloned(object.normal, final(deferred).normal.0),
        cloned(object.albedo, final(pbr).albedo.0),
        cloned(object.roughness, final(pbr).roughness.0),
        cloned(object.metalness, final(pbr).metalness.0),
        cloned(object.sampler, final(deferred).normal.1),
        cloned(object.sampler, final(pbr).albedo.1),
        cloned(object.sampler, final(pbr).roughness.1),
        cloned(object.sampler, final(pbr).metalness.1),
        final(deferred).transform == old(deferred).transform,
        final(deferred).layer_a == old(deferred).layer_a,
        final(deferred).layer_b == old(deferred).layer_b,
        final(deferred).depth == old(deferred).depth,
        final(pbr).verts == old(pbr).verts,
        final(pbr).live == old(pbr).live,
        final(pbr).light == old(pbr).light,
        final(pbr).layer_a == old(pbr).layer_a,
        final(pbr).layer_b == old(pbr).layer_b,
        final(pbr).shadow == old(pbr).shadow,
        final(pbr).luminance == old(pbr).luminance,
        final(shadow).transform == old(shadow).transform,
        final(shadow).depth == old(shadow).depth,
{
}

/// The pointer is followed to every place. With the left button down, whatever
/// else the scene is in, it drags the camera by the way from its last place, and
/// by nothing from outside the window; with the button up it does not. Nothing
/// else changes.
pub proof fn a_moved_pointer_drags<R: Resources>(
    app: &mut App<R>,
    x: i32,
    y: i32,
    from: (i32, i32),
    way: (i32, i32),
    response: Response,
)
    requires
        call_ensures(App::<R>::on, (app, Event::MouseMoved(x, y)), response),
    ensures
        response == Response::Nothing,
        !old(app).left_down ==> final(app).orbit_diff@ == old(app).orbit_diff@,
        old(app).left_down && old(app).mouse_pos is None ==> final(app).orbit_diff@ == old(
            app,
        ).orbit_diff@.push(OrbitStep::Drag { dx: 0, dy: 0 }),
        old(app).left_down && old(app).mouse_pos == Some(from) && from.0 + way.0 == x && from.1
            + way.1 == y ==> final(app).orbit_diff@ == old(app).orbit_diff@.push(
            OrbitStep::Drag { dx: way.0, dy: way.1 },
        ),
        *final(app) == (App {
            mouse_pos: Some((x, y)),
            lights: final(app).lights,
            orbit_diff: final(app).orbit_diff,
            ..*old(app)
        }),
        final(app).lights@ == old(app).lights@,
{
}

/// Wherever the pointer is, whatever the button does and however many lights there
/// are, a wheel that is turned by lines zooms by just as many. Nothing else
/// changes.
pub proof fn a_turned_wheel_zooms<R: Resources>(
    app: &mut App<R>,
    x: Scalar,
    y: Scalar,
    response: Response,
)
    requires
        call_ensures(
            App::<R>::on,
            (app, Event::MouseWheel(ScrollDelta::LineDelta(x, y))),
            response,
        ),
    ensures
        response == Response::Nothing,
        final(app).orbit_diff@ == old(app).orbit_diff@.push(OrbitStep::Scroll(y)),
        *final(app) == (App {
            lights: final(app).lights,
            orbit_diff: final(app).orbit_diff,
            ..*old(app)
        }),
        final(app).lights@ == old(app).lights@,
{
}

/// The left button is down from its press to its release, in any state of the
/// scene. Nothing else changes.
pub proof fn the_left_button_is_held<R: Resources>(
    app: &mut App<R>,
    state: ElementState,
    response: Response,
)
    requires
        call_ensures(App::<R>::on, (app, Event::MouseInput(state, MouseButton::Left)), response),
    ensures
        response == Response::Nothing,
        final(app).left_down <==> state == ElementState::Pressed,
        final(app).orbit_diff@ == old(app).orbit_diff@,
        *final(app) == (App {
            left_down: final(app).left_down,
            lights: final(app).lights,
            orbit_diff: final(app).orbit_diff,
            ..*old(app)
        }),
        final(app).lights@ == old(app).lights@,
{
}

/// A pointer that leaves the window is nowhere, wherever it was. Nothing else
/// changes.
pub proof fn a_pointer_that_left_is_nowhere<R: Resources>(app: &mut App<R>, response: Response)
    requires
        call_ensures(App::<R>::on, (app, Event::MouseLeft), response),
    ensures
        response == Response::Nothing,
        final(app).orbit_diff@ == old(app).orbit_diff@,
        *final(app) == (App {
            mouse_pos: None,
            lights: final(app).lights,
            orbit_diff: final(app).orbit_diff,
            ..*old(app)
        }),
        final(app).lights@ == old(app).lights@,
{
}

/// An arrow key is answered by the same factor in every state of the scene,
/// whatever colours the lights show and however many there are: up makes the
/// exposure 1.1 times as much, down 0.9 times, right makes the gamma 1.05 times as
/// much, left 0.95 times. The scene does not change.
pub proof fn arrow_keys_scale<R: Resources>(app: &mut App<R>, key: Key, response: Response)
    requires
        key == Key::Up || key == Key::Down || key == Key::Right || key == Key::Left,
        call_ensures(
            App::<R>::on,
            (app, Event::KeyboardInput(ElementState::Pressed, Some(key))),
            response,
        ),
    ensures
        key == Key::Up ==> response == Response::ScaleExposure(Ratio { num: 11, den: 10 }),
        key == Key::Down ==> response == Response::ScaleExposure(Ratio { num: 9, den: 10 }),
        key == Key::Right ==> response == Response::ScaleGamma(Ratio { num: 21, den: 20 }),
        key == Key::Left ==> response == Response::ScaleGamma(Ratio { num: 19, den: 20 }),
        final(app).orbit_diff@ == old(app).orbit_diff@,
        *final(app) == (App {
            lights: final(app).lights,
            orbit_diff: final(app).orbit_diff,
            ..*old(app)
        }),
        final(app).lights@ == old(app).lights@,
{
}

/// The key M shows the next object, and after the last one the first, in every
/// state of the scene, and binds every pass to the object that it shows. Nothing
/// else changes.
pub proof fn m_shows_the_next_object<R: Resources>(app: &mut App<R>, response: Response)
    requires
        old(app).current < old(app).objects@.len(),
        call_ensures(
            App::<R>::on,
            (app, Event::KeyboardInput(ElementState::Pressed, Some(Key::M))),
            response,
        ),
    ensures
        response == Response::Nothing,
        old(app).current < old(app).objects@.len() - 1 ==> final(app).current == old(app).current
            + 1,
        old(app).current == old(app).objects@.len() - 1 ==> final(app).current == 0,
        ({
            let shown = old(app).objects@[final(app).current as int];
            &&& cloned(shown.mesh.0, final(app).deferred_data.verts)
            &&& cloned(shown.mesh.0, final(app).shadow_data.verts)
            &&& cloned(shown.normal, final(app).deferred_data.normal.0)
            &&& cloned(shown.albedo, final(app).pbr_data.albedo.0)
            &&& cloned(shown.roughness, final(app).pbr_data.roughness.0)
            &&& cloned(shown.metalness, final(app).pbr_data.metalness.0)
            &&& cloned(shown.sampler, final(app).deferred_data.normal.1)
            &&& cloned(shown.sampler, final(app).pbr_data.albedo.1)
            &&& cloned(shown.sampler, final(app).pbr_data.roughness.1)
            &&& cloned(shown.sampler, final(app).pbr_data.metalness.1)
        }),
        final(app).orbit_diff@ == old(app).orbit_diff@,
        *final(app) == (App {
            current: final(app).current,
            deferred_data: DeferredData {
                verts: final(app).deferred_data.verts,
                normal: final(app).deferred_data.normal,
                ..old(app).deferred_data
            },
            pbr_data: PbrData {
                albedo: final(app).pbr_data.albedo,
                roughness: final(app).pbr_data.roughness,
                metalness: final(app).pbr_data.metalness,
                ..old(app).pbr_data
            },
            shadow_data: ShadowData {
                verts: final(app).shadow_data.verts,
                ..old(app).shadow_data
            },
            lights: final(app).lights,
            orbit_diff: final(app).orbit_diff,
            ..*old(app)
        }),
        final(app).lights@ == old(app).lights@,
{
}

/// While the lights show their first colours, the key C asks for a random colour
/// for each of them and changes nothing.
pub proof fn c_asks_for_a_color_for_each_light<R: Resources>(app: &mut App<R>, response: Response)
    requires
        old(app).inital_color.0,
        call_ensures(
            App::<R>::on,
            (app, Event::KeyboardInput(ElementState::Pressed, Some(Key::C))),
            response,
        ),
    ensures
        response == Response::DrawColors(old(app).lights.len()),
        final(app).orbit_diff@ == old(app).orbit_diff@,
        *final(app) == (App {
            lights: final(app).lights,
            orbit_diff: final(app).orbit_diff,
            ..*old(app)
        }),
        final(app).lights@ == old(app).lights@,
{
}

/// While the lights show random colours, the key C brings every one of them back
/// to the first colours, and asks for nothing. Nothing else changes.
pub proof fn c_brings_the_first_colors_back<R: Resources>(app: &mut App<R>, response: Response)
    requires
        !old(app).inital_color.0,
        call_ensures(
            App::<R>::on,
            (app, Event::KeyboardInput(ElementState::Pressed, Some(Key::C))),
            response,
        ),
    ensures
        response == Response::Nothing,
        final(app).lights@.len() == old(app).lights@.len(),
        forall|i: int|
            0 <= i < old(app).lights@.len() ==> {
                &&& (#[trigger] final(app).lights@[i]).ambient == old(app).inital_color.1
                &&& final(app).lights@[i].color == old(app).inital_color.2
                &&& final(app).lights@[i].base_angle == old(app).lights@[i].base_angle
            },
        final(app).orbit_diff@ == old(app).orbit_diff@,
        *final(app) == (App {
            inital_color: (true, old(app).inital_color.1, old(app).inital_color.2),
            lights: final(app).lights,
            orbit_diff: final(app).orbit_diff,
            ..*old(app)
        }),
{
}

/// Any other event changes nothing and asks for nothing: a release of any key, a
/// press of a key without a name or without a use, another button, a wheel that
/// counts in pixels.
pub proof fn other_events_change_nothing<R: Resources>(
    app: &mut App<R>,
    event: Event,
    response: Response,
)
    requires
        match event {
            Event::KeyboardInput(ElementState::Released, _) => true,
            Event::KeyboardInput(ElementState::Pressed, key) => key is None || key == Some(
                Key::Escape,
            ) || key == Some(Key::Other),
            Event::MouseMoved(_, _) => false,
            Event::MouseLeft => false,
            Event::MouseInput(_, button) => button == MouseButton::Other,
            Event::MouseWheel(delta) => delta is PixelDelta,
            Event::Other => true,
        },
        call_ensures(App::<R>::on, (app, event), response),
    ensures
        response == Response::Nothing,
        final(app).orbit_diff@ == old(app).orbit_diff@,
        *final(app) == (App {
            lights: final(app).lights,
            orbit_diff: final(app).orbit_diff,
            ..*old(app)
        }),
        final(app).lights@ == old(app).lights@,
{
}

/// Random colours reach every light, the one that was drawn for it and the ambient
/// one, and the first colours are kept for later. Nothing else changes.
pub proof fn recoloring_reaches_every_light<R: Resources>(
    app: &mut App<R>,
    ambient: Direction,
    colors: &Vec<Direction>,
)
    requires
        colors@.len() == old(app).lights@.len(),
        call_ensures(App::<R>::recolor, (app, ambient, colors), ()),
    ensures
        final(app).lights@.len() == old(app).lights@.len(),
        forall|i: int|
            0 <= i < old(app).lights@.len() ==> {
                let light = #[trigger] final(app).lights@[i];
                &&& light.color.hue == Hue::Random(colors@[i])
                &&& light.color.total.num == 350 && light.color.total.den == 1
                &&& light.color.lights == old(app).lights@.len()
                &&& light.ambient.hue == Hue::Random(ambient)
                &&& light.ambient.total.num == 1 && light.ambient.total.den == 50
                &&& light.ambient.lights == old(app).lights@.len()
                &&& light.base_angle == old(app).lights@[i].base_angle
            },
        *final(app) == (App {
            inital_color: (false, old(app).inital_color.1, old(app).inital_color.2),
            lights: final(app).lights,
            ..*old(app)
        }),
{
    assert(old(app).lights.len() == old(app).lights@.len());
}

/// After a resize every pass that draws to a layer, and every pass that reads from
/// it, has the new one, the window is drawn to where it now is, and the samplers
/// and all else stay.
pub proof fn a_resize_replaces_the_layers<R: Resources>(
    app: &mut App<R>,
    layers: Layers<R>,
    surface: R::Surface,
    aspect: Scalar,
)
    requires
        call_ensures(App::<R>::on_resize, (app, layers, surface, aspect), ()),
    ensures
        final(app).deferred_data.layer_a == layers.layer_a.target,
        final(app).deferred_data.layer_b == layers.layer_b.target,
        final(app).deferred_data.depth == layers.depth,
        final(app).pbr_data.layer_a == (layers.layer_a.resource, old(app).pbr_data.layer_a.1),
        final(app).pbr_data.layer_b == (layers.layer_b.resource, old(app).pbr_data.layer_b.1),
        final(app).pbr_data.luminance == layers.value.target,
        final(app).ldr_data.luminance == (
            layers.value.resource,
            old(app).ldr_data.luminance.1,
        ),
        final(app).ldr_data.color == surface,
        final(app).aspect == aspect,
        *final(app) == (App {
            aspect: final(app).aspect,
            deferred_data: DeferredData {
                layer_a: final(app).deferred_data.layer_a,
                layer_b: final(app).deferred_data.layer_b,
                depth: final(app).deferred_data.depth,
                ..old(app).deferred_data
            },
            pbr_data: PbrData {
                layer_a: final(app).pbr_data.layer_a,
                layer_b: final(app).pbr_data.layer_b,
                luminance: final(app).pbr_data.luminance,
                ..old(app).pbr_data
            },
            ldr_data: LdrData {
                luminance: final(app).ldr_data.luminance,
                color: final(app).ldr_data.color,
                ..old(app).ldr_data
            },
            ..*old(app)
        }),
{
}

/// A frame takes along all movements that wait, in their order, and leaves none.
/// It draws the object that is shown in the light of all lights. Nothing else
/// changes.
pub proof fn a_frame_takes_the_movements<R: Resources>(
    app: &mut App<R>,
    frame: Frame,
    commands: Vec<Command>,
)
    requires
        call_ensures(App::<R>::render, (app,), frame),
        call_ensures(draw_frame, (old(app).lights.len(), old(app).current), commands),
    ensures
        frame.orbit@ == old(app).orbit_diff@,
        frame.commands@ == commands@,
        final(app).orbit_diff@.len() == 0,
        *final(app) == (App { orbit_diff: final(app).orbit_diff, ..*old(app) }),
{
}

/// A motion fits exactly where each of its two distances is a number of 32 bits;
/// any other event fits.
pub proof fn motions_of_32_bits_fit<R: Resources>(app: &App<R>, event: Event, fits: bool)
    requires
        call_ensures(App::<R>::motion_fits, (app, event), fits),
    ensures
        event is MouseMoved && app.mouse_pos is Some ==> (fits <==> {
            let (x0, y0) = app.mouse_pos->0;
            &&& -0x8000_0000 <= event->MouseMoved_0 - x0 <= 0x7fff_ffff
            &&& -0x8000_0000 <= event->MouseMoved_1 - y0 <= 0x7fff_ffff
        }),
        !(event is MouseMoved) || app.mouse_pos is None ==> fits,
{
}

/// A scene in order can draw a frame and take any event: one is only refused for a
/// motion that is too long.
pub proof fn a_scene_goes_on<R: Resources>(app: &mut App<R>, event: Event)
    requires
        old(app).well_formed(),
    ensures
        !(event is MouseMoved) ==> call_requires(App::<R>::on, (app, event)),
        old(app).mouse_pos is None ==> call_requires(App::<R>::on, (app, event)),
        call_ensures(App::<R>::motion_fits, (&*old(app), event), true) ==> call_requires(
            App::<R>::on,
            (app, event),
        ),
        call_requires(App::<R>::render, (app,)),
{
}

/// Whatever is done to a scene leaves it in order.
pub proof fn a_scene_stays_in_order<R: Resources>(
    app: &mut App<R>,
    event: Event,
    response: Response,
    ambient: Direction,
    colors: &Vec<Direction>,
    layers: Layers<R>,
    surface: R::Surface,
    aspect: Scalar,
    frame: Frame,
)
    requires
        call_ensures(App::<R>::on, (app, event), response) || call_ensures(
            App::<R>::recolor,
            (app, ambient, colors),
            (),
        ) || call_ensures(App::<R>::on_resize, (app, layers, surface, aspect), ())
            || call_ensures(App::<R>::render, (app,), frame),
    ensures
        final(app).well_formed(),
{
}

/// A scene in order shows one of its objects, and every pass is bound to that one.
/// Its lights stand at equal parts of a turn. Where they are said to show their
/// first colours, every one of them does.
pub proof fn a_scene_in_order<R: Resources>(app: App<R>, i: int)
    requires
        app.well_formed(),
    ensures
        app.current < app.objects@.len(),
        ({
            let shown = app.objects@[app.current as int];
            &&& cloned(shown.mesh.0, app.deferred_data.verts)
            &&& cloned(shown.mesh.0, app.shadow_data.verts)
            &&& cloned(shown.normal, app.deferred_data.normal.0)
            &&& cloned(shown.albedo, app.pbr_data.albedo.0)
            &&& cloned(shown.roughness, app.pbr_data.roughness.0)
            &&& cloned(shown.metalness, app.pbr_data.metalness.0)
            &&& cloned(shown.sampler, app.deferred_data.normal.1)
            &&& cloned(shown.sampler, app.pbr_data.albedo.1)
            &&& cloned(shown.sampler, app.pbr_data.roughness.1)
            &&& cloned(shown.sampler, app.pbr_data.metalness.1)
        }),
        0 <= i < app.lights@.len() ==> {
            &&& app.lights@[i].base_angle.index == i
            &&& app.lights@[i].base_angle.count == app.lights@.len()
            &&& app.lights@[i].color.lights == app.lights@.len()
            &&& app.lights@[i].ambient.lights == app.lights@.len()
            &&& app.inital_color.0 ==> app.lights@[i].ambient == app.inital_color.1
                && app.lights@[i].color == app.inital_color.2
        },
        cloned(app.pbr_data.live, app.ldr_data.live),
{
    assert(app.lights.len() == app.lights@.len());
}

/// The key C, the random colours that it asks for and the key C again leave the
/// lights as they were, whatever the colours are.
pub proof fn c_twice_changes_no_light<R: Resources>(
    first: &mut App<R>,
    second: &mut App<R>,
    third: &mut App<R>,
    responses: (Response, Response),
    ambient: Direction,
    colors: &Vec<Direction>,
)
    requires
        old(first).well_formed(),
        old(first).inital_color.0,
        call_ensures(
            App::<R>::on,
            (first, Event::KeyboardInput(ElementState::Pressed, Some(Key::C))),
            responses.0,
        ),
        call_ensures(App::<R>::recolor, (second, ambient, colors), ()),
        call_ensures(
            App::<R>::on,
            (third, Event::KeyboardInput(ElementState::Pressed, Some(Key::C))),
            responses.1,
        ),
    ensures
        *old(second) == *final(first) && *old(third) == *final(second) ==> {
            &&& responses.0 == Response::DrawColors(old(first).lights.len())
            &&& responses.1 == Response::Nothing
            &&& final(third).lights@ == old(first).lights@
            &&& final(third).inital_color == old(first).inital_color
        },
{
    if *old(second) == *final(first) && *old(third) == *final(second) {
        crate::lights::random_colors_can_be_taken_back(
            old(first).lights@,
            old(first).inital_color.1,
            old(first).inital_color.2,
            ambient,
            colors@,
        );
    }
}

/// A frame between two events takes nothing from the movements and adds nothing:
/// what the two frames take along, the one between and the one after, is what one
/// frame after both would.
pub proof fn a_frame_between_loses_nothing<R: Resources>(
    events: (Event, Event),
    p0: &mut App<R>,
    p1: &mut App<R>,
    p2: &mut App<R>,
    s0: &mut App<R>,
    s1: &mut App<R>,
    s2: &mut App<R>,
    s3: &mut App<R>,
    responses: (Response, Response, Response, Response),
    frames: (Frame, Frame, Frame),
)
    requires
        call_ensures(App::<R>::on, (p0, events.0), responses.0),
        call_ensures(App::<R>::on, (p1, events.1), responses.1),
        call_ensures(App::<R>::render, (p2,), frames.0),
        call_ensures(App::<R>::on, (s0, events.0), responses.2),
        call_ensures(App::<R>::render, (s1,), frames.1),
        call_ensures(App::<R>::on, (s2, events.1), responses.3),
        call_ensures(App::<R>::render, (s3,), frames.2),
        *old(s0) == *old(p0),
    ensures
        ({
            &&& *old(p1) == *final(p0)
            &&& *old(p2) == *final(p1)
            &&& *old(s1) == *final(s0)
            &&& *old(s2) == *final(s1)
            &&& *old(s3) == *final(s2)
        }) ==> frames.0.orbit@ == frames.1.orbit@ + frames.2.orbit@,
{
    if *old(p1) == *final(p0) && *old(p2) == *final(p1) && *old(s1) == *final(s0) && *old(s2)
        == *final(s1) && *old(s3) == *final(s2) {
        assert(frames.0.orbit@ =~= frames.1.orbit@ + frames.2.orbit@);
    }
}

/// No text without a digit is a number, be it empty or a lone plus.
pub proof fn a_number_has_a_digit(text: &str, radix: u64, max: u64, number: Option<u64>)
    requires
        2 <= radix <= 36,
        call_ensures(parse_number, (text, radix, max), number),
        encode_utf8(text@).len() == 0 || encode_utf8(text@) == seq![0x2bu8],
    ensures
        number is None,
{
}

/// A single digit, or a letter of either case from ten on, is its own value.
pub proof fn a_digit_is_its_value(
    text: &str,
    radix: u64,
    max: u64,
    number: Option<u64>,
    value: u64,
)
    requires
        2 <= radix <= 36,
        call_ensures(parse_number, (text, radix, max), number),
        encode_utf8(text@).len() == 1,
        ({
            let byte = encode_utf8(text@)[0];
            ||| 0x30 <= byte <= 0x39 && value == byte - 0x30
            ||| 0x41 <= byte <= 0x5a && value == byte - 0x41 + 10
            ||| 0x61 <= byte <= 0x7a && value == byte - 0x61 + 10
        }),
    ensures
        value < radix && value <= max ==> number == Some(value),
        value >= radix || value > max ==> number is None,
{
    let bytes = encode_utf8(text@);
    assert(bytes =~= seq![bytes[0]]);
    assert(bytes.drop_last() =~= seq![]);
    assert(crate::args::digits_value(bytes.drop_last(), radix as int) == 0);
    assert(crate::args::digits_value(bytes, radix as int) == value);
    assert(crate::args::digit_value(bytes[0]) == value);
}

/// A digit behind a number makes it `radix` times as much and adds its own value,
/// up to the limit. A text that is no number, and has a digit or anything else than
/// a plus, becomes none by a digit.
pub proof fn one_more_digit_shifts_a_number(
    text: &str,
    longer: &str,
    radix: u64,
    max: u64,
    number: Option<u64>,
    more: Option<u64>,
    value: u64,
)
    requires
        2 <= radix <= 36,
        call_ensures(parse_number, (text, radix, max), number),
        call_ensures(parse_number, (longer, radix, max), more),
        encode_utf8(text@).len() > 0,
        encode_utf8(text@) != seq![0x2bu8],
        encode_utf8(longer@).len() == encode_utf8(text@).len() + 1,
        encode_utf8(longer@).drop_last() == encode_utf8(text@),
        ({
            let byte = encode_utf8(longer@).last();
            ||| 0x30 <= byte <= 0x39 && value == byte - 0x30
            ||| 0x41 <= byte <= 0x5a && value == byte - 0x41 + 10
            ||| 0x61 <= byte <= 0x7a && value == byte - 0x61 + 10
        }),
        value < radix,
    ensures
        number matches Some(high) ==> {
            &&& high * radix + value <= max ==> more == Some((high * radix + value) as u64)
            &&& high * radix + value > max ==> more is None
        },
        number is None ==> more is None,
{
    let (bytes, all) = (encode_utf8(text@), encode_utf8(longer@));
    let (digits, longer_digits) = (
        crate::args::unsigned_part(bytes),
        crate::args::unsigned_part(all),
    );
    assert(all[0] == bytes[0]);
    if bytes[0] == 0x2b {
        if bytes.len() == 1 {
            assert(bytes =~= seq![0x2bu8]);
        }
    }
    assert(longer_digits.drop_last() =~= digits);
    assert(longer_digits.last() == all.last());
    assert(crate::args::digit_value(all.last()) == value);
    let high = crate::args::digits_value(digits, radix as int);
    assert(crate::args::digits_value(longer_digits, radix as int) == high * radix + value);
    if crate::args::all_digits(longer_digits, radix as int) {
        assert forall|i: int| 0 <= i < digits.len() implies crate::args::digit_value(
            #[trigger] digits[i],
        ) < radix by {
            assert(digits[i] == longer_digits[i]);
        }
        crate::args::lemma_prefix_value(longer_digits, radix as int, digits.len() as int);
        assert(longer_digits.take(digits.len() as int) =~= digits);
    }
    if crate::args::all_digits(digits, radix as int) {
        assert forall|i: int| 0 <= i < longer_digits.len() implies crate::args::digit_value(
            #[trigger] longer_digits[i],
        ) < radix by {
            if i < digits.len() {
                assert(digits[i] == longer_digits[i]);
            }
        }
    }
}

/// One plus in front of a number does not change it; a second one makes it none.
pub proof fn a_plus_may_stand_in_front(
    text: &str,
    longer: &str,
    radix: u64,
    max: u64,
    number: Option<u64>,
    more: Option<u64>,
)
    requires
        2 <= radix <= 36,
        call_ensures(parse_number, (text, radix, max), number),
        call_ensures(parse_number, (longer, radix, max), more),
        encode_utf8(text@).len() > 0,
        encode_utf8(longer@) == seq![0x2bu8] + encode_utf8(text@),
    ensures
        encode_utf8(text@)[0] != 0x2b ==> more == number,
        encode_utf8(text@)[0] == 0x2b ==> more is None,
{
    let (bytes, all) = (encode_utf8(text@), encode_utf8(longer@));
    assert(all.skip(1) =~= bytes);
    if bytes[0] == 0x2b {
        assert(crate::args::digit_value(all.skip(1)[0]) == 36);
    }
}

/// A text with a byte that is no digit of the radix is no number, unless that byte
/// is a plus in front.
pub proof fn every_byte_of_a_number_is_a_digit(
    text: &str,
    radix: u64,
    max: u64,
    number: Option<u64>,
    place: int,
)
    requires
        2 <= radix <= 36,
        call_ensures(parse_number, (text, radix, max), number),
        0 <= place < encode_utf8(text@).len(),
        ({
            let byte = encode_utf8(text@)[place];
            &&& !(0x30 <= byte <= 0x39 && byte - 0x30 < radix)
            &&& !(0x41 <= byte <= 0x5a && byte - 0x41 + 10 < radix)
            &&& !(0x61 <= byte <= 0x7a && byte - 0x61 + 10 < radix)
            &&& !(place == 0 && byte == 0x2b)
        }),
    ensures
        number is None,
{
    let bytes = encode_utf8(text@);
    let digits = crate::args::unsigned_part(bytes);
    assert(crate::args::digit_value(bytes[place]) >= radix);
    if bytes[0] == 0x2b {
        assert(digits[place - 1] == bytes[place]);
    } else {
        assert(digits[place] == bytes[place]);
    }
}

/// An argument's error is told by the argument alone, whatever is wrong with it.
pub proof fn an_error_names_its_argument(error: ArgsError, text: &'static str)
    requires
        call_ensures(ArgsError::message, (&error,), text),
    ensures
        error is LightCount ==> text@ == "Could not parse light count"@,
        error is Ambient ==> text@ == "Could not parse ambient color arg"@,
        error is Color ==> text@ == "Could not parse light color arg"@,
{
}

/// A colour is missing exactly without a value, and too long or too short exactly
/// where its first value is not six bytes, whatever else is given.
pub proof fn a_color_has_six_bytes(
    values: &Vec<String>,
    factor: Option<Scalar>,
    color: Result<Color, ColorError>,
)
    requires
        call_ensures(get_color, (values, factor), color),
    ensures
        color == Err::<Color, ColorError>(ColorError::Missing) <==> values@.len() == 0,
        color == Err::<Color, ColorError>(ColorError::Length) <==> values@.len() > 0
            && encode_utf8(values@[0]@).len() != 6,
{
}

/// Six bytes of which one is no hexadecimal digit, and no plus in front, are never
/// a colour, whatever else is given.
pub proof fn a_color_has_hexadecimal_digits(
    values: &Vec<String>,
    factor: Option<Scalar>,
    color: Result<Color, ColorError>,
    place: int,
)
    requires
        call_ensures(get_color, (values, factor), color),
        values@.len() > 0,
        encode_utf8(values@[0]@).len() == 6,
        0 <= place < 6,
        ({
            let byte = encode_utf8(values@[0]@)[place];
            &&& !(0x30 <= byte <= 0x39)
            &&& !(0x41 <= byte <= 0x46)
            &&& !(0x61 <= byte <= 0x66)
            &&& !(place == 0 && byte == 0x2b)
        }),
    ensures
        color == Err::<Color, ColorError>(ColorError::Digits),
{
    let bytes = encode_utf8(values@[0]@);
    let digits = crate::args::unsigned_part(bytes);
    assert(crate::args::digit_value(bytes[place]) >= 16);
    if bytes[0] == 0x2b {
        assert(digits[place - 1] == bytes[place]);
    } else {
        assert(digits[place] == bytes[place]);
    }
}

/// Six hexadecimal digits, in letters of either case, are a colour: two digits for
/// each of red, green and blue. A plus in front counts as the digit zero. A second
/// value has to be a number, and is then the factor; without one there is none.
pub proof fn six_digits_are_a_color(
    values: &Vec<String>,
    factor: Option<Scalar>,
    color: Result<Color, ColorError>,
    d: Seq<int>,
)
    requires
        call_ensures(get_color, (values, factor), color),
        values@.len() > 0,
        encode_utf8(values@[0]@).len() == 6,
        d.len() == 6,
        forall|i: int|
            0 <= i < 6 ==> {
                let byte = #[trigger] encode_utf8(values@[0]@)[i];
                ||| 0x30 <= byte <= 0x39 && d[i] == byte - 0x30
                ||| 0x41 <= byte <= 0x46 && d[i] == byte - 0x41 + 10
                ||| 0x61 <= byte <= 0x66 && d[i] == byte - 0x61 + 10
                ||| i == 0 && byte == 0x2b && d[i] == 0
            },
    ensures
        values@.len() > 1 && factor is None ==> color == Err::<Color, ColorError>(
            ColorError::Factor,
        ),
        values@.len() == 1 || factor is Some ==> {
            &&& color is Ok
            &&& color->Ok_0.red == 16 * d[0] + d[1]
            &&& color->Ok_0.green == 16 * d[2] + d[3]
            &&& color->Ok_0.blue == 16 * d[4] + d[5]
            &&& color->Ok_0.alpha == if values@.len() > 1 {
                factor
            } else {
                None
            }
        },
{
    let t = encode_utf8(values@[0]@);
    assert forall|i: int| 0 <= i < 6 implies 0 <= #[trigger] d[i] < 16 && (
    crate::args::digit_value(t[i]) == d[i] || (i == 0 && t[i] == 0x2b && d[i] == 0)) by {
        let byte = t[i];
    }
    crate::args::lemma_color_number(t, d);
    assert(0 <= d[0] < 16 && 0 <= d[1] < 16 && 0 <= d[2] < 16);
    assert(0 <= d[3] < 16 && 0 <= d[4] < 16 && 0 <= d[5] < 16);
    crate::args::lemma_channels(16 * d[0] + d[1], 16 * d[2] + d[3], 16 * d[4] + d[5]);
}

/// The arguments are read one by one: the number of lights as a decimal number,
/// each colour as a colour, the directories as they are. The error is that of the
/// first argument that cannot be read.
pub proof fn arguments_are_read_one_by_one(
    given: Given,
    args: Result<Args, ArgsError>,
    lights_text: &str,
    lights: Option<u64>,
    ambient: Result<Color, ColorError>,
    color: Result<Color, ColorError>,
)
    requires
        call_ensures(get_args, (given,), args),
        lights_text@ == given.lights@,
        call_ensures(parse_number, (lights_text, 10, usize::MAX as u64), lights),
        call_ensures(get_color, (&given.ambient, given.ambient_factor), ambient),
        call_ensures(get_color, (&given.color, given.color_factor), color),
    ensures
        lights is None ==> args == Err::<Args, ArgsError>(ArgsError::LightCount),
        lights is Some && ambient is Err ==> args == Err::<Args, ArgsError>(
            ArgsError::Ambient(ambient->Err_0),
        ),
        lights is Some && ambient is Ok && color is Err ==> args == Err::<Args, ArgsError>(
            ArgsError::Color(color->Err_0),
        ),
        lights is Some && ambient is Ok && color is Ok ==> {
            &&& args is Ok
            &&& args->Ok_0.directories == given.objects
            &&& args->Ok_0.light_count == lights->0
            &&& args->Ok_0.ambient == ambient->Ok_0
            &&& args->Ok_0.color == color->Ok_0
        },
{
}

/// Random colours are taken wherever the lights show their first ones and there is
/// one for each light; layers are taken at any time.
pub proof fn colors_and_layers_are_taken<R: Resources>(
    app: &mut App<R>,
    ambient: Direction,
    colors: &Vec<Direction>,
    layers: Layers<R>,
    surface: R::Surface,
    aspect: Scalar,
)
    requires
        old(app).well_formed(),
    ensures
        old(app).inital_color.0 && colors@.len() == old(app).lights@.len() ==> call_requires(
            App::<R>::recolor,
            (app, ambient, colors),
        ),
        call_requires(App::<R>::on_resize, (app, layers, surface, aspect)),
{
}

/// Every picture, every file, every argument and every number of lights is taken,
/// and every text is read in every radix that has digits.
pub proof fn every_input_is_taken(
    picture: Picture,
    bytes: &[u8],
    given: Given,
    values: &Vec<String>,
    factor: Option<Scalar>,
    text: &str,
    radix: u64,
    max: u64,
    count: usize,
    object: usize,
    radiances: (Radiance, Radiance),
)
    ensures
        call_requires(texture_of, (picture,)),
        call_requires(load_image, (bytes,)),
        call_requires(get_args, (given,)),
        call_requires(get_color, (values, factor)),
        2 <= radix <= 36 ==> call_requires(parse_number, (text, radix, max)),
        call_requires(draw_frame, (count, object)),
        call_requires(create_lights, (count, radiances.0, radiances.1)),
{
}

} // verus!
