//! The state of the scene, and what the window's events do to it.
use crate::args::Color;
use crate::event::{
    ElementState, Event, Key, MouseButton, OrbitStep, Response, ScrollDelta,
};
use crate::frame::{draw_frame, Command};
use crate::lights::{create_lights, set_colors, set_random_colors, PointLight, Radiance};
use crate::number::{Direction, Ratio, Scalar};
use crate::pipeline::{
    DeferredData, LdrData, Object, PbrData, Resources, ShadowData, ViewPair,
};
use vstd::prelude::*;

verus! {

/// The scene.
pub struct App<R: Resources> {
    /// Where the pointer is, `None` outside the window.
    pub mouse_pos: Option<(i32, i32)>,
    /// The movements that the camera has yet to make, oldest first.
    pub orbit_diff: Vec<OrbitStep>,
    pub left_down: bool,
    /// The width of the window over its height.
    pub aspect: Scalar,
    /// The object that is shown.
    pub current: usize,
    pub lights: Vec<PointLight>,
    /// Whether the lights are in their first colours, and these colours, ambient
    /// and direct.
    pub inital_color: (bool, Radiance, Radiance),
    pub objects: Vec<Object<R>>,
    /// The quad that covers the screen.
    pub quad: (R::QuadVertices, R::Slice),
    pub deferred_data: DeferredData<R>,
    pub pbr_data: PbrData<R>,
    pub ldr_data: LdrData<R>,
    pub shadow_data: ShadowData<R>,
}

/// The geometry buffer and the luminance that fit the window.
pub struct Layers<R: Resources> {
    pub layer_a: ViewPair<R::GeometryView, R::GeometryTarget>,
    pub layer_b: ViewPair<R::GeometryView, R::GeometryTarget>,
    pub value: ViewPair<R::LuminanceView, R::LuminanceTarget>,
    pub depth: R::Depth,
}

/// All resources that a scene is made from.
pub struct Parts<R: Resources> {
    pub objects: Vec<Object<R>>,
    pub quad: (R::QuadVertices, R::Slice),
    pub layers: Layers<R>,
    /// How the geometry buffer and the luminance are sampled.
    pub gbuf_sampler: R::Sampler,
    pub shadow: (R::ShadowView, R::Sampler),
    pub shadow_depth: R::ShadowDepth,
    pub deferred_transform: R::TransformBuffer,
    pub shadow_transform: R::TransformBuffer,
    pub live: R::LiveBuffer,
    pub light: R::LightBuffer,
    /// The colour of the window.
    pub surface: R::Surface,
    /// The width of the window over its height.
    pub aspect: Scalar,
}

/// What a frame consists of.
pub struct Frame {
    /// The movements that the camera makes first, in this order.
    pub orbit: Vec<OrbitStep>,
    /// The commands that then draw the frame.
    pub commands: Vec<Command>,
}

impl<R: Resources> App<R> {
    /// There is an object to show, and the passes are bound to the one that is
    /// shown. The lights stand where they should, share their strength, and show
    /// their first colours when they are said to. What changes with every frame is
    /// read from one buffer.
    pub open spec fn well_formed(&self) -> bool {
        &&& self.current < self.objects.len()
        &&& self.objects@[self.current as int].bound(
            self.deferred_data,
            self.pbr_data,
            self.shadow_data,
        )
        &&& crate::lights::evenly_spread(self.lights@)
        &&& self.inital_color.0 ==> crate::lights::show_colors(
            self.lights@,
            self.inital_color.1,
            self.inital_color.2,
        )
        &&& crate::lights::well_shared(self.lights@)
        &&& self.inital_color.1.lights == self.lights.len()
        &&& self.inital_color.2.lights == self.lights.len()
        &&& cloned(self.pbr_data.live, self.ldr_data.live)
    }

    /// The passes draw to these layers and read from the same ones, and nothing
    /// else than these.
    pub open spec fn attached(&self, layers: Layers<R>) -> bool {
        &&& self.deferred_data.layer_a == layers.layer_a.target
        &&& self.deferred_data.layer_b == layers.layer_b.target
        &&& self.deferred_data.depth == layers.depth
        &&& self.pbr_data.layer_a.0 == layers.layer_a.resource
        &&& self.pbr_data.layer_b.0 == layers.layer_b.resource
        &&& self.pbr_data.luminance == layers.value.target
        &&& self.ldr_data.luminance.0 == layers.value.resource
    }

    /// The resources are those of another scene, but for what an object brings to
    /// the passes.
    pub open spec fn differs_by_object(&self, other: App<R>) -> bool {
        &&& self.deferred_data == (DeferredData {
            verts: self.deferred_data.verts,
            normal: self.deferred_data.normal,
            ..other.deferred_data
        })
        &&& self.pbr_data == (PbrData {
            albedo: self.pbr_data.albedo,
            roughness: self.pbr_data.roughness,
            metalness: self.pbr_data.metalness,
            ..other.pbr_data
        })
        &&& self.shadow_data == (ShadowData {
            verts: self.shadow_data.verts,
            ..other.shadow_data
        })
        &&& self.ldr_data == other.ldr_data
        &&& self.aspect == other.aspect
        &&& self.objects == other.objects
        &&& self.quad == other.quad
    }

    /// Makes a scene that shows the first object, with so many lights in these
    /// colours.
    pub fn new(parts: Parts<R>, light_count: usize, ambient: Color, color: Color) -> (app: App<R>)
        requires
            parts.objects.len() > 0,
        ensures
            app.well_formed(),
            app.mouse_pos is None,
            app.orbit_diff@ == Seq::<OrbitStep>::empty(),
            !app.left_down,
            app.aspect == parts.aspect,
            app.current == 0,
            app.inital_color.0,
            app.inital_color.1 == (Radiance {
                hue: crate::lights::Hue::Chosen(ambient),
                total: Ratio { num: 3, den: 2 },
                lights: light_count,
            }),
            app.inital_color.2 == (Radiance {
                hue: crate::lights::Hue::Chosen(color),
                total: Ratio { num: 250, den: 1 },
                lights: light_count,
            }),
            app.lights@ == crate::lights::even_lights(
                light_count as nat,
                app.inital_color.1,
                app.inital_color.2,
            ),
            app.objects == parts.objects,
            app.quad == parts.quad,
            app.attached(parts.layers),
            app.deferred_data.transform == parts.deferred_transform,
            cloned(parts.quad.0, app.pbr_data.verts),
            app.pbr_data.live == parts.live,
            app.pbr_data.light == parts.light,
            cloned(parts.gbuf_sampler, app.pbr_data.layer_a.1),
            cloned(parts.gbuf_sampler, app.pbr_data.layer_b.1),
            app.pbr_data.shadow == parts.shadow,
            cloned(parts.quad.0, app.ldr_data.verts),
            cloned(parts.live, app.ldr_data.live),
            cloned(parts.gbuf_sampler, app.ldr_data.luminance.1),
            app.ldr_data.color == parts.surface,
            app.shadow_data.transform == parts.shadow_transform,
            app.shadow_data.depth == parts.shadow_depth,
    {
        let initial_ambient = Radiance::chosen_ambient(ambient, light_count);
        let initial_light = Radiance::chosen_color(color, light_count);
        let lights = create_lights(light_count, initial_ambient, initial_light);

        let first = &parts.objects[0];
        let deferred_data = DeferredData {
            verts: first.mesh.0.clone(),
            transform: parts.deferred_transform,
            layer_a: parts.layers.layer_a.target,
            layer_b: parts.layers.layer_b.target,
            normal: (first.normal.clone(), first.sampler.clone()),
            depth: parts.layers.depth,
        };
        let ldr_data = LdrData {
            verts: parts.quad.0.clone(),
            live: parts.live.clone(),
            luminance: (parts.layers.value.resource, parts.gbuf_sampler.clone()),
            color: parts.surface,
        };
        let pbr_data = PbrData {
            verts: parts.quad.0.clone(),
            live: parts.live,
            light: parts.light,
            layer_a: (parts.layers.layer_a.resource, parts.gbuf_sampler.clone()),
            layer_b: (parts.layers.layer_b.resource, parts.gbuf_sampler.clone()),
            albedo: (first.albedo.clone(), first.sampler.clone()),
            metalness: (first.metalness.clone(), first.sampler.clone()),
            roughness: (first.roughness.clone(), first.sampler.clone()),
            shadow: parts.shadow,
            luminance: parts.layers.value.target,
        };
        let shadow_data = ShadowData {
            verts: first.mesh.0.clone(),
            transform: parts.shadow_transform,
            depth: parts.shadow_depth,
        };
        App {
            mouse_pos: None,
            orbit_diff: Vec::new(),
            left_down: false,
            aspect: parts.aspect,
            current: 0,
            lights,
            inital_color: (true, initial_ambient, initial_light),
            objects: parts.objects,
            quad: parts.quad,
            deferred_data,
            pbr_data,
            ldr_data,
            shadow_data,
        }
    }

    /// The key that ends the demo.
    pub fn get_exit_key() -> (key: Option<Key>)
        ensures
            key == Some(Key::Escape),
    {
        Some(Key::Escape)
    }

    /// Whether the distance that the pointer moves with an event can be counted.
    pub fn motion_fits(&self, event: Event) -> (fits: bool)
        ensures
            fits == crate::event::motion_fits(self.mouse_pos, event),
    {
        match (event, self.mouse_pos) {
            (Event::MouseMoved(x, y), Some((x0, y0))) => {
                x.checked_sub(x0).is_some() && y.checked_sub(y0).is_some()
            },
            _ => true,
        }
    }

    /// Takes an event of the window, and says what is left to do about it.
    ///
    /// Random colours are not drawn here: while the lights are in their first
    /// colours, the key C changes nothing and asks for them, and `recolor` takes
    /// them.
    pub fn on(&mut self, event: Event) -> (response: Response)
        requires
            old(self).well_formed(),
            crate::event::motion_fits(old(self).mouse_pos, event),
        ensures
            final(self).well_formed(),
            response == crate::event::response_to(
                old(self).inital_color.0,
                old(self).lights.len(),
                event,
            ),
            final(self).mouse_pos == crate::event::mouse_after(old(self).mouse_pos, event),
            final(self).left_down == crate::event::left_after(old(self).left_down, event),
            final(self).orbit_diff@ == old(self).orbit_diff@ + crate::event::steps_of(
                old(self).mouse_pos,
                old(self).left_down,
                event,
            ),
            final(self).current == crate::event::current_after(
                old(self).current as int,
                old(self).objects.len() as int,
                event,
            ),
            final(self).lights@ == if crate::event::pressed(event) == Some(Key::C) && !old(
                self,
            ).inital_color.0 {
                crate::lights::with_colors(
                    old(self).lights@,
                    old(self).inital_color.1,
                    old(self).inital_color.2,
                )
            } else {
                old(self).lights@
            },
            final(self).inital_color == (
                old(self).inital_color.0 || crate::event::pressed(event) == Some(Key::C),
                old(self).inital_color.1,
                old(self).inital_color.2,
            ),
            crate::event::pressed(event) != Some(Key::M) ==> {
                &&& final(self).deferred_data == old(self).deferred_data
                &&& final(self).pbr_data == old(self).pbr_data
                &&& final(self).shadow_data == old(self).shadow_data
            },
            final(self).differs_by_object(*old(self)),
    {
        match event {
            Event::KeyboardInput(ElementState::Pressed, Some(code)) => match code {
                Key::Up => return Response::ScaleExposure(Ratio::new(11, 10)),
                Key::Down => return Response::ScaleExposure(Ratio::new(9, 10)),
                Key::Right => return Response::ScaleGamma(Ratio::new(21, 20)),
                Key::Left => return Response::ScaleGamma(Ratio::new(19, 20)),
                Key::M => {
                    proof {
                        lemma_next_object(self.current as int, self.objects.len() as int);
                    }
                    self.current = (self.current + 1) % self.objects.len();
                    self.objects[self.current].apply_to_data(
                        &mut self.deferred_data,
                        &mut self.pbr_data,
                        &mut self.shadow_data,
                    );
                },
                Key::C => {
                    let init = self.inital_color;
                    if init.0 {
                        return Response::DrawColors(self.lights.len());
                    }
                    set_colors(&mut self.lights, init.1, init.2);
                    self.inital_color.0 = true;
                },
                _ => (),
            },
            Event::MouseMoved(x, y) => {
                let mut dx: i32 = 0;
                let mut dy: i32 = 0;
                if let Some((x0, y0)) = self.mouse_pos {
                    dx = x - x0;
                    dy = y - y0;
                }
                self.mouse_pos = Some((x, y));
                if self.left_down {
                    self.orbit_diff.push(OrbitStep::Drag { dx, dy });
                }
            },
            Event::MouseLeft => {
                self.mouse_pos = None;
            },
            Event::MouseInput(state, MouseButton::Left) => {
                self.left_down = match state {
                    ElementState::Pressed => true,
                    ElementState::Released => false,
                };
            },
            Event::MouseWheel(ScrollDelta::LineDelta(_, y)) => {
                self.orbit_diff.push(OrbitStep::Scroll(y));
            },
            _ => (),
        }
        Response::Nothing
    }

    /// Gives the lights random colours in place of their first ones.
    pub fn recolor(&mut self, ambient: Direction, colors: &Vec<Direction>)
        requires
            old(self).well_formed(),
            old(self).inital_color.0,
            colors.len() == old(self).lights.len(),
        ensures
            final(self).well_formed(),
            final(self).lights@ == crate::lights::with_random_colors(
                old(self).lights@,
                ambient,
                colors@,
            ),
            final(self).inital_color == (
                false,
                old(self).inital_color.1,
                old(self).inital_color.2,
            ),
            *final(self) == (App {
                lights: final(self).lights,
                inital_color: final(self).inital_color,
                ..*old(self)
            }),
    {
        set_random_colors(&mut self.lights, ambient, colors);
        self.inital_color.0 = false;
    }

    /// Binds the passes to layers that fit the window's new size.
    pub fn on_resize(&mut self, layers: Layers<R>, surface: R::Surface, aspect: Scalar)
        requires
            old(self).well_formed(),
        ensures
            final(self).well_formed(),
            final(self).attached(layers),
            *final(self) == (App {
                aspect,
                deferred_data: DeferredData {
                    layer_a: layers.layer_a.target,
                    layer_b: layers.layer_b.target,
                    depth: layers.depth,
                    ..old(self).deferred_data
                },
                pbr_data: PbrData {
                    layer_a: (layers.layer_a.resource, old(self).pbr_data.layer_a.1),
                    layer_b: (layers.layer_b.resource, old(self).pbr_data.layer_b.1),
                    luminance: layers.value.target,
                    ..old(self).pbr_data
                },
                ldr_data: LdrData {
                    luminance: (layers.value.resource, old(self).ldr_data.luminance.1),
                    color: surface,
                    ..old(self).ldr_data
                },
                ..*old(self)
            }),
    {
        self.deferred_data.layer_a = layers.layer_a.target;
        self.deferred_data.layer_b = layers.layer_b.target;
        self.pbr_data.luminance = layers.value.target;
        self.ldr_data.color = surface;

        self.deferred_data.depth = layers.depth;

        self.pbr_data.layer_a.0 = layers.layer_a.resource;
        self.pbr_data.layer_b.0 = layers.layer_b.resource;
        self.ldr_data.luminance.0 = layers.value.resource;

        self.aspect = aspect;
    }

    /// Takes the next frame: all movements since the last one, and the commands
    /// that draw the object that is shown in the light of all lights.
    pub fn render(&mut self) -> (frame: Frame)
        requires
            old(self).well_formed(),
        ensures
            final(self).well_formed(),
            frame.orbit@ == old(self).orbit_diff@,
            frame.commands@ == crate::frame::frame_commands(
                old(self).lights@.len(),
                old(self).current,
            ),
            final(self).orbit_diff@ == Seq::<OrbitStep>::empty(),
            *final(self) == (App { orbit_diff: final(self).orbit_diff, ..*old(self) }),
    {
        let mut orbit: Vec<OrbitStep> = Vec::new();
        std::mem::swap(&mut orbit, &mut self.orbit_diff);
        let commands = draw_frame(self.lights.len(), self.current);
        Frame { orbit, commands }
    }
}

/// From their first colours the key C takes the lights to random ones, and from
/// there, whatever these are, back to exactly what they were.
pub proof fn c_goes_there_and_back<R: Resources>(
    app: App<R>,
    ambient: Direction,
    colors: Seq<Direction>,
)
    requires
        app.well_formed(),
        app.inital_color.0,
    ensures
        crate::lights::with_colors(
            crate::lights::with_random_colors(app.lights@, ambient, colors),
            app.inital_color.1,
            app.inital_color.2,
        ) == app.lights@,
{
    crate::lights::random_colors_can_be_taken_back(
        app.lights@,
        app.inital_color.1,
        app.inital_color.2,
        ambient,
        colors,
    );
}

/// One on, modulo the count, is one on but for the last one.
proof fn lemma_next_object(current: int, count: int)
    requires
        0 <= current < count,
    ensures
        (current + 1) % count == if current + 1 < count {
            current + 1
        } else {
            0
        },
{
    if current + 1 < count {
        vstd::arithmetic::div_mod::lemma_small_mod((current + 1) as nat, count as nat);
    } else {
        vstd::arithmetic::div_mod::lemma_mod_self_0(count);
    }
}

/// No event detaches the passes from the layers that they draw to and read from.
pub proof fn events_leave_the_layers<R: Resources>(before: App<R>, after: App<R>, layers: Layers<R>)
    requires
        before.attached(layers),
        after.differs_by_object(before),
    ensures
        after.attached(layers),
{
}

} // verus!
