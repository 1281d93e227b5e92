//! The window's events, and what each of them asks for.
use crate::number::{Ratio, Scalar};
use vstd::prelude::*;

verus! {

/// What happened to a key or a button.
#[derive(Clone, Copy, Debug, PartialEq, Eq)]
pub enum ElementState {
    Pressed,
    Released,
}

/// A key.
#[derive(Clone, Copy, Debug, PartialEq, Eq)]
pub enum Key {
    Escape,
    Up,
    Down,
    Left,
    Right,
    M,
    C,
    Other,
}

/// A button of the mouse.
#[derive(Clone, Copy, Debug, PartialEq, Eq)]
pub enum MouseButton {
    Left,
    Other,
}

/// How far the wheel was turned, in lines or in pixels.
#[derive(Clone, Copy, Debug, PartialEq, Eq)]
pub enum ScrollDelta {
    LineDelta(Scalar, Scalar),
    PixelDelta(Scalar, Scalar),
}

/// An event of the window.
#[derive(Clone, Copy, Debug, PartialEq, Eq)]
pub enum Event {
    /// A key was pressed or released; `None` where it has no name.
    KeyboardInput(ElementState, Option<Key>),
    /// The pointer moved to this place in the window.
    MouseMoved(i32, i32),
    /// The pointer left the window.
    MouseLeft,
    MouseInput(ElementState, MouseButton),
    MouseWheel(ScrollDelta),
    Other,
}

/// A movement that the camera has yet to make.
#[derive(Clone, Copy, Debug, PartialEq, Eq)]
pub enum OrbitStep {
    /// The pointer was dragged, by so many pixels to the right and down.
    Drag { dx: i32, dy: i32 },
    /// The wheel was turned, by so many lines.
    Scroll(Scalar),
}

/// What the program has to do about an event, beyond what the scene did itself.
#[derive(Clone, Copy, Debug, PartialEq, Eq)]
pub enum Response {
    Nothing,
    /// Multiply the exposure.
    ScaleExposure(Ratio),
    /// Multiply the gamma.
    ScaleGamma(Ratio),
    /// Draw a random ambient colour, then a random colour for each of so many
    /// lights, and recolor the scene with them.
    DrawColors(usize),
}

/// The key that the event says was pressed.
pub open spec fn pressed(event: Event) -> Option<Key> {
    match event {
        Event::KeyboardInput(ElementState::Pressed, key) => key,
        _ => None,
    }
}

/// Where the pointer is after an event.
pub open spec fn mouse_after(mouse_pos: Option<(i32, i32)>, event: Event) -> Option<(i32, i32)> {
    match event {
        Event::MouseMoved(x, y) => Some((x, y)),
        Event::MouseLeft => None,
        _ => mouse_pos,
    }
}

/// Whether the left button is down after an event.
pub open spec fn left_after(left_down: bool, event: Event) -> bool {
    match event {
        Event::MouseInput(ElementState::Pressed, MouseButton::Left) => true,
        Event::MouseInput(ElementState::Released, MouseButton::Left) => false,
        _ => left_down,
    }
}

/// How far the pointer moves, to a place in the window from where it was. It
/// does not move where it was outside.
pub open spec fn displacement(mouse_pos: Option<(i32, i32)>, x: i32, y: i32) -> (int, int) {
    match mouse_pos {
        Some((x0, y0)) => (x - x0, y - y0),
        None => (0, 0),
    }
}

/// The distance that the pointer moves with an event, if it does, can be counted
/// in 32 bits.
pub open spec fn motion_fits(mouse_pos: Option<(i32, i32)>, event: Event) -> bool {
    match event {
        Event::MouseMoved(x, y) => {
            &&& i32::MIN <= displacement(mouse_pos, x, y).0 <= i32::MAX
            &&& i32::MIN <= displacement(mouse_pos, x, y).1 <= i32::MAX
        },
        _ => true,
    }
}

/// The movements of the camera that an event asks for.
pub open spec fn steps_of(
    mouse_pos: Option<(i32, i32)>,
    left_down: bool,
    event: Event,
) -> Seq<OrbitStep> {
    match event {
        Event::MouseMoved(x, y) => if left_down {
            let (dx, dy) = displacement(mouse_pos, x, y);
            seq![OrbitStep::Drag { dx: dx as i32, dy: dy as i32 }]
        } else {
            seq![]
        },
        Event::MouseWheel(ScrollDelta::LineDelta(_, y)) => seq![OrbitStep::Scroll(y)],
        _ => seq![],
    }
}

/// The object that is shown after an event, out of `count`: the key M goes one
/// on, and from the last one to the first.
pub open spec fn current_after(current: int, count: int, event: Event) -> int {
    if pressed(event) != Some(Key::M) {
        current
    } else if current + 1 < count {
        current + 1
    } else {
        0
    }
}

/// What the program has to do about an event. `shows_initial` says whether the
/// lights are in their first colours, `lights` how many there are.
pub open spec fn response_to(shows_initial: bool, lights: usize, event: Event) -> Response {
    match pressed(event) {
        Some(Key::Up) => Response::ScaleExposure(Ratio { num: 11, den: 10 }),
        Some(Key::Down) => Response::ScaleExposure(Ratio { num: 9, den: 10 }),
        Some(Key::Right) => Response::ScaleGamma(Ratio { num: 21, den: 20 }),
        Some(Key::Left) => Response::ScaleGamma(Ratio { num: 19, den: 20 }),
        Some(Key::C) => if shows_initial {
            Response::DrawColors(lights)
        } else {
            Response::Nothing
        },
        _ => Response::Nothing,
    }
}

/// The places that the pointer is at in turn, as events.
pub open spec fn moves(places: Seq<(i32, i32)>) -> Seq<Event> {
    places.map_values(|place: (i32, i32)| Event::MouseMoved(place.0, place.1))
}

/// Where the pointer is after a row of events.
pub open spec fn mouse_after_all(mouse_pos: Option<(i32, i32)>, events: Seq<Event>) -> Option<
    (i32, i32),
>
    decreases events.len(),
{
    if events.len() == 0 {
        mouse_pos
    } else {
        mouse_after(mouse_after_all(mouse_pos, events.drop_last()), events.last())
    }
}

/// Whether the left button is down after a row of events.
pub open spec fn left_after_all(left_down: bool, events: Seq<Event>) -> bool
    decreases events.len(),
{
    if events.len() == 0 {
        left_down
    } else {
        left_after(left_after_all(left_down, events.drop_last()), events.last())
    }
}

/// The movements of the camera that a row of events asks for.
pub open spec fn steps_of_all(
    mouse_pos: Option<(i32, i32)>,
    left_down: bool,
    events: Seq<Event>,
) -> Seq<OrbitStep>
    decreases events.len(),
{
    if events.len() == 0 {
        seq![]
    } else {
        let before = events.drop_last();
        steps_of_all(mouse_pos, left_down, before) + steps_of(
            mouse_after_all(mouse_pos, before),
            left_after_all(left_down, before),
            events.last(),
        )
    }
}

/// Every event of the row moves the pointer by a distance that can be counted.
pub open spec fn motions_fit(mouse_pos: Option<(i32, i32)>, events: Seq<Event>) -> bool {
    forall|i: int|
        0 <= i < events.len() ==> motion_fits(
            mouse_after_all(mouse_pos, #[trigger] events.take(i)),
            events[i],
        )
}

/// The movements that a row of events asks for are those of its first part, then
/// those of the rest: a frame that falls between them changes none.
pub proof fn frames_may_fall_anywhere(
    mouse_pos: Option<(i32, i32)>,
    left_down: bool,
    first: Seq<Event>,
    rest: Seq<Event>,
)
    ensures
        mouse_after_all(mouse_pos, first + rest) == mouse_after_all(
            mouse_after_all(mouse_pos, first),
            rest,
        ),
        left_after_all(left_down, first + rest) == left_after_all(
            left_after_all(left_down, first),
            rest,
        ),
        steps_of_all(mouse_pos, left_down, first + rest) == steps_of_all(
            mouse_pos,
            left_down,
            first,
        ) + steps_of_all(
            mouse_after_all(mouse_pos, first),
            left_after_all(left_down, first),
            rest,
        ),
    decreases rest.len(),
{
    let all = first + rest;
    if rest.len() == 0 {
        assert(all =~= first);
    } else {
        assert(all.drop_last() =~= first + rest.drop_last());
        frames_may_fall_anywhere(mouse_pos, left_down, first, rest.drop_last());
    }
    assert(steps_of_all(mouse_pos, left_down, all) =~= steps_of_all(mouse_pos, left_down, first)
        + steps_of_all(
        mouse_after_all(mouse_pos, first),
        left_after_all(left_down, first),
        rest,
    ));
}

/// The sum of all drags, to the right and down.
pub open spec fn total_drag(steps: Seq<OrbitStep>) -> (int, int)
    decreases steps.len(),
{
    if steps.len() == 0 {
        (0, 0)
    } else {
        let (x, y) = total_drag(steps.drop_last());
        match steps.last() {
            OrbitStep::Drag { dx, dy } => (x + dx, y + dy),
            OrbitStep::Scroll(_) => (x, y),
        }
    }
}

/// While the left button is held, the drags add up to the way from the first
/// place of the pointer to the last, whatever way it took between them.
pub proof fn drags_add_up(start: (i32, i32), places: Seq<(i32, i32)>)
    requires
        motions_fit(Some(start), moves(places)),
    ensures
        ({
            let end = if places.len() == 0 {
                start
            } else {
                places.last()
            };
            &&& mouse_after_all(Some(start), moves(places)) == Some(end)
            &&& left_after_all(true, moves(places))
            &&& total_drag(steps_of_all(Some(start), true, moves(places))) == (
                end.0 - start.0,
                end.1 - start.1,
            )
        }),
    decreases places.len(),
{
    if places.len() > 0 {
        let all = moves(places);
        let before = moves(places.drop_last());
        assert(all.drop_last() =~= before);
        assert(all.take(all.len() - 1) =~= before);
        assert forall|i: int| 0 <= i < before.len() implies motion_fits(
            mouse_after_all(Some(start), #[trigger] before.take(i)),
            before[i],
        ) by {
            assert(before.take(i) =~= all.take(i));
            assert(before[i] == all[i]);
        }
        drags_add_up(start, places.drop_last());
        assert(motion_fits(mouse_after_all(Some(start), all.take(all.len() - 1)), all.last()));
        let steps = steps_of_all(Some(start), true, all);
        assert(steps.drop_last() =~= steps_of_all(Some(start), true, before));
    }
}

/// While the left button is up, no movement of the pointer moves the camera.
pub proof fn free_moves_do_nothing(mouse_pos: Option<(i32, i32)>, x: i32, y: i32)
    ensures
        steps_of(mouse_pos, false, Event::MouseMoved(x, y)).len() == 0,
{
}

/// A pointer that left the window comes back without a jump: its first place
/// moves the camera by nothing, even with the button held.
pub proof fn coming_back_is_no_drag(mouse_pos: Option<(i32, i32)>, x: i32, y: i32)
    ensures
        motion_fits(mouse_after(mouse_pos, Event::MouseLeft), Event::MouseMoved(x, y)),
        total_drag(
            steps_of(
                mouse_after(mouse_pos, Event::MouseLeft),
                true,
                Event::MouseMoved(x, y),
            ),
        ) == (0int, 0int),
{
    let steps = steps_of(None, true, Event::MouseMoved(x, y));
    assert(steps.drop_last() =~= seq![]);
    assert(total_drag(steps.drop_last()) == (0int, 0int));
}

/// The object that is shown after a row of events.
pub open spec fn current_after_all(current: int, count: int, events: Seq<Event>) -> int
    decreases events.len(),
{
    if events.len() == 0 {
        current
    } else {
        current_after(current_after_all(current, count, events.drop_last()), count, events.last())
    }
}

/// A row of presses of the key M.
pub open spec fn presses_of_m(presses: nat) -> Seq<Event> {
    Seq::new(presses, |i: int| Event::KeyboardInput(ElementState::Pressed, Some(Key::M)))
}

/// Each press of M goes one object on, from the last to the first; as many
/// presses as there are objects come back to where they started.
pub proof fn m_walks_round_the_objects(current: int, count: int, presses: nat)
    requires
        0 <= current < count,
    ensures
        current_after_all(current, count, presses_of_m(presses)) == (current + presses) % count,
        presses == count ==> current_after_all(current, count, presses_of_m(presses)) == current,
    decreases presses,
{
    if presses == 0 {
        vstd::arithmetic::div_mod::lemma_small_mod(current as nat, count as nat);
    } else {
        let before = (presses - 1) as nat;
        m_walks_round_the_objects(current, count, before);
        assert(presses_of_m(presses).drop_last() =~= presses_of_m(before));
        let place = (current + before) % count;
        vstd::arithmetic::div_mod::lemma_add_mod_noop_right(1, current + before, count);
        assert((current + presses) % count == (1 + place) % count);
        if place + 1 < count {
            vstd::arithmetic::div_mod::lemma_small_mod((place + 1) as nat, count as nat);
        } else {
            vstd::arithmetic::div_mod::lemma_mod_self_0(count);
        }
        if presses == count {
            vstd::arithmetic::div_mod::lemma_mod_add_multiples_vanish(current, count);
            vstd::arithmetic::div_mod::lemma_small_mod(current as nat, count as nat);
        }
    }
}

} // verus!
