//! The commands that draw one frame.
use vstd::prelude::*;

verus! {

/// A command to the graphics device.
#[derive(Clone, Copy, Debug, PartialEq, Eq)]
pub enum Command {
    /// Clear the luminance to zero.
    ClearLuminance,
    /// Clear the first layer of the geometry buffer to zero.
    ClearLayerA,
    /// Clear the second layer of the geometry buffer to zero.
    ClearLayerB,
    /// Clear the depth of the picture to the far plane.
    ClearDepth,
    /// Write model, view and projection of the camera.
    SetView,
    /// Fill the geometry buffer with this object.
    DrawGeometry(usize),
    /// Write what changes with every frame.
    SetLive,
    /// Write model, view and projection of this light.
    SetLightView(usize),
    /// Clear the depth that a light sees to the far plane.
    ClearShadow,
    /// Draw this object as a light sees it.
    DrawShadow(usize),
    /// Write the place and the colours of this light.
    SetLight(usize),
    /// Add the light of a light to the luminance.
    DrawLight,
    /// Bring the luminance to the window.
    DrawWindow,
    /// Send all commands to the device.
    Flush,
}

/// The commands before the first light.
pub open spec fn opening(object: usize) -> Seq<Command> {
    seq![
        Command::ClearLuminance,
        Command::ClearLayerA,
        Command::ClearLayerB,
        Command::ClearDepth,
        Command::SetView,
        Command::DrawGeometry(object),
        Command::SetLive,
    ]
}

/// The commands for one light.
pub open spec fn light_pass(light: usize, object: usize) -> Seq<Command> {
    seq![
        Command::SetLightView(light),
        Command::ClearShadow,
        Command::DrawShadow(object),
        Command::ClearDepth,
        Command::SetLight(light),
        Command::DrawLight,
    ]
}

/// The commands for the first `count` lights.
pub open spec fn light_passes(count: nat, object: usize) -> Seq<Command>
    decreases count,
{
    if count == 0 {
        seq![]
    } else {
        let before = (count - 1) as nat;
        light_passes(before, object) + light_pass(before as usize, object)
    }
}

/// The commands that draw one frame: an object in the light of `count` lights.
pub open spec fn frame_commands(count: nat, object: usize) -> Seq<Command> {
    opening(object) + light_passes(count, object) + seq![Command::DrawWindow, Command::Flush]
}

/// Lists the commands that draw one frame: an object in the light of `count`
/// lights.
pub fn draw_frame(count: usize, object: usize) -> (commands: Vec<Command>)
    ensures
        commands@ == frame_commands(count as nat, object),
{
    let mut commands: Vec<Command> = Vec::new();
    commands.push(Command::ClearLuminance);
    commands.push(Command::ClearLayerA);
    commands.push(Command::ClearLayerB);
    commands.push(Command::ClearDepth);
    commands.push(Command::SetView);
    commands.push(Command::DrawGeometry(object));
    commands.push(Command::SetLive);
    assert(commands@ =~= opening(object) + light_passes(0, object));
    let mut light: usize = 0;
    while light < count
        invariant
            light <= count,
            commands@ == opening(object) + light_passes(light as nat, object),
        decreases count - light,
    {
        commands.push(Command::SetLightView(light));
        commands.push(Command::ClearShadow);
        commands.push(Command::DrawShadow(object));
        commands.push(Command::ClearDepth);
        commands.push(Command::SetLight(light));
        commands.push(Command::DrawLight);
        light += 1;
        assert(commands@ =~= opening(object) + light_passes(light as nat, object));
    }
    commands.push(Command::DrawWindow);
    commands.push(Command::Flush);
    assert(commands@ =~= frame_commands(count as nat, object));
    commands
}

/// The commands for a number of lights: six for each, those of light `i` at `6 * i`.
proof fn lemma_light_passes(count: nat, object: usize)
    ensures
        light_passes(count, object).len() == 6 * count,
        forall|i: int, k: int|
            0 <= i < count && 0 <= k < 6 ==> light_passes(count, object)[6 * i + k] == (
            #[trigger] light_pass(i as usize, object)[k]),
    decreases count,
{
    if count > 0 {
        lemma_light_passes((count - 1) as nat, object);
    }
}

/// Every light has its six commands, in one piece and in its turn: what it sees
/// is drawn before its light is added.
pub proof fn every_light_has_its_pass(count: nat, object: usize, light: usize)
    requires
        light < count,
    ensures
        frame_commands(count, object).subrange(7 + 6 * light, 13 + 6 * light) == light_pass(
            light,
            object,
        ),
{
    lemma_light_passes(count, object);
    let pass = frame_commands(count, object).subrange(7 + 6 * light, 13 + 6 * light);
    assert forall|k: int| 0 <= k < 6 implies pass[k] == light_pass(light, object)[k] by {
        assert(pass[k] == light_passes(count, object)[6 * light + k]);
        assert(light_pass(light as int as usize, object)[k] == light_pass(light, object)[k]);
    }
    assert(pass =~= light_pass(light, object));
}

/// A light is set up exactly once in a frame, and only if there is such a light.
pub proof fn a_light_is_set_once(count: nat, object: usize, light: usize, place: int)
    requires
        count <= usize::MAX,
        0 <= place < frame_commands(count, object).len(),
    ensures
        frame_commands(count, object)[place] == Command::SetLight(light) <==> (light < count
            && place == 11 + 6 * light),
{
    lemma_light_passes(count, object);
    let frame = frame_commands(count, object);
    if 7 <= place < 7 + 6 * count {
        let i = (place - 7) / 6;
        let k = (place - 7) % 6;
        assert(frame[place] == light_passes(count, object)[6 * i + k]);
        assert(frame[place] == light_pass(i as usize, object)[k]);
    }
}

/// The window is drawn to once, after all lights, and then everything is sent.
pub proof fn the_window_comes_last(count: nat, object: usize, place: int)
    requires
        0 <= place < frame_commands(count, object).len(),
    ensures
        frame_commands(count, object).len() == 9 + 6 * count,
        frame_commands(count, object)[place] == Command::DrawWindow <==> place == 7 + 6 * count,
        frame_commands(count, object)[place] == Command::Flush <==> place == 8 + 6 * count,
{
    lemma_light_passes(count, object);
    let frame = frame_commands(count, object);
    if 7 <= place < 7 + 6 * count {
        let i = (place - 7) / 6;
        let k = (place - 7) % 6;
        assert(frame[place] == light_passes(count, object)[6 * i + k]);
        assert(frame[place] == light_pass(i as usize, object)[k]);
    }
}

} // verus!
