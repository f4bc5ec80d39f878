//! Wiring: what a plugin sets up in the application, step by step.

use vstd::prelude::*;

verus! {

/// A configuration resource of the controller.
#[derive(Clone, Copy, Debug, PartialEq, Eq, Structural)]
pub enum Config {
    /// Mouse sensitivity and movement speed.
    MovementSettings,
    /// Key configuration.
    KeyBindings,
}

/// When a system runs.
#[derive(Clone, Copy, Debug, PartialEq, Eq, Structural)]
pub enum Schedule {
    /// Once, when the application starts.
    Startup,
    /// In every tick.
    Update,
}

/// The systems of the controller.
#[derive(Clone, Copy, Debug, PartialEq, Eq, Structural)]
pub enum System {
    /// Spawns the fly camera.
    SetupPlayer,
    /// Moves every fly camera by the held keys.
    PlayerMove,
    /// Turns every fly camera by the mouse or the held keys.
    PlayerLook,
    /// Toggles the cursor grab on the bound key.
    CursorGrab,
    /// Grabs the cursor at once.
    InitialGrabCursor,
    /// Grabs the cursor when the first fly camera appears.
    InitialGrabOnFlycamSpawn,
}

/// One thing that a plugin does to the application when it is built.
#[derive(Clone, Copy, Debug, PartialEq, Eq, Structural)]
pub enum Step {
    /// Puts a configuration resource in place with its default value, unless
    /// the application holds one already.
    InitResource(Config),
    /// Registers a system in a schedule.
    AddSystem(Schedule, System),
}

/// Whether a step registers the system that spawns the fly camera.
pub open spec fn spawns_camera(step: Step) -> bool {
    step matches Step::AddSystem(_, System::SetupPlayer)
}

/// The configuration that both plugins put in place.
pub open spec fn config_steps() -> Seq<Step> {
    seq![Step::InitResource(Config::MovementSettings), Step::InitResource(Config::KeyBindings)]
}

/// The three systems that both plugins register for every tick.
pub open spec fn tick_steps() -> Seq<Step> {
    seq![
        Step::AddSystem(Schedule::Update, System::PlayerMove),
        Step::AddSystem(Schedule::Update, System::PlayerLook),
        Step::AddSystem(Schedule::Update, System::CursorGrab),
    ]
}

/// What [`PlayerPlugin`] does: the configuration, the spawning of one camera
/// at startup, the systems of every tick and, where it is asked for, the grab
/// of the cursor at startup.
pub open spec fn player_steps(initial_grab: bool) -> Seq<Step> {
    let steps = config_steps().push(Step::AddSystem(Schedule::Startup, System::SetupPlayer))
        + tick_steps();
    if initial_grab {
        steps.push(Step::AddSystem(Schedule::Startup, System::InitialGrabCursor))
    } else {
        steps
    }
}

/// What [`NoCameraPlayerPlugin`] does: the configuration, the systems of
/// every tick and, where it is asked for, the grab of the cursor when the
/// first fly camera appears, which is looked for in every tick. It spawns
/// nothing.
pub open spec fn no_camera_steps(initial_grab: bool) -> Seq<Step> {
    let steps = config_steps() + tick_steps();
    if initial_grab {
        steps.push(Step::AddSystem(Schedule::Update, System::InitialGrabOnFlycamSpawn))
    } else {
        steps
    }
}

fn push_config(steps: &mut Vec<Step>)
    ensures
        final(steps)@ == old(steps)@ + config_steps(),
{
    steps.push(Step::InitResource(Config::MovementSettings));
    steps.push(Step::InitResource(Config::KeyBindings));
}

fn push_tick_systems(steps: &mut Vec<Step>)
    ensures
        final(steps)@ == old(steps)@ + tick_steps(),
{
    steps.push(Step::AddSystem(Schedule::Update, System::PlayerMove));
    steps.push(Step::AddSystem(Schedule::Update, System::PlayerLook));
    steps.push(Step::AddSystem(Schedule::Update, System::CursorGrab));
}

/// Contains everything needed to add first-person fly camera behavior to a
/// game.
#[derive(Clone, Copy, Debug, Default)]
pub struct PlayerPlugin;

impl PlayerPlugin {
    /// Lists what the plugin does to the application, in order.
    /// `initial_grab` asks for the cursor to be grabbed at startup.
    pub fn build(&self, initial_grab: bool) -> (steps: Vec<Step>)
        ensures
            steps@ == player_steps(initial_grab),
    {
        let mut steps: Vec<Step> = Vec::new();
        push_config(&mut steps);
        steps.push(Step::AddSystem(Schedule::Startup, System::SetupPlayer));
        push_tick_systems(&mut steps);
        if initial_grab {
            steps.push(Step::AddSystem(Schedule::Startup, System::InitialGrabCursor));
        }
        steps
    }
}

/// Same as [`PlayerPlugin`] but does not spawn a camera.
#[derive(Clone, Copy, Debug, Default)]
pub struct NoCameraPlayerPlugin;

impl NoCameraPlayerPlugin {
    /// Lists what the plugin does to the application, in order.
    /// `initial_grab` asks for the cursor to be grabbed when the first fly
    /// camera appears.
    pub fn build(&self, initial_grab: bool) -> (steps: Vec<Step>)
        ensures
            steps@ == no_camera_steps(initial_grab),
    {
        let mut steps: Vec<Step> = Vec::new();
        push_config(&mut steps);
        push_tick_systems(&mut steps);
        if initial_grab {
            steps.push(Step::AddSystem(Schedule::Update, System::InitialGrabOnFlycamSpawn));
        }
        steps
    }
}

/// The two plugins differ in the camera alone, and in when the cursor is
/// grabbed where that is asked for: [`PlayerPlugin`] registers the spawning
/// of the camera exactly once, at startup, and [`NoCameraPlayerPlugin`]
/// never.
pub proof fn lemma_plugins_differ_in_camera_only(initial_grab: bool)
    ensures
        player_steps(false).remove(2) == no_camera_steps(false),
        player_steps(initial_grab)[2] == Step::AddSystem(Schedule::Startup, System::SetupPlayer),
        forall|i: int|
            0 <= i < player_steps(initial_grab).len() && i != 2 ==> !spawns_camera(
                #[trigger] player_steps(initial_grab)[i],
            ),
        forall|i: int|
            0 <= i < no_camera_steps(initial_grab).len() ==> !spawns_camera(
                #[trigger] no_camera_steps(initial_grab)[i],
            ),
{
}

} // verus!
