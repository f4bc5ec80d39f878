use flycam::plugin::Config;
use flycam::plugin::NoCameraPlayerPlugin;
use flycam::plugin::PlayerPlugin;
use flycam::plugin::Schedule;
use flycam::plugin::Step;
use flycam::plugin::System;

fn startup(system: System) -> Step {
    Step::AddSystem(Schedule::Startup, system)
}

fn update(system: System) -> Step {
    Step::AddSystem(Schedule::Update, system)
}

fn spawns_camera(step: &Step) -> bool {
    matches!(step, Step::AddSystem(_, System::SetupPlayer))
}

#[test]
fn player_plugin_spawns_a_camera_and_runs_three_systems() {
    assert_eq!(
        PlayerPlugin.build(false),
        vec![
            Step::InitResource(Config::MovementSettings),
            Step::InitResource(Config::KeyBindings),
            startup(System::SetupPlayer),
            update(System::PlayerMove),
            update(System::PlayerLook),
            update(System::CursorGrab),
        ]
    );
}

#[test]
fn player_plugin_grabs_the_cursor_at_startup_when_asked() {
    assert_eq!(
        PlayerPlugin.build(true),
        vec![
            Step::InitResource(Config::MovementSettings),
            Step::InitResource(Config::KeyBindings),
            startup(System::SetupPlayer),
            update(System::PlayerMove),
            update(System::PlayerLook),
            update(System::CursorGrab),
            startup(System::InitialGrabCursor),
        ]
    );
}

#[test]
fn no_camera_plugin_runs_three_systems_and_spawns_nothing() {
    assert_eq!(
        NoCameraPlayerPlugin.build(false),
        vec![
            Step::InitResource(Config::MovementSettings),
            Step::InitResource(Config::KeyBindings),
            update(System::PlayerMove),
            update(System::PlayerLook),
            update(System::CursorGrab),
        ]
    );
}

#[test]
fn no_camera_plugin_grabs_the_cursor_when_a_camera_appears() {
    assert_eq!(
        NoCameraPlayerPlugin.build(true),
        vec![
            Step::InitResource(Config::MovementSettings),
            Step::InitResource(Config::KeyBindings),
            update(System::PlayerMove),
            update(System::PlayerLook),
            update(System::CursorGrab),
            update(System::InitialGrabOnFlycamSpawn),
        ]
    );
}

#[test]
fn only_the_player_plugin_spawns_a_camera_and_only_one() {
    for initial_grab in [false, true] {
        let with_camera = PlayerPlugin.build(initial_grab);
        assert_eq!(with_camera.iter().filter(|step| spawns_camera(step)).count(), 1);
        assert!(with_camera.contains(&startup(System::SetupPlayer)));
        let without = NoCameraPlayerPlugin.build(initial_grab);
        assert!(!without.iter().any(spawns_camera));
    }
}

#[test]
fn the_plugins_differ_in_the_camera_alone() {
    let mut with_camera = PlayerPlugin.build(false);
    with_camera.remove(2);
    assert_eq!(with_camera, NoCameraPlayerPlugin.build(false));
}
