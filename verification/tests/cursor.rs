use bevy::input::keyboard::KeyCode;
use bevy::input::ButtonInput;
use bevy::window::CursorGrabMode;
use bevy::window::CursorOptions;
use flycam::bindings::KeyBindings;
use flycam::cursor::cursor_grab;
use flycam::cursor::initial_grab_cursor;
use flycam::cursor::initial_grab_on_flycam_spawn;
use flycam::cursor::toggle_grab_cursor;
use flycam::window::WindowNotFound;

fn cursor(grab_mode: CursorGrabMode, visible: bool) -> CursorOptions {
    CursorOptions { visible, grab_mode, hit_test: true }
}

fn state(cursor: &CursorOptions) -> (CursorGrabMode, bool, bool) {
    (cursor.grab_mode, cursor.visible, cursor.hit_test)
}

fn free() -> CursorOptions {
    cursor(CursorGrabMode::None, true)
}

fn confined() -> CursorOptions {
    cursor(CursorGrabMode::Confined, false)
}

#[test]
fn toggle_confines_and_hides_a_free_cursor() {
    let mut c = free();
    toggle_grab_cursor(&mut c);
    assert_eq!(c.grab_mode, CursorGrabMode::Confined);
    assert!(!c.visible);
}

#[test]
fn toggle_frees_and_shows_a_confined_cursor() {
    let mut c = confined();
    toggle_grab_cursor(&mut c);
    assert_eq!(c.grab_mode, CursorGrabMode::None);
    assert!(c.visible);
}

#[test]
fn toggle_frees_and_shows_a_locked_cursor() {
    let mut c = cursor(CursorGrabMode::Locked, false);
    toggle_grab_cursor(&mut c);
    assert_eq!(c.grab_mode, CursorGrabMode::None);
    assert!(c.visible);
}

#[test]
fn toggle_leaves_hit_test_alone() {
    let mut on = free();
    toggle_grab_cursor(&mut on);
    assert!(on.hit_test);
    let mut off = CursorOptions { visible: false, grab_mode: CursorGrabMode::Confined, hit_test: false };
    toggle_grab_cursor(&mut off);
    assert!(!off.hit_test);
}

#[test]
fn toggle_twice_restores_a_free_cursor() {
    let mut c = free();
    toggle_grab_cursor(&mut c);
    toggle_grab_cursor(&mut c);
    assert_eq!(state(&c), state(&free()));
}

#[test]
fn toggle_twice_restores_a_confined_cursor() {
    let mut c = confined();
    toggle_grab_cursor(&mut c);
    toggle_grab_cursor(&mut c);
    assert_eq!(state(&c), state(&confined()));
}

#[test]
fn toggle_twice_turns_a_locked_cursor_into_a_confined_one() {
    let mut c = cursor(CursorGrabMode::Locked, false);
    toggle_grab_cursor(&mut c);
    toggle_grab_cursor(&mut c);
    assert_eq!(state(&c), state(&confined()));
}

#[test]
fn toggle_brings_grab_mode_and_visibility_into_agreement() {
    let mut hidden_but_free = cursor(CursorGrabMode::None, false);
    toggle_grab_cursor(&mut hidden_but_free);
    assert_eq!(state(&hidden_but_free), state(&confined()));
    let mut shown_but_confined = cursor(CursorGrabMode::Confined, true);
    toggle_grab_cursor(&mut shown_but_confined);
    assert_eq!(state(&shown_but_confined), state(&free()));
}

#[test]
fn cursor_grab_toggles_when_the_key_goes_down() {
    let mut keys = ButtonInput::<KeyCode>::default();
    keys.press(KeyCode::Escape);
    let mut c = free();
    let r = cursor_grab(&keys, &KeyBindings::default(), Some(&mut c));
    assert_eq!(r, Ok(()));
    assert_eq!(state(&c), state(&confined()));
}

#[test]
fn cursor_grab_does_not_toggle_again_while_the_key_is_held() {
    let mut keys = ButtonInput::<KeyCode>::default();
    keys.press(KeyCode::Escape);
    let mut c = free();
    assert_eq!(cursor_grab(&keys, &KeyBindings::default(), Some(&mut c)), Ok(()));
    keys.clear();
    assert!(keys.pressed(KeyCode::Escape));
    assert_eq!(cursor_grab(&keys, &KeyBindings::default(), Some(&mut c)), Ok(()));
    assert_eq!(state(&c), state(&confined()));
    keys.press(KeyCode::Escape);
    assert_eq!(cursor_grab(&keys, &KeyBindings::default(), Some(&mut c)), Ok(()));
    assert_eq!(state(&c), state(&confined()));
}

#[test]
fn cursor_grab_toggles_on_each_new_press() {
    let mut keys = ButtonInput::<KeyCode>::default();
    let mut c = free();
    keys.press(KeyCode::Escape);
    assert_eq!(cursor_grab(&keys, &KeyBindings::default(), Some(&mut c)), Ok(()));
    keys.clear();
    keys.release(KeyCode::Escape);
    keys.clear();
    keys.press(KeyCode::Escape);
    assert_eq!(cursor_grab(&keys, &KeyBindings::default(), Some(&mut c)), Ok(()));
    assert_eq!(state(&c), state(&free()));
}

#[test]
fn cursor_grab_ignores_other_keys() {
    let mut keys = ButtonInput::<KeyCode>::default();
    keys.press(KeyCode::KeyW);
    keys.press(KeyCode::Space);
    keys.press(KeyCode::Enter);
    let mut c = free();
    assert_eq!(cursor_grab(&keys, &KeyBindings::default(), Some(&mut c)), Ok(()));
    assert_eq!(state(&c), state(&free()));
    let empty = ButtonInput::<KeyCode>::default();
    let mut d = confined();
    assert_eq!(cursor_grab(&empty, &KeyBindings::default(), Some(&mut d)), Ok(()));
    assert_eq!(state(&d), state(&confined()));
}

#[test]
fn cursor_grab_follows_the_configured_key() {
    let mut bindings = KeyBindings::default();
    bindings.toggle_grab_cursor = KeyCode::Tab;
    let mut escape = ButtonInput::<KeyCode>::default();
    escape.press(KeyCode::Escape);
    let mut c = free();
    assert_eq!(cursor_grab(&escape, &bindings, Some(&mut c)), Ok(()));
    assert_eq!(state(&c), state(&free()));
    let mut tab = ButtonInput::<KeyCode>::default();
    tab.press(KeyCode::Tab);
    assert_eq!(cursor_grab(&tab, &bindings, Some(&mut c)), Ok(()));
    assert_eq!(state(&c), state(&confined()));
}

#[test]
fn cursor_grab_without_a_window_is_skipped() {
    let mut keys = ButtonInput::<KeyCode>::default();
    keys.press(KeyCode::Escape);
    assert_eq!(cursor_grab(&keys, &KeyBindings::default(), None), Err(WindowNotFound));
}

#[test]
fn initial_grab_cursor_toggles_whatever_it_finds() {
    let mut c = free();
    assert_eq!(initial_grab_cursor(Some(&mut c)), Ok(()));
    assert_eq!(state(&c), state(&confined()));
    assert_eq!(initial_grab_cursor(Some(&mut c)), Ok(()));
    assert_eq!(state(&c), state(&free()));
}

#[test]
fn initial_grab_cursor_without_a_window_is_skipped() {
    assert_eq!(initial_grab_cursor(None), Err(WindowNotFound));
}

#[test]
fn spawn_grab_waits_for_the_first_camera() {
    let mut done = false;
    let mut c = free();
    assert_eq!(initial_grab_on_flycam_spawn(&mut done, 0, Some(&mut c)), Ok(()));
    assert!(!done);
    assert_eq!(state(&c), state(&free()));
    assert_eq!(initial_grab_on_flycam_spawn(&mut done, 0, None), Ok(()));
    assert!(!done);
}

#[test]
fn spawn_grab_toggles_once_when_a_camera_appears() {
    let mut done = false;
    let mut c = free();
    assert_eq!(initial_grab_on_flycam_spawn(&mut done, 1, Some(&mut c)), Ok(()));
    assert!(done);
    assert_eq!(state(&c), state(&confined()));
    assert_eq!(initial_grab_on_flycam_spawn(&mut done, 1, Some(&mut c)), Ok(()));
    assert_eq!(initial_grab_on_flycam_spawn(&mut done, 3, Some(&mut c)), Ok(()));
    assert_eq!(initial_grab_on_flycam_spawn(&mut done, 0, Some(&mut c)), Ok(()));
    assert!(done);
    assert_eq!(state(&c), state(&confined()));
}

#[test]
fn spawn_grab_counts_several_cameras_in_one_tick_as_one_appearance() {
    let mut done = false;
    let mut c = free();
    assert_eq!(initial_grab_on_flycam_spawn(&mut done, 2, Some(&mut c)), Ok(()));
    assert!(done);
    assert_eq!(state(&c), state(&confined()));
}

#[test]
fn spawn_grab_without_a_window_is_skipped_and_not_tried_again() {
    let mut done = false;
    assert_eq!(initial_grab_on_flycam_spawn(&mut done, 1, None), Err(WindowNotFound));
    assert!(done);
    let mut c = free();
    assert_eq!(initial_grab_on_flycam_spawn(&mut done, 1, Some(&mut c)), Ok(()));
    assert_eq!(state(&c), state(&free()));
    assert_eq!(initial_grab_on_flycam_spawn(&mut done, 1, None), Ok(()));
}
