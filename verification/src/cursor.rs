//! Grabbing and releasing the cursor.

use crate::bindings::KeyBindings;
use crate::input::fresh_keys;
use crate::input::key_just_pressed;
use crate::window::is_grabbed;
use crate::window::WindowNotFound;
use bevy::input::keyboard::KeyCode;
use bevy::input::ButtonInput;
use bevy::window::CursorGrabMode;
use bevy::window::CursorOptions;
use vstd::prelude::*;

verus! {

/// The cursor state after a toggle: a free cursor becomes confined and
/// hidden, a cursor in any other grab mode becomes free and visible. Nothing
/// else changes.
pub open spec fn toggled(cursor: CursorOptions) -> CursorOptions {
    if cursor.grab_mode == CursorGrabMode::None {
        CursorOptions { grab_mode: CursorGrabMode::Confined, visible: false, ..cursor }
    } else {
        CursorOptions { grab_mode: CursorGrabMode::None, visible: true, ..cursor }
    }
}

/// Grab mode and visibility agree: the cursor is free and visible, or
/// confined and hidden.
pub open spec fn is_paired(cursor: CursorOptions) -> bool {
    ||| cursor.grab_mode == CursorGrabMode::None && cursor.visible
    ||| cursor.grab_mode == CursorGrabMode::Confined && !cursor.visible
}

/// The cursor state after the tick in which `pressed` tells whether the
/// toggle key went down.
pub open spec fn after_toggle_key(cursor: CursorOptions, pressed: bool) -> CursorOptions {
    if pressed {
        toggled(cursor)
    } else {
        cursor
    }
}

/// Grabs/ungrabs mouse cursor.
pub fn toggle_grab_cursor(cursor: &mut CursorOptions)
    ensures
        *final(cursor) == toggled(*old(cursor)),
        is_paired(*final(cursor)),
{
    match cursor.grab_mode {
        CursorGrabMode::None => {
            cursor.grab_mode = CursorGrabMode::Confined;
            cursor.visible = false;
        },
        _ => {
            cursor.grab_mode = CursorGrabMode::None;
            cursor.visible = true;
        },
    }
}

/// Grabs the cursor when the game first starts: toggles the cursor of the
/// primary window, whatever its state. Without a window nothing happens and
/// the error says so.
pub fn initial_grab_cursor(primary_window: Option<&mut CursorOptions>) -> (r: Result<
    (),
    WindowNotFound,
>)
    ensures
        (match primary_window {
            Some(cursor) => r is Ok && *final(cursor) == toggled(*cursor),
            None => r is Err,
        }),
{
    match primary_window {
        Some(cursor) => {
            toggle_grab_cursor(cursor);
            Ok(())
        },
        None => Err(WindowNotFound),
    }
}

/// Toggles the cursor grab in the tick in which the bound key goes down.
/// Holding the key does not toggle again. Without a window nothing happens
/// and the error says so.
pub fn cursor_grab(
    keys: &ButtonInput<KeyCode>,
    key_bindings: &KeyBindings,
    primary_window: Option<&mut CursorOptions>,
) -> (r: Result<(), WindowNotFound>)
    ensures
        (match primary_window {
            Some(cursor) => r is Ok && *final(cursor) == after_toggle_key(
                *cursor,
                fresh_keys(*keys).contains(key_bindings.toggle_grab_cursor),
            ),
            None => r is Err,
        }),
{
    match primary_window {
        Some(cursor) => {
            if key_just_pressed(keys, key_bindings.toggle_grab_cursor) {
                toggle_grab_cursor(cursor);
            }
            Ok(())
        },
        None => Err(WindowNotFound),
    }
}

/// Grabs the cursor when the first fly camera appears.
///
/// `done` records that the grab has had its turn, and `flycams_added` is the
/// number of fly cameras that appeared in this tick. The first tick with a
/// new camera uses the turn up: the cursor of the primary window is toggled,
/// or, without a window, nothing happens and the error says so. Every other
/// tick leaves everything as it is.
pub fn initial_grab_on_flycam_spawn(
    done: &mut bool,
    flycams_added: usize,
    primary_window: Option<&mut CursorOptions>,
) -> (r: Result<(), WindowNotFound>)
    ensures
        *final(done) == (*old(done) || flycams_added > 0),
        (match primary_window {
            Some(cursor) => r is Ok && *final(cursor) == after_toggle_key(
                *cursor,
                !*old(done) && flycams_added > 0,
            ),
            None => (r is Err) == (!*old(done) && flycams_added > 0),
        }),
{
    if *done || flycams_added == 0 {
        return Ok(());
    }
    *done = true;
    initial_grab_cursor(primary_window)
}

/// Toggling twice gives back the cursor state that the first toggle found,
/// where grab mode and visibility agreed in it.
pub proof fn lemma_toggle_twice(cursor: CursorOptions)
    requires
        is_paired(cursor),
    ensures
        toggled(toggled(cursor)) == cursor,
{
}

/// Whatever state a toggle finds, it leaves grab mode and visibility in
/// agreement, and it changes the grab between free and captured.
pub proof fn lemma_toggle_pairs(cursor: CursorOptions)
    ensures
        is_paired(toggled(cursor)),
        is_grabbed(toggled(cursor).grab_mode) == !is_grabbed(cursor.grab_mode),
{
}

} // verus!
