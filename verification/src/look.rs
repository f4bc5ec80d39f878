//! Looking around: which input turns the camera in a tick.

use crate::bindings::KeyBindings;
use crate::bindings::LookAction;
use crate::input::held_keys;
use crate::input::pressed_keys;
use crate::movement::axis;
use crate::movement::signed;
use crate::window::grabbed;
use crate::window::is_grabbed;
use crate::window::WindowNotFound;
use bevy::input::keyboard::KeyCode;
use bevy::input::ButtonInput;
use bevy::window::CursorGrabMode;
use bevy::window::CursorOptions;
use vstd::prelude::*;

verus! {

/// Where the turning comes from. A controller uses one of the two, never
/// both.
#[derive(Clone, Copy, Debug, PartialEq, Eq, Structural)]
pub enum LookMode {
    /// The motion of the mouse turns the camera.
    Pointer,
    /// The held look keys turn the camera.
    Keyboard,
}

/// The turn that the held look keys give the camera, as whole steps of pitch
/// and yaw. Each is -1, 0 or 1: up and left count up, down and right count
/// down.
#[derive(Clone, Copy, Debug, PartialEq, Eq, Structural)]
pub struct LookAxes {
    pub pitch: i8,
    pub yaw: i8,
}

/// What turns the camera in one tick.
#[derive(Clone, Copy, Debug, PartialEq, Eq, Structural)]
pub enum LookInput {
    /// Nothing: the cursor is free, so yaw and pitch stay as they are.
    Ignored,
    /// Every mouse motion queued since the last tick.
    Pointer,
    /// The held look keys, by these steps.
    Keys(LookAxes),
}

/// Whether `action` takes part in the turn: its key is held, and that key
/// stands for this action and not for one bound to it earlier.
pub open spec fn is_turning(held: Set<KeyCode>, bindings: KeyBindings, action: LookAction) -> bool {
    held.contains(bindings.look_key(action)) && bindings.look_action_of(bindings.look_key(action))
        == Some(action)
}

/// The turn that a set of held keys gives under `bindings`: one step for each
/// engaged action, opposite actions cancelling.
pub open spec fn look_turn(held: Set<KeyCode>, bindings: KeyBindings) -> LookAxes {
    LookAxes {
        pitch: signed(
            is_turning(held, bindings, LookAction::Up),
            is_turning(held, bindings, LookAction::Down),
        ) as i8,
        yaw: signed(
            is_turning(held, bindings, LookAction::Left),
            is_turning(held, bindings, LookAction::Right),
        ) as i8,
    }
}

/// What turns the camera in a tick: nothing while the cursor is free, else
/// the mouse or the held keys, as `mode` says.
pub open spec fn look_input(
    mode: LookMode,
    held: Set<KeyCode>,
    bindings: KeyBindings,
    grab_mode: CursorGrabMode,
) -> LookInput {
    if !is_grabbed(grab_mode) {
        LookInput::Ignored
    } else {
        match mode {
            LookMode::Pointer => LookInput::Pointer,
            LookMode::Keyboard => LookInput::Keys(look_turn(held, bindings)),
        }
    }
}

/// Whether one of the first `n` keys of `pressed` stands for `action`.
spec fn is_looked(
    pressed: Seq<KeyCode>,
    n: int,
    bindings: KeyBindings,
    action: LookAction,
) -> bool {
    exists|j: int| 0 <= j < n && #[trigger] bindings.look_action_of(pressed[j]) == Some(action)
}

/// An action is among those that the keys of a sequence stand for exactly
/// when it is engaged by the set of these keys.
proof fn lemma_looked_is_turning(
    pressed: Seq<KeyCode>,
    bindings: KeyBindings,
    action: LookAction,
)
    ensures
        is_looked(pressed, pressed.len() as int, bindings, action) == is_turning(
            pressed.to_set(),
            bindings,
            action,
        ),
{
    let key = bindings.look_key(action);
    if is_looked(pressed, pressed.len() as int, bindings, action) {
        let j = choose|j: int|
            0 <= j < pressed.len() && #[trigger] bindings.look_action_of(pressed[j]) == Some(
                action,
            );
        bindings.lemma_look_action_key(pressed[j], action);
        assert(pressed.contains(key));
    }
    if is_turning(pressed.to_set(), bindings, action) {
        assert(pressed.contains(key));
        let j = choose|j: int| 0 <= j < pressed.len() && pressed[j] == key;
        assert(bindings.look_action_of(pressed[j]) == Some(action));
    }
}

/// Works out the turn that the keys in `pressed` give the camera. A key that
/// occurs twice counts once.
pub fn look_axes(pressed: &[KeyCode], key_bindings: &KeyBindings) -> (axes: LookAxes)
    ensures
        axes == look_turn(pressed@.to_set(), *key_bindings),
        -1 <= axes.pitch <= 1,
        -1 <= axes.yaw <= 1,
{
    let mut up = false;
    let mut down = false;
    let mut left = false;
    let mut right = false;
    let mut i: usize = 0;
    while i < pressed.len()
        invariant
            i <= pressed.len(),
            up == is_looked(pressed@, i as int, *key_bindings, LookAction::Up),
            down == is_looked(pressed@, i as int, *key_bindings, LookAction::Down),
            left == is_looked(pressed@, i as int, *key_bindings, LookAction::Left),
            right == is_looked(pressed@, i as int, *key_bindings, LookAction::Right),
        decreases pressed.len() - i,
    {
        let key = pressed[i];
        match key_bindings.look_action(key) {
            Some(LookAction::Up) => up = true,
            Some(LookAction::Down) => down = true,
            Some(LookAction::Left) => left = true,
            Some(LookAction::Right) => right = true,
            None => (),
        }
        i += 1;
    }
    proof {
        lemma_looked_is_turning(pressed@, *key_bindings, LookAction::Up);
        lemma_looked_is_turning(pressed@, *key_bindings, LookAction::Down);
        lemma_looked_is_turning(pressed@, *key_bindings, LookAction::Left);
        lemma_looked_is_turning(pressed@, *key_bindings, LookAction::Right);
    }
    LookAxes { pitch: axis(up, down), yaw: axis(left, right) }
}

/// Handles looking around if the cursor is locked: tells what turns the
/// camera in this tick. Without a window the tick is skipped and the error
/// says so.
pub fn player_look(
    mode: LookMode,
    keys: &ButtonInput<KeyCode>,
    key_bindings: &KeyBindings,
    primary_window: Option<&CursorOptions>,
) -> (r: Result<LookInput, WindowNotFound>)
    ensures
        (match primary_window {
            Some(cursor) => r matches Ok(input) && input == look_input(
                mode,
                held_keys(*keys),
                *key_bindings,
                cursor.grab_mode,
            ),
            None => r is Err,
        }),
{
    match primary_window {
        Some(cursor) => {
            if !grabbed(cursor.grab_mode) {
                return Ok(LookInput::Ignored);
            }
            match mode {
                LookMode::Pointer => Ok(LookInput::Pointer),
                LookMode::Keyboard => {
                    let pressed = pressed_keys(keys);
                    Ok(LookInput::Keys(look_axes(pressed.as_slice(), key_bindings)))
                },
            }
        },
        None => Err(WindowNotFound),
    }
}

/// Where the four look keys are pairwise distinct, an action is engaged
/// exactly when its key is held.
pub proof fn lemma_distinct_keys_turn_when_held(
    held: Set<KeyCode>,
    bindings: KeyBindings,
    action: LookAction,
)
    requires
        forall|a: LookAction, b: LookAction| a != b ==> bindings.look_key(a) != bindings.look_key(b),
    ensures
        is_turning(held, bindings, action) == held.contains(bindings.look_key(action)),
{
    bindings.lemma_distinct_look_keys(action);
}

/// While the cursor is free, neither the mouse nor the keys turn the camera.
pub proof fn lemma_free_cursor_gives_no_turn(
    mode: LookMode,
    held: Set<KeyCode>,
    bindings: KeyBindings,
)
    ensures
        look_input(mode, held, bindings, CursorGrabMode::None) == LookInput::Ignored,
{
}

} // verus!
