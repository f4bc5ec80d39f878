//! Movement: from the held keys to the direction the camera is pushed in.

use crate::bindings::KeyBindings;
use crate::bindings::MoveAction;
use crate::input::held_keys;
use crate::input::pressed_keys;
use crate::window::is_grabbed;
use crate::window::WindowNotFound;
use bevy::input::keyboard::KeyCode;
use bevy::input::ButtonInput;
use bevy::window::CursorGrabMode;
use bevy::window::CursorOptions;
use vstd::prelude::*;

verus! {

/// The push that the held keys give the camera, as whole steps along three
/// axes: the camera's forward direction and its right direction, both taken
/// in the level plane, and world up. Each is -1, 0 or 1. The camera's
/// velocity is the sum of the three unit vectors, each scaled by its step,
/// brought to unit length unless it is zero.
#[derive(Clone, Copy, Debug, PartialEq, Eq, Structural)]
pub struct MoveAxes {
    pub forward: i8,
    pub right: i8,
    pub up: i8,
}

impl MoveAxes {
    /// No push at all.
    pub open spec fn zero() -> MoveAxes {
        MoveAxes { forward: 0, right: 0, up: 0 }
    }

    /// Whether there is no push at all.
    pub open spec fn is_zero(self) -> bool {
        self.forward == 0 && self.right == 0 && self.up == 0
    }
}

/// Whether `action` takes part in the push: its key is held, and that key
/// stands for this action and not for one bound to it earlier.
pub open spec fn is_engaged(held: Set<KeyCode>, bindings: KeyBindings, action: MoveAction) -> bool {
    held.contains(bindings.move_key(action)) && bindings.move_action_of(bindings.move_key(action))
        == Some(action)
}

/// One step along an axis for the action that pushes along it, one step back
/// for the action that pushes against it.
pub open spec fn signed(plus: bool, minus: bool) -> int {
    (if plus { 1int } else { 0int }) - (if minus { 1int } else { 0int })
}

/// The push that a set of held keys gives under `bindings`: nothing while
/// the cursor is free, else one step for each engaged action, opposite
/// actions cancelling.
pub open spec fn move_intent(
    held: Set<KeyCode>,
    bindings: KeyBindings,
    grab_mode: CursorGrabMode,
) -> MoveAxes {
    if is_grabbed(grab_mode) {
        MoveAxes {
            forward: signed(
                is_engaged(held, bindings, MoveAction::Forward),
                is_engaged(held, bindings, MoveAction::Backward),
            ) as i8,
            right: signed(
                is_engaged(held, bindings, MoveAction::Right),
                is_engaged(held, bindings, MoveAction::Left),
            ) as i8,
            up: signed(
                is_engaged(held, bindings, MoveAction::Ascend),
                is_engaged(held, bindings, MoveAction::Descend),
            ) as i8,
        }
    } else {
        MoveAxes::zero()
    }
}

/// Whether one of the first `n` keys of `pressed` stands for `action`.
spec fn is_seen(
    pressed: Seq<KeyCode>,
    n: int,
    bindings: KeyBindings,
    action: MoveAction,
) -> bool {
    exists|j: int| 0 <= j < n && #[trigger] bindings.move_action_of(pressed[j]) == Some(action)
}

/// An action is among those that the keys of a sequence stand for exactly
/// when it is engaged by the set of these keys.
proof fn lemma_seen_is_engaged(pressed: Seq<KeyCode>, bindings: KeyBindings, action: MoveAction)
    ensures
        is_seen(pressed, pressed.len() as int, bindings, action) == is_engaged(
            pressed.to_set(),
            bindings,
            action,
        ),
{
    let key = bindings.move_key(action);
    if is_seen(pressed, pressed.len() as int, bindings, action) {
        let j = choose|j: int|
            0 <= j < pressed.len() && #[trigger] bindings.move_action_of(pressed[j]) == Some(
                action,
            );
        bindings.lemma_move_action_key(pressed[j], action);
        assert(pressed.contains(key));
    }
    if is_engaged(pressed.to_set(), bindings, action) {
        assert(pressed.contains(key));
        let j = choose|j: int| 0 <= j < pressed.len() && pressed[j] == key;
        assert(bindings.move_action_of(pressed[j]) == Some(action));
    }
}

/// One step along an axis, as [`signed`] counts it.
pub(crate) fn axis(plus: bool, minus: bool) -> (step: i8)
    ensures
        step == signed(plus, minus),
{
    let up: i8 = if plus { 1 } else { 0 };
    let down: i8 = if minus { 1 } else { 0 };
    up - down
}

/// Works out the push that the keys in `pressed` give the camera. A key that
/// occurs twice counts once. While the cursor is free the keys are ignored.
pub fn move_axes(pressed: &[KeyCode], key_bindings: &KeyBindings, grab_mode: CursorGrabMode) -> (axes:
    MoveAxes)
    ensures
        axes == move_intent(pressed@.to_set(), *key_bindings, grab_mode),
        -1 <= axes.forward <= 1,
        -1 <= axes.right <= 1,
        -1 <= axes.up <= 1,
{
    let mut forward = false;
    let mut backward = false;
    let mut left = false;
    let mut right = false;
    let mut ascend = false;
    let mut descend = false;
    let mut i: usize = 0;
    while i < pressed.len()
        invariant
            i <= pressed.len(),
            forward == (is_grabbed(grab_mode) && is_seen(
                pressed@,
                i as int,
                *key_bindings,
                MoveAction::Forward,
            )),
            backward == (is_grabbed(grab_mode) && is_seen(
                pressed@,
                i as int,
                *key_bindings,
                MoveAction::Backward,
            )),
            left == (is_grabbed(grab_mode) && is_seen(
                pressed@,
                i as int,
                *key_bindings,
                MoveAction::Left,
            )),
            right == (is_grabbed(grab_mode) && is_seen(
                pressed@,
                i as int,
                *key_bindings,
                MoveAction::Right,
            )),
            ascend == (is_grabbed(grab_mode) && is_seen(
                pressed@,
                i as int,
                *key_bindings,
                MoveAction::Ascend,
            )),
            descend == (is_grabbed(grab_mode) && is_seen(
                pressed@,
                i as int,
                *key_bindings,
                MoveAction::Descend,
            )),
        decreases pressed.len() - i,
    {
        let key = pressed[i];
        match grab_mode {
            CursorGrabMode::None => (),
            _ => {
                match key_bindings.move_action(key) {
                    Some(MoveAction::Forward) => forward = true,
                    Some(MoveAction::Backward) => backward = true,
                    Some(MoveAction::Left) => left = true,
                    Some(MoveAction::Right) => right = true,
                    Some(MoveAction::Ascend) => ascend = true,
                    Some(MoveAction::Descend) => descend = true,
                    None => (),
                }
            },
        }
        i += 1;
    }
    proof {
        lemma_seen_is_engaged(pressed@, *key_bindings, MoveAction::Forward);
        lemma_seen_is_engaged(pressed@, *key_bindings, MoveAction::Backward);
        lemma_seen_is_engaged(pressed@, *key_bindings, MoveAction::Left);
        lemma_seen_is_engaged(pressed@, *key_bindings, MoveAction::Right);
        lemma_seen_is_engaged(pressed@, *key_bindings, MoveAction::Ascend);
        lemma_seen_is_engaged(pressed@, *key_bindings, MoveAction::Descend);
    }
    MoveAxes { forward: axis(forward, backward), right: axis(right, left), up: axis(ascend, descend) }
}

/// Handles keyboard input and movement: the push that the keys held in
/// `keys` give the camera in this tick. Without a window the tick is skipped
/// and the error says so.
pub fn player_move(
    keys: &ButtonInput<KeyCode>,
    key_bindings: &KeyBindings,
    primary_window: Option<&CursorOptions>,
) -> (r: Result<MoveAxes, WindowNotFound>)
    ensures
        (match primary_window {
            Some(cursor) => r matches Ok(axes) && axes == move_intent(
                held_keys(*keys),
                *key_bindings,
                cursor.grab_mode,
            ),
            None => r is Err,
        }),
{
    match primary_window {
        Some(cursor) => {
            let pressed = pressed_keys(keys);
            Ok(move_axes(pressed.as_slice(), key_bindings, cursor.grab_mode))
        },
        None => Err(WindowNotFound),
    }
}

/// The push is zero exactly when the cursor is free or the engaged actions
/// cancel on every axis, which includes that none is engaged.
pub proof fn lemma_zero_iff_cancelled(
    held: Set<KeyCode>,
    bindings: KeyBindings,
    grab_mode: CursorGrabMode,
)
    ensures
        move_intent(held, bindings, grab_mode).is_zero() <==> !is_grabbed(grab_mode) || ({
            &&& is_engaged(held, bindings, MoveAction::Forward) == is_engaged(
                held,
                bindings,
                MoveAction::Backward,
            )
            &&& is_engaged(held, bindings, MoveAction::Right) == is_engaged(
                held,
                bindings,
                MoveAction::Left,
            )
            &&& is_engaged(held, bindings, MoveAction::Ascend) == is_engaged(
                held,
                bindings,
                MoveAction::Descend,
            )
        }),
{
}

/// The vertical step comes from the ascend and descend keys alone: two sets
/// of held keys that agree on these two keys give the same vertical step,
/// whatever other keys they hold, and without either of them it is zero.
pub proof fn lemma_vertical_from_ascend_descend(
    held: Set<KeyCode>,
    other: Set<KeyCode>,
    bindings: KeyBindings,
    grab_mode: CursorGrabMode,
)
    requires
        held.contains(bindings.move_ascend) == other.contains(bindings.move_ascend),
        held.contains(bindings.move_descend) == other.contains(bindings.move_descend),
    ensures
        move_intent(held, bindings, grab_mode).up == move_intent(other, bindings, grab_mode).up,
        !held.contains(bindings.move_ascend) && !held.contains(bindings.move_descend)
            ==> move_intent(held, bindings, grab_mode).up == 0,
{
}

/// Where the six movement keys are pairwise distinct, an action is engaged
/// exactly when its key is held.
pub proof fn lemma_distinct_keys_engage_when_held(
    held: Set<KeyCode>,
    bindings: KeyBindings,
    action: MoveAction,
)
    requires
        forall|a: MoveAction, b: MoveAction| a != b ==> bindings.move_key(a) != bindings.move_key(b),
    ensures
        is_engaged(held, bindings, action) == held.contains(bindings.move_key(action)),
{
    bindings.lemma_distinct_move_keys(action);
}

/// While the cursor is free, held keys give no push.
pub proof fn lemma_free_cursor_gives_no_push(held: Set<KeyCode>, bindings: KeyBindings)
    ensures
        move_intent(held, bindings, CursorGrabMode::None) == MoveAxes::zero(),
{
}

} // verus!
