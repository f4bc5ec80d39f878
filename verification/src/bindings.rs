//! Key bindings: which physical key stands for which action.

use bevy::input::keyboard::KeyCode;
use vstd::prelude::*;

verus! {

/// A way to move the camera.
#[derive(Clone, Copy, Debug, PartialEq, Eq, Structural)]
pub enum MoveAction {
    Forward,
    Backward,
    Left,
    Right,
    Ascend,
    Descend,
}

/// A way to turn the camera from the keyboard.
#[derive(Clone, Copy, Debug, PartialEq, Eq, Structural)]
pub enum LookAction {
    Up,
    Down,
    Left,
    Right,
}

/// Key configuration.
///
/// Each action is bound to exactly one key. One key may be bound to several
/// actions: a held key then counts for the first action it is bound to, in
/// the order forward, backward, left, right, ascend, descend for movement and
/// up, down, left, right for looking.
#[derive(Clone, Copy, Debug)]
pub struct KeyBindings {
    pub move_forward: KeyCode,
    pub move_backward: KeyCode,
    pub move_left: KeyCode,
    pub move_right: KeyCode,
    pub move_ascend: KeyCode,
    pub move_descend: KeyCode,
    pub toggle_grab_cursor: KeyCode,
    pub look_left: KeyCode,
    pub look_right: KeyCode,
    pub look_up: KeyCode,
    pub look_down: KeyCode,
}

impl KeyBindings {
    /// The bindings a controller starts with: WASD to move, space and left
    /// shift to rise and sink, escape to toggle the cursor grab, and the arrow
    /// keys to look.
    pub open spec fn standard() -> KeyBindings {
        KeyBindings {
            move_forward: KeyCode::KeyW,
            move_backward: KeyCode::KeyS,
            move_left: KeyCode::KeyA,
            move_right: KeyCode::KeyD,
            move_ascend: KeyCode::Space,
            move_descend: KeyCode::ShiftLeft,
            toggle_grab_cursor: KeyCode::Escape,
            look_left: KeyCode::ArrowLeft,
            look_right: KeyCode::ArrowRight,
            look_up: KeyCode::ArrowUp,
            look_down: KeyCode::ArrowDown,
        }
    }

    /// The key bound to a movement.
    pub open spec fn move_key(self, action: MoveAction) -> KeyCode {
        match action {
            MoveAction::Forward => self.move_forward,
            MoveAction::Backward => self.move_backward,
            MoveAction::Left => self.move_left,
            MoveAction::Right => self.move_right,
            MoveAction::Ascend => self.move_ascend,
            MoveAction::Descend => self.move_descend,
        }
    }

    /// The key bound to a turn.
    pub open spec fn look_key(self, action: LookAction) -> KeyCode {
        match action {
            LookAction::Up => self.look_up,
            LookAction::Down => self.look_down,
            LookAction::Left => self.look_left,
            LookAction::Right => self.look_right,
        }
    }

    /// The movement that a held `key` stands for: the first one bound to it.
    pub open spec fn move_action_of(self, key: KeyCode) -> Option<MoveAction> {
        if key == self.move_forward {
            Some(MoveAction::Forward)
        } else if key == self.move_backward {
            Some(MoveAction::Backward)
        } else if key == self.move_left {
            Some(MoveAction::Left)
        } else if key == self.move_right {
            Some(MoveAction::Right)
        } else if key == self.move_ascend {
            Some(MoveAction::Ascend)
        } else if key == self.move_descend {
            Some(MoveAction::Descend)
        } else {
            None
        }
    }

    /// The turn that a held `key` stands for: the first one bound to it.
    pub open spec fn look_action_of(self, key: KeyCode) -> Option<LookAction> {
        if key == self.look_up {
            Some(LookAction::Up)
        } else if key == self.look_down {
            Some(LookAction::Down)
        } else if key == self.look_left {
            Some(LookAction::Left)
        } else if key == self.look_right {
            Some(LookAction::Right)
        } else {
            None
        }
    }

    /// Finds the movement that a held `key` stands for, if any.
    pub fn move_action(&self, key: KeyCode) -> (action: Option<MoveAction>)
        ensures
            action == self.move_action_of(key),
    {
        if key == self.move_forward {
            Some(MoveAction::Forward)
        } else if key == self.move_backward {
            Some(MoveAction::Backward)
        } else if key == self.move_left {
            Some(MoveAction::Left)
        } else if key == self.move_right {
            Some(MoveAction::Right)
        } else if key == self.move_ascend {
            Some(MoveAction::Ascend)
        } else if key == self.move_descend {
            Some(MoveAction::Descend)
        } else {
            None
        }
    }

    /// Finds the turn that a held `key` stands for, if any.
    pub fn look_action(&self, key: KeyCode) -> (action: Option<LookAction>)
        ensures
            action == self.look_action_of(key),
    {
        if key == self.look_up {
            Some(LookAction::Up)
        } else if key == self.look_down {
            Some(LookAction::Down)
        } else if key == self.look_left {
            Some(LookAction::Left)
        } else if key == self.look_right {
            Some(LookAction::Right)
        } else {
            None
        }
    }

    /// A key stands for a movement only if it is the key bound to it, and a
    /// bound key always stands for some movement.
    pub proof fn lemma_move_action_key(self, key: KeyCode, action: MoveAction)
        ensures
            self.move_action_of(key) == Some(action) ==> key == self.move_key(action),
            self.move_action_of(self.move_key(action)).is_some(),
    {
    }

    /// A key stands for a turn only if it is the key bound to it, and a bound
    /// key always stands for some turn.
    pub proof fn lemma_look_action_key(self, key: KeyCode, action: LookAction)
        ensures
            self.look_action_of(key) == Some(action) ==> key == self.look_key(action),
            self.look_action_of(self.look_key(action)).is_some(),
    {
    }

    /// Where the six movement keys are pairwise distinct, each of them stands
    /// for its own movement.
    pub proof fn lemma_distinct_move_keys(self, action: MoveAction)
        requires
            forall|a: MoveAction, b: MoveAction| a != b ==> self.move_key(a) != self.move_key(b),
        ensures
            self.move_action_of(self.move_key(action)) == Some(action),
    {
        assert(self.move_key(MoveAction::Forward) == self.move_forward);
        assert(self.move_key(MoveAction::Backward) == self.move_backward);
        assert(self.move_key(MoveAction::Left) == self.move_left);
        assert(self.move_key(MoveAction::Right) == self.move_right);
        assert(self.move_key(MoveAction::Ascend) == self.move_ascend);
        assert(self.move_key(MoveAction::Descend) == self.move_descend);
    }

    /// Where the four look keys are pairwise distinct, each of them stands
    /// for its own turn.
    pub proof fn lemma_distinct_look_keys(self, action: LookAction)
        requires
            forall|a: LookAction, b: LookAction| a != b ==> self.look_key(a) != self.look_key(b),
        ensures
            self.look_action_of(self.look_key(action)) == Some(action),
    {
        assert(self.look_key(LookAction::Up) == self.look_up);
        assert(self.look_key(LookAction::Down) == self.look_down);
        assert(self.look_key(LookAction::Left) == self.look_left);
        assert(self.look_key(LookAction::Right) == self.look_right);
    }
}

impl Default for KeyBindings {
    fn default() -> (bindings: Self)
        ensures
            bindings == KeyBindings::standard(),
    {
        Self {
            move_forward: KeyCode::KeyW,
            move_backward: KeyCode::KeyS,
            move_left: KeyCode::KeyA,
            move_right: KeyCode::KeyD,
            move_ascend: KeyCode::Space,
            move_descend: KeyCode::ShiftLeft,
            toggle_grab_cursor: KeyCode::Escape,
            look_left: KeyCode::ArrowLeft,
            look_right: KeyCode::ArrowRight,
            look_up: KeyCode::ArrowUp,
            look_down: KeyCode::ArrowDown,
        }
    }
}

} // verus!
