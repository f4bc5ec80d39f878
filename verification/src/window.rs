//! The window types of Bevy that the controller reads and writes.

use bevy::window::CursorGrabMode;
use bevy::window::CursorOptions;
use vstd::prelude::*;

verus! {

/// `bevy::window::CursorGrabMode`, with its three variants visible: Verus
/// reads them from the crate itself, so nothing is assumed about them.
#[verifier::external_type_specification]
pub struct ExCursorGrabMode(CursorGrabMode);

/// `bevy::window::CursorOptions`, with its public fields `visible`,
/// `grab_mode` and `hit_test` visible: Verus reads them from the crate itself.
#[verifier::external_type_specification]
pub struct ExCursorOptions(CursorOptions);

/// The one way a tick can fail: there is no primary window to read or change.
/// It is never fatal: the work of that tick is skipped and nothing changes.
#[derive(Clone, Copy, Debug, PartialEq, Eq, Structural)]
pub struct WindowNotFound;

/// Whether the cursor is captured by the window: any grab mode but `None`.
pub open spec fn is_grabbed(grab_mode: CursorGrabMode) -> bool {
    grab_mode != CursorGrabMode::None
}

/// Tells whether the cursor is captured by the window.
pub fn grabbed(grab_mode: CursorGrabMode) -> (r: bool)
    ensures
        r == is_grabbed(grab_mode),
{
    match grab_mode {
        CursorGrabMode::None => false,
        _ => true,
    }
}

} // verus!
