//! The keyboard types of Bevy that the controller reads, and the few
//! operations on them that are taken on trust.

use bevy::input::keyboard::KeyCode;
use bevy::input::keyboard::NativeKeyCode;
use bevy::input::ButtonInput;
use core::hash::Hash;
use vstd::prelude::*;

verus! {

/// `bevy::input::keyboard::NativeKeyCode`, with its variants visible: Verus
/// reads them from the crate itself.
#[verifier::external_type_specification]
pub struct ExNativeKeyCode(NativeKeyCode);

/// `bevy::input::keyboard::KeyCode`, with its variants visible: Verus reads
/// them from the crate itself.
#[verifier::external_type_specification]
pub struct ExKeyCode(KeyCode);

/// `bevy::input::ButtonInput`, as an opaque value: its three hash sets are
/// private, and contracts speak of them through [`held_keys`] and
/// [`fresh_keys`].
#[verifier::external_type_specification]
#[verifier::external_body]
#[verifier::reject_recursive_types(T)]
pub struct ExButtonInput<T: Copy + Eq + Hash + Send + Sync + 'static>(ButtonInput<T>);

/// The keys that `keys` holds as pressed: the contents of its `pressed` set.
pub uninterp spec fn held_keys(keys: ButtonInput<KeyCode>) -> Set<KeyCode>;

/// The keys that `keys` holds as pressed since the last tick: the contents of
/// its `just_pressed` set.
pub uninterp spec fn fresh_keys(keys: ButtonInput<KeyCode>) -> Set<KeyCode>;

/// `KeyCode`'s derived `PartialEq::eq`. `KeyCode` and `NativeKeyCode` both
/// derive `PartialEq`, so two keys compare equal exactly when they are the
/// same variant with the same native code.
pub assume_specification[ <KeyCode as PartialEq>::eq ](a: &KeyCode, b: &KeyCode) -> (r: bool)
    ensures
        r == (*a == *b),
;

/// `ButtonInput::get_pressed`, collected into a vector. The method iterates
/// over the `pressed` hash set, so every held key comes out exactly once, in
/// an order that nothing is claimed about.
#[verifier::external_body]
pub(crate) fn pressed_keys(keys: &ButtonInput<KeyCode>) -> (pressed: Vec<KeyCode>)
    ensures
        pressed@.no_duplicates(),
        pressed@.to_set() == held_keys(*keys),
{
    keys.get_pressed().copied().collect()
}

/// `ButtonInput::just_pressed`: membership of `key` in the `just_pressed`
/// set.
#[verifier::external_body]
pub(crate) fn key_just_pressed(keys: &ButtonInput<KeyCode>, key: KeyCode) -> (r: bool)
    ensures
        r == fresh_keys(*keys).contains(key),
{
    keys.just_pressed(key)
}

} // verus!
