//! A first-person fly camera controller for Bevy.
//!
//! This crate is the discrete core of the controller: which held keys push
//! and turn the camera, when input is ignored, how the cursor grab is
//! toggled, and what a plugin sets up. It works on Bevy's own
//! `ButtonInput<KeyCode>` and `CursorOptions`, and every function in it is
//! verified against its contract.
//!
//! The arithmetic on vectors and rotations and the access to the ECS world
//! are left to the systems that call into this crate.

pub mod bindings;
pub mod cursor;
pub mod input;
pub mod look;
pub mod movement;
pub mod plugin;
pub mod prelude;
pub mod window;
