//! Frame orchestration for a windowed GPU application harness.
//!
//! `runner` decides, event by event, what the window loop does: request
//! redraws, render a frame, rotate the resource caches, halt on a failed
//! frame, and idle the device before dropping the application on close.
//! `rotation` is the per-cache frame counter that bounds reclamation.
//! `settings` and `construction` describe what device construction is asked
//! for and check what it handed back.
use vstd::prelude::*;

pub mod construction;
pub mod rotation;
pub mod runner;
pub mod settings;

verus! {

} // verus!
