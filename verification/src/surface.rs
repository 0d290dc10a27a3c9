//! The engine's registry of windows, as far as the plugin looks into it.
//!
//! The plugin resizes one surface only, the primary window, and all it has
//! to know before it acts is whether the engine has registered one. The
//! registry is the engine's own type; what is said of it here is taken from
//! the engine's source and is not proved.

use bevy::window::{Window, Windows};
use vstd::prelude::*;

verus! {

/// The engine's collection of windows, each under its own id.
#[verifier::external_type_specification]
#[verifier::external_body]
pub struct ExWindows(bevy::window::Windows);

/// One window of the engine. Nothing is known of it here.
#[verifier::external_type_specification]
#[verifier::external_body]
pub struct ExWindow(bevy::window::Window);

/// Whether the registry holds a window under the primary window's id.
pub uninterp spec fn has_primary_window(windows: Windows) -> bool;

/// `Windows::get_primary` looks up the primary window's id in the registry's
/// map and reads nothing else. Whether it finds a window is therefore the
/// same for the same registry: it is `has_primary_window`. Nothing is said of
/// the window that it hands out.
pub assume_specification[ Windows::get_primary ](windows: &Windows) -> (window: Option<&Window>)
    ensures
        window.is_some() == has_primary_window(*windows),
;

} // verus!
