//! The viewport plugin: its registration, its startup routine and its per-tick
//! routine, as decisions that the host carries out.
//!
//! The host runs the routines. It shares one [`ResizeSignal`] between them and
//! the browser's resize listener, tells each routine what it found (is there
//! a browser window, what did the window report), and performs the action
//! that comes back. The routines never touch a surface themselves.

use bevy::window::Windows;
use vstd::prelude::*;
use crate::resolution::WindowSize;
use crate::signal::ResizeSignal;
use crate::surface::has_primary_window;

verus! {

/// The plugin that keeps the primary render surface as large as the browser
/// window.
#[derive(Clone, Copy, Debug)]
pub struct FullViewportPlugin;

/// A capability of the browser that the plugin cannot do without was missing.
/// None of these is recoverable: the host is expected to stop with
/// [`ViewportError::message`].
#[derive(Clone, Copy, Debug, PartialEq, Eq, Structural)]
pub enum ViewportError {
    /// There is no browser window.
    WindowUnavailable,
    /// The window did not report a width.
    WidthUnavailable,
    /// The window did not report a height.
    HeightUnavailable,
}

/// What the host has to do at the end of a tick.
#[derive(Clone, Copy, Debug, PartialEq, Eq, Structural)]
pub enum TickAction {
    /// No signal was pending: nothing to do.
    Idle,
    /// A signal was received, but there is no primary surface to resize. This
    /// is not an error; the signal is spent all the same.
    NoSurface,
    /// A signal was received: read the window now and give the primary
    /// surface its target resolution.
    Resize,
}

/// What the browser window reported when asked for its inner size. A
/// dimension is `None` where the browser gave no number for it.
#[derive(Clone, Copy, Debug)]
pub struct WindowReading {
    pub inner_width: Option<u32>,
    pub inner_height: Option<u32>,
}

/// What the startup routine returns: it fails exactly when there is no window.
pub open spec fn startup_result(window_available: bool) -> Result<(), ViewportError> {
    if window_available {
        Ok(())
    } else {
        Err(ViewportError::WindowUnavailable)
    }
}

/// The pending signals after the startup routine, which emits one signal
/// unless it fails.
pub open spec fn pending_after_startup(pending: nat, window_available: bool) -> nat {
    if window_available {
        pending + 1
    } else {
        pending
    }
}

/// What a tick decides on `pending` signals.
pub open spec fn tick_action(pending: nat, surface_present: bool) -> TickAction {
    if pending == 0 {
        TickAction::Idle
    } else if surface_present {
        TickAction::Resize
    } else {
        TickAction::NoSurface
    }
}

/// The pending signals after a tick, which receives one signal if there is
/// any.
pub open spec fn pending_after_tick(pending: nat) -> nat {
    if pending == 0 {
        0
    } else {
        (pending - 1) as nat
    }
}

/// The window size that a reading stands for, or the first capability that
/// was missing: the window itself, then its width, then its height.
pub open spec fn viewport_size(window: Option<WindowReading>) -> Result<
    WindowSize,
    ViewportError,
> {
    match window {
        None => Err(ViewportError::WindowUnavailable),
        Some(reading) => match reading.inner_width {
            None => Err(ViewportError::WidthUnavailable),
            Some(width) => match reading.inner_height {
                None => Err(ViewportError::HeightUnavailable),
                Some(height) => Ok(WindowSize { width, height }),
            },
        },
    }
}

impl ViewportError {
    /// The text with which the host stops.
    pub fn message(&self) -> (text: &'static str)
        ensures
            *self == ViewportError::WindowUnavailable ==> text@ == "could not get window"@,
            *self == ViewportError::WidthUnavailable ==> text@ == "could not get window width"@,
            *self == ViewportError::HeightUnavailable ==> text@ == "could not get window height"@,
    {
        match self {
            ViewportError::WindowUnavailable => "could not get window",
            ViewportError::WidthUnavailable => "could not get window width",
            ViewportError::HeightUnavailable => "could not get window height",
        }
    }
}

impl FullViewportPlugin {
    /// Registration. Makes the channel that the startup routine, the resize
    /// listener and the per-tick routine will share; nothing is pending on it
    /// yet. The host stores it and schedules [`setup_viewport_resize_system`]
    /// once, before the first tick, and [`viewport_resize_system`] on every
    /// tick.
    pub fn build(&self) -> (signal: ResizeSignal)
        ensures
            signal@ == 0,
    {
        ResizeSignal::new()
    }
}

/// The startup routine. Without a window it fails and leaves the channel
/// alone. With one it emits the first signal, so that the first tick sizes
/// the surface; the host then subscribes to the window's resize events, for
/// good, and calls [`ResizeSignal::send`] on each.
pub fn setup_viewport_resize_system(signal: &mut ResizeSignal, window_available: bool) -> (r:
    Result<(), ViewportError>)
    requires
        window_available ==> old(signal)@ < u64::MAX,
    ensures
        r == startup_result(window_available),
        final(signal)@ == pending_after_startup(old(signal)@, window_available),
{
    if !window_available {
        return Err(ViewportError::WindowUnavailable);
    }
    signal.send();
    Ok(())
}

/// One poll of the channel, for a host that has already looked for the
/// primary surface. Receives at most one signal, without waiting, and says
/// what the host has to do. The signal is spent whether or not there is a
/// primary surface.
pub fn poll_resize(signal: &mut ResizeSignal, surface_present: bool) -> (action: TickAction)
    ensures
        action == tick_action(old(signal)@, surface_present),
        final(signal)@ == pending_after_tick(old(signal)@),
{
    if signal.try_recv() {
        if surface_present {
            TickAction::Resize
        } else {
            TickAction::NoSurface
        }
    } else {
        TickAction::Idle
    }
}

/// The per-tick routine. With nothing pending it does nothing, and does not
/// even look at the engine's windows. Otherwise it receives one signal, looks
/// for the primary window and says what the host has to do: on
/// [`TickAction::Resize`], read the browser window and give the primary
/// window the [`target_resolution`](crate::resolution::target_resolution) of
/// what was read.
pub fn viewport_resize_system(windows: &Windows, signal: &mut ResizeSignal) -> (action:
    TickAction)
    ensures
        action == tick_action(old(signal)@, has_primary_window(*windows)),
        final(signal)@ == pending_after_tick(old(signal)@),
{
    if signal.is_pending() {
        let surface_present = windows.get_primary().is_some();
        poll_resize(signal, surface_present)
    } else {
        TickAction::Idle
    }
}

/// Turns what the browser reported into a window size. Whatever is missing
/// is fatal: the window first, then the width, then the height.
pub fn get_viewport_size(window: Option<WindowReading>) -> (size: Result<
    WindowSize,
    ViewportError,
>)
    ensures
        size == viewport_size(window),
{
    match window {
        None => Err(ViewportError::WindowUnavailable),
        Some(reading) => match reading.inner_width {
            None => Err(ViewportError::WidthUnavailable),
            Some(width) => match reading.inner_height {
                None => Err(ViewportError::HeightUnavailable),
                Some(height) => Ok(WindowSize::new(width, height)),
            },
        },
    }
}

/// Once the plugin is registered and its startup routine has run with a
/// window at hand, exactly one signal is pending, before any resize event:
/// the first tick resizes the surface if there is one.
pub proof fn lemma_startup_leaves_one_pending(registered: ResizeSignal, started: ResizeSignal)
    requires
        registered@ == 0,
        started@ == pending_after_startup(registered@, true),
    ensures
        started@ == 1,
        tick_action(started@, true) == TickAction::Resize,
{
}

/// A startup that finds no window emits nothing, whatever was pending.
pub proof fn lemma_failed_startup_emits_nothing(pending: nat)
    ensures
        startup_result(false) == Err::<(), ViewportError>(ViewportError::WindowUnavailable),
        pending_after_startup(pending, false) == pending,
{
}

/// A tick with nothing pending is a no-op: no surface is touched and the
/// channel stays empty, so every later tick is a no-op too until a signal is
/// sent.
pub proof fn lemma_tick_without_signal_is_idle(surface_present: bool)
    ensures
        tick_action(0, surface_present) == TickAction::Idle,
        pending_after_tick(0) == 0,
{
}

/// The tick after the one that received the startup signal has nothing to
/// do, as long as no resize event came in between.
pub proof fn lemma_second_tick_is_idle(surface_present: bool)
    ensures
        tick_action(
            pending_after_tick(pending_after_startup(0, true)),
            surface_present,
        ) == TickAction::Idle,
        pending_after_tick(pending_after_tick(pending_after_startup(0, true))) == 0,
{
}

/// However many signals were sent since the last tick, if it was at least
/// one, the next tick sees a signal. It asks for one resize if there is a
/// primary surface, and spends one signal either way.
pub proof fn lemma_signals_collapse_into_one_resize(
    pending: nat,
    sent: nat,
    surface_present: bool,
)
    requires
        sent >= 1,
    ensures
        tick_action(pending + sent, surface_present) != TickAction::Idle,
        surface_present ==> tick_action(pending + sent, surface_present) == TickAction::Resize,
        pending_after_tick(pending + sent) == pending + sent - 1,
{
}

/// Without a primary surface no tick asks for a resize; a pending signal is
/// received all the same.
pub proof fn lemma_no_surface_no_resize(pending: nat)
    ensures
        tick_action(pending, false) != TickAction::Resize,
        pending > 0 ==> tick_action(pending, false) == TickAction::NoSurface,
        pending > 0 ==> pending_after_tick(pending) == pending - 1,
{
}

} // verus!
