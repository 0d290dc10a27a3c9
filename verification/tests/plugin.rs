use bevy::window::{Window, WindowDescriptor, WindowId, Windows};
use full_viewport::plugin::{
    get_viewport_size, poll_resize, setup_viewport_resize_system, viewport_resize_system,
};
use full_viewport::resolution::target_resolution;
use full_viewport::{
    FullViewportPlugin, ResizeSignal, TickAction, ViewportError, WindowReading, WindowSize,
};

fn window(id: WindowId) -> Window {
    Window::new(id, &WindowDescriptor::default(), 800, 600, 1.0, None, None)
}

fn no_windows() -> Windows {
    Windows::default()
}

fn primary_window() -> Windows {
    let mut windows = Windows::default();
    windows.add(window(WindowId::primary()));
    windows
}

fn secondary_window_only() -> Windows {
    let mut windows = Windows::default();
    windows.add(window(WindowId::new()));
    windows
}

fn started() -> ResizeSignal {
    let mut signal = FullViewportPlugin.build();
    assert_eq!(setup_viewport_resize_system(&mut signal, true), Ok(()));
    signal
}

#[test]
fn build_makes_an_empty_channel() {
    let signal = FullViewportPlugin.build();
    assert_eq!(signal.pending(), 0);
}

#[test]
fn startup_emits_exactly_one_signal() {
    let mut signal = FullViewportPlugin.build();
    let result = setup_viewport_resize_system(&mut signal, true);
    assert_eq!(result, Ok(()));
    assert_eq!(signal.pending(), 1);
}

#[test]
fn startup_without_window_fails_and_emits_nothing() {
    let mut signal = FullViewportPlugin.build();
    let result = setup_viewport_resize_system(&mut signal, false);
    assert_eq!(result, Err(ViewportError::WindowUnavailable));
    assert_eq!(signal.pending(), 0);
}

#[test]
fn startup_without_window_leaves_pending_signals_alone() {
    let mut signal = ResizeSignal::new();
    signal.send();
    signal.send();
    let result = setup_viewport_resize_system(&mut signal, false);
    assert_eq!(result, Err(ViewportError::WindowUnavailable));
    assert_eq!(signal.pending(), 2);
}

#[test]
fn first_tick_after_startup_resizes() {
    let mut signal = started();
    let action = viewport_resize_system(&primary_window(), &mut signal);
    assert_eq!(action, TickAction::Resize);
    assert_eq!(signal.pending(), 0);
}

#[test]
fn second_tick_without_notification_is_idle() {
    let windows = primary_window();
    let mut signal = started();
    assert_eq!(viewport_resize_system(&windows, &mut signal), TickAction::Resize);
    assert_eq!(viewport_resize_system(&windows, &mut signal), TickAction::Idle);
    assert_eq!(viewport_resize_system(&windows, &mut signal), TickAction::Idle);
    assert_eq!(signal.pending(), 0);
}

#[test]
fn tick_on_fresh_channel_is_idle() {
    let mut signal = FullViewportPlugin.build();
    assert_eq!(viewport_resize_system(&primary_window(), &mut signal), TickAction::Idle);
    assert_eq!(viewport_resize_system(&no_windows(), &mut signal), TickAction::Idle);
    assert_eq!(signal.pending(), 0);
}

#[test]
fn notification_is_seen_by_next_tick() {
    let windows = primary_window();
    let mut signal = started();
    assert_eq!(viewport_resize_system(&windows, &mut signal), TickAction::Resize);
    signal.send();
    assert_eq!(viewport_resize_system(&windows, &mut signal), TickAction::Resize);
    assert_eq!(viewport_resize_system(&windows, &mut signal), TickAction::Idle);
}

#[test]
fn many_notifications_give_one_resize_per_tick() {
    let windows = primary_window();
    let mut signal = started();
    assert_eq!(viewport_resize_system(&windows, &mut signal), TickAction::Resize);
    signal.send();
    signal.send();
    signal.send();
    assert_eq!(signal.pending(), 3);
    assert_eq!(viewport_resize_system(&windows, &mut signal), TickAction::Resize);
    assert_eq!(signal.pending(), 2);
}

#[test]
fn resize_uses_the_size_read_on_that_tick() {
    let windows = primary_window();
    let mut signal = started();
    signal.send();
    let sizes = [WindowSize::new(1025, 769), WindowSize::new(641, 480)];
    let mut applied = Vec::new();
    for size in sizes {
        if viewport_resize_system(&windows, &mut signal) == TickAction::Resize {
            applied.push(target_resolution(size));
        }
    }
    assert_eq!(applied, vec![WindowSize::new(1024, 768), WindowSize::new(640, 480)]);
}

#[test]
fn tick_without_primary_surface_spends_the_signal() {
    let mut signal = started();
    let action = viewport_resize_system(&no_windows(), &mut signal);
    assert_eq!(action, TickAction::NoSurface);
    assert_eq!(signal.pending(), 0);
    assert_eq!(viewport_resize_system(&no_windows(), &mut signal), TickAction::Idle);
}

#[test]
fn secondary_window_is_not_a_primary_surface() {
    let mut signal = started();
    let action = viewport_resize_system(&secondary_window_only(), &mut signal);
    assert_eq!(action, TickAction::NoSurface);
}

#[test]
fn primary_among_several_windows_is_found() {
    let mut windows = secondary_window_only();
    windows.add(window(WindowId::primary()));
    let mut signal = started();
    assert_eq!(viewport_resize_system(&windows, &mut signal), TickAction::Resize);
}

#[test]
fn surface_registered_later_needs_a_new_signal() {
    let mut signal = started();
    assert_eq!(viewport_resize_system(&no_windows(), &mut signal), TickAction::NoSurface);
    let windows = primary_window();
    assert_eq!(viewport_resize_system(&windows, &mut signal), TickAction::Idle);
    signal.send();
    assert_eq!(viewport_resize_system(&windows, &mut signal), TickAction::Resize);
}

#[test]
fn poll_resize_decides_by_signal_and_surface() {
    let mut signal = ResizeSignal::new();
    assert_eq!(poll_resize(&mut signal, true), TickAction::Idle);
    assert_eq!(poll_resize(&mut signal, false), TickAction::Idle);
    signal.send();
    assert_eq!(poll_resize(&mut signal, true), TickAction::Resize);
    assert_eq!(signal.pending(), 0);
    signal.send();
    assert_eq!(poll_resize(&mut signal, false), TickAction::NoSurface);
    assert_eq!(signal.pending(), 0);
}

#[test]
fn viewport_size_of_complete_reading() {
    let reading = WindowReading { inner_width: Some(1280), inner_height: Some(721) };
    assert_eq!(get_viewport_size(Some(reading)), Ok(WindowSize::new(1280, 721)));
}

#[test]
fn viewport_size_without_window() {
    assert_eq!(get_viewport_size(None), Err(ViewportError::WindowUnavailable));
}

#[test]
fn viewport_size_without_width() {
    let reading = WindowReading { inner_width: None, inner_height: Some(600) };
    assert_eq!(get_viewport_size(Some(reading)), Err(ViewportError::WidthUnavailable));
}

#[test]
fn viewport_size_without_height() {
    let reading = WindowReading { inner_width: Some(800), inner_height: None };
    assert_eq!(get_viewport_size(Some(reading)), Err(ViewportError::HeightUnavailable));
}

#[test]
fn viewport_size_reports_missing_width_first() {
    let reading = WindowReading { inner_width: None, inner_height: None };
    assert_eq!(get_viewport_size(Some(reading)), Err(ViewportError::WidthUnavailable));
}

#[test]
fn error_messages() {
    assert_eq!(ViewportError::WindowUnavailable.message(), "could not get window");
    assert_eq!(ViewportError::WidthUnavailable.message(), "could not get window width");
    assert_eq!(ViewportError::HeightUnavailable.message(), "could not get window height");
}
