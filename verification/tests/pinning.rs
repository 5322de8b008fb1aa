use desknote::pinning::{
    pin_to_desktop, restore_pin_on_focus_loss, send_to_desktop, sink_to_bottom, Outcome, Skip,
};
use desknote::platform::Platform;
use desknote::window::{WindowAction, WindowState};

fn some_window() -> WindowState {
    WindowState {
        ex_style: 0x0004_0100,
        at_bottom: false,
        x: 40,
        y: 60,
        width: 320,
        height: 240,
        active: true,
    }
}

fn bottom() -> WindowAction {
    WindowAction::SetPos { insert_after: 1, x: 0, y: 0, cx: 0, cy: 0, flags: 0x13 }
}

fn pin_round(window: &mut WindowState, platform: Platform, handle: bool) -> Outcome {
    let read = if handle { Some(window.ex_style) } else { None };
    let outcome = pin_to_desktop(platform, read);
    window.perform_all(&outcome.actions);
    outcome
}

fn restore_round(window: &mut WindowState, platform: Platform, handle: bool) -> Outcome {
    let outcome = restore_pin_on_focus_loss(platform, handle);
    window.perform_all(&outcome.actions);
    outcome
}

#[test]
fn sink_to_bottom_is_the_order_only_request() {
    assert_eq!(sink_to_bottom(), bottom());
}

#[test]
fn send_to_desktop_writes_the_style_then_sinks() {
    let requests = send_to_desktop(0x0004_0100);
    assert_eq!(
        requests,
        vec![WindowAction::SetLong { index: -20, value: 0x0804_0180 }, bottom()]
    );
}

#[test]
fn send_to_desktop_depends_on_the_style_read() {
    let requests = send_to_desktop(0);
    assert_eq!(requests[0], WindowAction::SetLong { index: -20, value: 0x0800_0080 });
    assert_ne!(requests[0], WindowAction::SetLong { index: -20, value: 0 });
}

#[test]
fn pin_on_windows_with_a_handle() {
    let outcome = pin_to_desktop(Platform::Windows, Some(0x0004_0100));
    assert_eq!(outcome.skipped, None);
    assert_eq!(outcome.actions, send_to_desktop(0x0004_0100));
}

#[test]
fn pin_without_a_handle_is_a_silent_no_op() {
    let outcome = pin_to_desktop(Platform::Windows, None);
    assert_eq!(outcome, Outcome { actions: vec![], skipped: Some(Skip::HandleUnavailable) });
}

#[test]
fn pin_without_the_capability_is_a_silent_no_op() {
    let with = pin_to_desktop(Platform::Other, Some(0x0004_0100));
    assert_eq!(with, Outcome { actions: vec![], skipped: Some(Skip::CapabilityUnavailable) });
    let without = pin_to_desktop(Platform::Other, None);
    assert_eq!(without, Outcome { actions: vec![], skipped: Some(Skip::CapabilityUnavailable) });
}

#[test]
fn restore_on_windows_with_a_handle() {
    let outcome = restore_pin_on_focus_loss(Platform::Windows, true);
    assert_eq!(outcome, Outcome { actions: vec![bottom()], skipped: None });
}

#[test]
fn restore_without_a_handle_is_a_silent_no_op() {
    let outcome = restore_pin_on_focus_loss(Platform::Windows, false);
    assert_eq!(outcome, Outcome { actions: vec![], skipped: Some(Skip::HandleUnavailable) });
}

#[test]
fn restore_without_the_capability_is_a_silent_no_op() {
    let outcome = restore_pin_on_focus_loss(Platform::Other, true);
    assert_eq!(outcome, Outcome { actions: vec![], skipped: Some(Skip::CapabilityUnavailable) });
    let outcome = restore_pin_on_focus_loss(Platform::Other, false);
    assert_eq!(outcome, Outcome { actions: vec![], skipped: Some(Skip::CapabilityUnavailable) });
}

#[test]
fn pinning_makes_the_window_a_desktop_widget() {
    let mut window = some_window();
    assert!(!window.is_pinned());
    pin_round(&mut window, Platform::Windows, true);
    assert!(window.is_taskbar_excluded());
    assert!(window.is_non_activating());
    assert!(window.at_bottom);
    assert!(window.is_pinned());
    assert_eq!(
        window,
        WindowState { ex_style: 0x0804_0180, at_bottom: true, ..some_window() }
    );
}

#[test]
fn pinning_twice_is_pinning_once() {
    let mut once = some_window();
    pin_round(&mut once, Platform::Windows, true);
    let mut twice = once;
    let second = pin_round(&mut twice, Platform::Windows, true);
    assert_eq!(twice, once);
    assert_eq!(second.skipped, None);
    assert_eq!(second.actions.len(), 2);
}

#[test]
fn pinning_twice_is_pinning_once_from_many_styles() {
    for ex_style in [0, 0x80, 0x0800_0000, 0x0800_0080, -1, i32::MIN, i32::MAX, 0x0008_0028] {
        for at_bottom in [false, true] {
            let mut once = WindowState { ex_style, at_bottom, ..some_window() };
            pin_round(&mut once, Platform::Windows, true);
            let mut twice = once;
            pin_round(&mut twice, Platform::Windows, true);
            assert_eq!(twice, once);
            assert!(once.is_pinned());
        }
    }
}

#[test]
fn restoring_changes_the_z_order_only() {
    let mut window = some_window();
    let outcome = restore_round(&mut window, Platform::Windows, true);
    assert!(outcome.actions.iter().all(|a| matches!(a, WindowAction::SetPos { .. })));
    assert_eq!(window.ex_style, some_window().ex_style);
    assert_eq!(window, WindowState { at_bottom: true, ..some_window() });
}

#[test]
fn restoring_twice_is_restoring_once() {
    let mut once = some_window();
    restore_round(&mut once, Platform::Windows, true);
    let mut twice = once;
    restore_round(&mut twice, Platform::Windows, true);
    assert_eq!(twice, once);
}

#[test]
fn restoring_brings_a_raised_pinned_window_back() {
    let mut window = some_window();
    pin_round(&mut window, Platform::Windows, true);
    let pinned = window;
    // the window system raises the window on a focus change
    window.perform(WindowAction::SetPos { insert_after: 0, x: 0, y: 0, cx: 0, cy: 0, flags: 0x13 });
    assert!(!window.is_pinned());
    restore_round(&mut window, Platform::Windows, true);
    assert_eq!(window, pinned);
}

#[test]
fn nothing_changes_without_the_capability() {
    let mut window = some_window();
    pin_round(&mut window, Platform::Other, true);
    assert_eq!(window, some_window());
    restore_round(&mut window, Platform::Other, true);
    assert_eq!(window, some_window());
    pin_round(&mut window, Platform::Other, false);
    restore_round(&mut window, Platform::Other, false);
    assert_eq!(window, some_window());
}

#[test]
fn nothing_changes_without_a_handle() {
    let mut window = some_window();
    pin_round(&mut window, Platform::Windows, false);
    assert_eq!(window, some_window());
    restore_round(&mut window, Platform::Windows, false);
    assert_eq!(window, some_window());
}

#[test]
fn platforms_and_their_capabilities() {
    assert!(Platform::Windows.supports_pinning());
    assert!(Platform::Windows.supports_translucency());
    assert!(!Platform::Other.supports_pinning());
    assert!(!Platform::Other.supports_translucency());
}
