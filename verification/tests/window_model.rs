use desknote::window::{WindowAction, WindowState};

fn start() -> WindowState {
    WindowState { ex_style: 0x100, at_bottom: false, x: 1, y: 2, width: 3, height: 4, active: false }
}

#[test]
fn set_long_under_the_ex_style_index_replaces_the_style() {
    let mut w = start();
    w.perform(WindowAction::SetLong { index: -20, value: 0x80 });
    assert_eq!(w, WindowState { ex_style: 0x80, ..start() });
}

#[test]
fn set_long_under_another_index_leaves_the_model() {
    let mut w = start();
    w.perform(WindowAction::SetLong { index: -16, value: 0x80 });
    assert_eq!(w, start());
}

#[test]
fn set_pos_without_flags_moves_resizes_reorders_and_activates() {
    let mut w = start();
    w.perform(WindowAction::SetPos { insert_after: 1, x: 10, y: 20, cx: 30, cy: 40, flags: 0 });
    assert_eq!(
        w,
        WindowState {
            ex_style: 0x100,
            at_bottom: true,
            x: 10,
            y: 20,
            width: 30,
            height: 40,
            active: true
        }
    );
}

#[test]
fn set_pos_flags_keep_what_they_name() {
    let mut w = start();
    w.perform(WindowAction::SetPos { insert_after: 1, x: 10, y: 20, cx: 30, cy: 40, flags: 0x2 });
    assert_eq!((w.x, w.y, w.width, w.height), (1, 2, 30, 40));
    let mut w = start();
    w.perform(WindowAction::SetPos { insert_after: 1, x: 10, y: 20, cx: 30, cy: 40, flags: 0x1 });
    assert_eq!((w.x, w.y, w.width, w.height), (10, 20, 3, 4));
    let mut w = start();
    w.perform(WindowAction::SetPos { insert_after: 1, x: 10, y: 20, cx: 30, cy: 40, flags: 0x4 });
    assert!(!w.at_bottom);
    let mut w = start();
    w.perform(WindowAction::SetPos { insert_after: 1, x: 10, y: 20, cx: 30, cy: 40, flags: 0x10 });
    assert!(!w.active);
    assert!(w.at_bottom);
}

#[test]
fn set_pos_behind_another_anchor_leaves_the_bottom() {
    let mut w = WindowState { at_bottom: true, ..start() };
    w.perform(WindowAction::SetPos { insert_after: 0, x: 0, y: 0, cx: 0, cy: 0, flags: 0x13 });
    assert_eq!(w, start());
}

#[test]
fn perform_all_goes_first_to_last() {
    let mut w = start();
    w.perform_all(&vec![
        WindowAction::SetLong { index: -20, value: 1 },
        WindowAction::SetLong { index: -20, value: 2 },
        WindowAction::SetPos { insert_after: 1, x: 0, y: 0, cx: 0, cy: 0, flags: 0x13 },
        WindowAction::SetPos { insert_after: -1, x: 0, y: 0, cx: 0, cy: 0, flags: 0x13 },
    ]);
    assert_eq!(w, WindowState { ex_style: 2, ..start() });
    let mut w = start();
    w.perform_all(&vec![]);
    assert_eq!(w, start());
}

#[test]
fn pinned_needs_both_bits_and_the_bottom() {
    let pinned = WindowState { ex_style: 0x0800_0080, at_bottom: true, ..start() };
    assert!(pinned.is_pinned());
    assert!(!WindowState { at_bottom: false, ..pinned }.is_pinned());
    assert!(!WindowState { ex_style: 0x80, ..pinned }.is_pinned());
    assert!(!WindowState { ex_style: 0x0800_0000, ..pinned }.is_pinned());
    assert!(WindowState { ex_style: 0x80, ..pinned }.is_taskbar_excluded());
    assert!(WindowState { ex_style: 0x0800_0000, ..pinned }.is_non_activating());
}
