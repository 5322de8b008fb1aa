//! Pinning the main window to the desktop, and keeping it there.
//!
//! A pinned window has no taskbar button, cannot be activated and lies at the
//! bottom of the Z-order. The first two are bits of its extended style and
//! stay once set. The place in the Z-order does not stay: the window system
//! raises a window on focus changes, so the host asks for it again whenever
//! the window loses focus.
//!
//! Neither operation can fail. Where the platform cannot pin, or the window's
//! native handle could not be had, the outcome holds no request and says why.
use crate::platform::Platform;
use crate::win32::{
    bottom_anchor, ex_style_index, lemma_pin_bits_are_set, lemma_pin_bits_fixed_point,
    lemma_pin_bits_idempotent, lemma_pin_bits_keep_the_rest, order_only_flags, pinned_ex_style,
    with_pin_bits, ANCHOR_BOTTOM, EX_PINNED, INDEX_EXSTYLE, POS_ORDER_ONLY,
};
use crate::window::{WindowAction, WindowState};
use vstd::prelude::*;

verus! {

/// Why an operation asked nothing of the window system.
#[derive(Clone, Copy, Debug, PartialEq, Eq, Structural)]
pub enum Skip {
    /// The platform has no way to set window styles or the Z-order.
    CapabilityUnavailable,
    /// The window's native handle could not be obtained.
    HandleUnavailable,
}

/// What an operation asks of the window system.
#[derive(Debug, PartialEq, Eq)]
pub struct Outcome {
    /// The requests to carry out on the window, in order.
    pub actions: Vec<WindowAction>,
    /// Set where the operation did nothing, with the reason.
    pub skipped: Option<Skip>,
}

/// The request that moves a window to the bottom of the Z-order and leaves
/// its frame and its activation alone.
pub open spec fn bottom_request() -> WindowAction {
    WindowAction::SetPos {
        insert_after: ANCHOR_BOTTOM,
        x: 0,
        y: 0,
        cx: 0,
        cy: 0,
        flags: POS_ORDER_ONLY,
    }
}

/// The request that stores the extended style `ex_style` with the pin bits
/// added.
pub open spec fn style_request(ex_style: i32) -> WindowAction {
    WindowAction::SetLong { index: INDEX_EXSTYLE, value: with_pin_bits(ex_style) }
}

/// The requests that pin a window whose extended style is `ex_style`.
pub open spec fn pin_requests(ex_style: i32) -> Seq<WindowAction> {
    seq![style_request(ex_style), bottom_request()]
}

/// The reason for which an operation does nothing, if there is one:
/// the platform is asked first, then the handle.
pub open spec fn skip_reason(platform: Platform, handle_available: bool) -> Option<Skip> {
    if !platform.can_pin() {
        Some(Skip::CapabilityUnavailable)
    } else if !handle_available {
        Some(Skip::HandleUnavailable)
    } else {
        None
    }
}

/// What `pin_to_desktop` asks for. `ex_style` is the extended style read
/// through the window's handle, `None` where there was no handle.
pub open spec fn pin_plan(platform: Platform, ex_style: Option<i32>) -> Seq<WindowAction> {
    match ex_style {
        Some(bits) if platform.can_pin() => pin_requests(bits),
        _ => Seq::empty(),
    }
}

/// What `restore_pin_on_focus_loss` asks for.
pub open spec fn restore_plan(platform: Platform, handle_available: bool) -> Seq<WindowAction> {
    if platform.can_pin() && handle_available {
        seq![bottom_request()]
    } else {
        Seq::empty()
    }
}

/// What the host reads of `window` before it pins it: the extended style
/// where the handle is to be had, nothing where it is not.
pub open spec fn style_read(window: WindowState, handle_available: bool) -> Option<i32> {
    if handle_available {
        Some(window.ex_style)
    } else {
        None
    }
}

/// `window` after one round of `pin_to_desktop`.
pub open spec fn after_pin(
    window: WindowState,
    platform: Platform,
    handle_available: bool,
) -> WindowState {
    window.after_all(pin_plan(platform, style_read(window, handle_available)))
}

/// `window` after one round of `restore_pin_on_focus_loss`.
pub open spec fn after_restore(
    window: WindowState,
    platform: Platform,
    handle_available: bool,
) -> WindowState {
    window.after_all(restore_plan(platform, handle_available))
}

/// Builds the request that moves the window to the bottom of the Z-order
/// without moving, resizing or activating it.
pub fn sink_to_bottom() -> (request: WindowAction)
    ensures
        request == bottom_request(),
{
    WindowAction::SetPos {
        insert_after: bottom_anchor(),
        x: 0,
        y: 0,
        cx: 0,
        cy: 0,
        flags: order_only_flags(),
    }
}

/// Pins a window whose native handle is at hand and whose extended style is
/// `ex_style`: first the style with the two pin bits added is written back,
/// then the window is moved to the bottom of the Z-order.
pub fn send_to_desktop(ex_style: i32) -> (requests: Vec<WindowAction>)
    ensures
        requests@ == pin_requests(ex_style),
{
    let mut requests: Vec<WindowAction> = Vec::new();
    requests.push(WindowAction::SetLong { index: ex_style_index(), value: pinned_ex_style(ex_style) });
    requests.push(sink_to_bottom());
    assert(requests@ =~= pin_requests(ex_style));
    requests
}

/// Makes the main window a part of the desktop.
///
/// `ex_style` is the window's extended style as the host has just read it
/// through the native handle, or `None` where the handle could not be
/// obtained. On a platform that cannot pin, and without a handle, nothing is
/// asked for and the outcome names the reason.
pub fn pin_to_desktop(platform: Platform, ex_style: Option<i32>) -> (outcome: Outcome)
    ensures
        outcome.actions@ == pin_plan(platform, ex_style),
        outcome.skipped == skip_reason(platform, ex_style is Some),
        !platform.can_pin() ==> outcome.actions@.len() == 0,
{
    if !platform.supports_pinning() {
        return Outcome { actions: Vec::new(), skipped: Some(Skip::CapabilityUnavailable) };
    }
    match ex_style {
        Some(bits) => Outcome { actions: send_to_desktop(bits), skipped: None },
        None => Outcome { actions: Vec::new(), skipped: Some(Skip::HandleUnavailable) },
    }
}

/// Puts the main window back at the bottom of the Z-order after it has lost
/// input focus. The extended style is not touched.
///
/// `handle_available` says whether the host could obtain the window's native
/// handle.
pub fn restore_pin_on_focus_loss(platform: Platform, handle_available: bool) -> (outcome: Outcome)
    ensures
        outcome.actions@ == restore_plan(platform, handle_available),
        outcome.skipped == skip_reason(platform, handle_available),
        !platform.can_pin() ==> outcome.actions@.len() == 0,
        forall|i: int| 0 <= i < outcome.actions@.len() ==> outcome.actions@[i] is SetPos,
{
    if !platform.supports_pinning() {
        return Outcome { actions: Vec::new(), skipped: Some(Skip::CapabilityUnavailable) };
    }
    if !handle_available {
        return Outcome { actions: Vec::new(), skipped: Some(Skip::HandleUnavailable) };
    }
    let mut actions: Vec<WindowAction> = Vec::new();
    actions.push(sink_to_bottom());
    assert(actions@ =~= seq![bottom_request()]);
    Outcome { actions, skipped: None }
}

/// The bottom request changes the place in the Z-order and nothing else.
pub proof fn lemma_bottom_request(window: WindowState)
    ensures
        window.after(bottom_request()) == (WindowState { at_bottom: true, ..window }),
{
    assert(0x13u32 & 0x4u32 == 0) by (bit_vector);
    assert(0x13u32 & 0x2u32 != 0) by (bit_vector);
    assert(0x13u32 & 0x1u32 != 0) by (bit_vector);
    assert(0x13u32 & 0x10u32 != 0) by (bit_vector);
}

/// Where pinning is possible, the pinned window has its former style with
/// the pin bits added, lies at the bottom, and is otherwise as before.
pub proof fn lemma_after_pin(window: WindowState, platform: Platform, handle_available: bool)
    ensures
        platform.can_pin() && handle_available ==> after_pin(window, platform, handle_available)
            == (WindowState {
            ex_style: with_pin_bits(window.ex_style),
            at_bottom: true,
            ..window
        }),
        !(platform.can_pin() && handle_available) ==> after_pin(window, platform, handle_available)
            == window,
{
    if platform.can_pin() && handle_available {
        window.lemma_after_two(style_request(window.ex_style), bottom_request());
        lemma_bottom_request(window.after(style_request(window.ex_style)));
    } else {
        window.lemma_after_none();
    }
}

/// Where restoring is possible, the window lies at the bottom and is
/// otherwise as before.
pub proof fn lemma_after_restore(window: WindowState, platform: Platform, handle_available: bool)
    ensures
        platform.can_pin() && handle_available ==> after_restore(
            window,
            platform,
            handle_available,
        ) == (WindowState { at_bottom: true, ..window }),
        !(platform.can_pin() && handle_available) ==> after_restore(
            window,
            platform,
            handle_available,
        ) == window,
{
    if platform.can_pin() && handle_available {
        window.lemma_after_one(bottom_request());
        lemma_bottom_request(window);
    } else {
        window.lemma_after_none();
    }
}

/// Pinning a window that can be pinned makes it one: taskbar-excluded,
/// non-activating and at the bottom of the stack, whatever it was before.
pub proof fn law_pin_pins(window: WindowState, platform: Platform)
    requires
        platform.can_pin(),
    ensures
        after_pin(window, platform, true).pinned(),
{
    lemma_after_pin(window, platform, true);
    lemma_pin_bits_are_set(window.ex_style);
}

/// Pinning twice in a row leaves the window exactly as pinning once does, on
/// every platform and with or without a handle.
pub proof fn law_pin_is_idempotent(window: WindowState, platform: Platform, handle_available: bool)
    ensures
        after_pin(after_pin(window, platform, handle_available), platform, handle_available)
            == after_pin(window, platform, handle_available),
{
    let once = after_pin(window, platform, handle_available);
    lemma_after_pin(window, platform, handle_available);
    lemma_after_pin(once, platform, handle_available);
    lemma_pin_bits_idempotent(window.ex_style);
}

/// Pinning a window that is pinned already leaves it exactly as it is.
pub proof fn law_pin_keeps_pinned(window: WindowState, platform: Platform, handle_available: bool)
    requires
        window.pinned(),
    ensures
        after_pin(window, platform, handle_available) == window,
{
    lemma_after_pin(window, platform, handle_available);
    lemma_pin_bits_fixed_point(window.ex_style);
}

/// Pinning changes no bit of the extended style but the two pin bits, and
/// neither the frame nor the activation of the window.
pub proof fn law_pin_keeps_the_rest(window: WindowState, platform: Platform, handle_available: bool)
    ensures
        after_pin(window, platform, handle_available).ex_style & !EX_PINNED == window.ex_style
            & !EX_PINNED,
        after_pin(window, platform, handle_available) == (WindowState {
            ex_style: after_pin(window, platform, handle_available).ex_style,
            at_bottom: after_pin(window, platform, handle_available).at_bottom,
            ..window
        }),
{
    lemma_after_pin(window, platform, handle_available);
    lemma_pin_bits_keep_the_rest(window.ex_style);
}

/// Restoring twice in a row leaves the window exactly as restoring once
/// does.
pub proof fn law_restore_is_idempotent(
    window: WindowState,
    platform: Platform,
    handle_available: bool,
)
    ensures
        after_restore(
            after_restore(window, platform, handle_available),
            platform,
            handle_available,
        ) == after_restore(window, platform, handle_available),
{
    let once = after_restore(window, platform, handle_available);
    lemma_after_restore(window, platform, handle_available);
    lemma_after_restore(once, platform, handle_available);
}

/// Restoring never changes the extended style, nor the frame or the
/// activation: the place in the Z-order is all that it can change.
pub proof fn law_restore_keeps_style(
    window: WindowState,
    platform: Platform,
    handle_available: bool,
)
    ensures
        after_restore(window, platform, handle_available).ex_style == window.ex_style,
        after_restore(window, platform, handle_available) == (WindowState {
            at_bottom: after_restore(window, platform, handle_available).at_bottom,
            ..window
        }),
{
    lemma_after_restore(window, platform, handle_available);
}

/// Restoring a pinned window leaves it pinned.
pub proof fn law_restore_keeps_pinned(
    window: WindowState,
    platform: Platform,
    handle_available: bool,
)
    requires
        window.pinned(),
    ensures
        after_restore(window, platform, handle_available) == window,
{
    lemma_after_restore(window, platform, handle_available);
}

/// On a platform that cannot pin, both operations leave the window as it
/// is.
pub proof fn law_no_capability_no_change(
    window: WindowState,
    platform: Platform,
    handle_available: bool,
)
    requires
        !platform.can_pin(),
    ensures
        after_pin(window, platform, handle_available) == window,
        after_restore(window, platform, handle_available) == window,
{
    lemma_after_pin(window, platform, handle_available);
    lemma_after_restore(window, platform, handle_available);
}

/// Without a native handle, both operations leave the window as it is.
pub proof fn law_no_handle_no_change(window: WindowState, platform: Platform)
    ensures
        after_pin(window, platform, false) == window,
        after_restore(window, platform, false) == window,
{
    lemma_after_pin(window, platform, false);
    lemma_after_restore(window, platform, false);
}

} // verus!
