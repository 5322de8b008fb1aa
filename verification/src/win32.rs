//! The values of the Win32 window API that pinning works with.
//!
//! The constants give each value as the Win32 headers define it; contracts and
//! the window model are written over them. What goes into a request to the
//! window system is taken from the `windows` bindings, through the private
//! functions at the end of this file, each of which is trusted to return the
//! value that its contract gives.
use vstd::prelude::*;

verus! {

/// Extended style bit `WS_EX_TOOLWINDOW`: the window has no taskbar button and
/// is not offered by the window switcher.
pub const EX_TOOLWINDOW: i32 = 0x0000_0080;

/// Extended style bit `WS_EX_NOACTIVATE`: the window does not become the
/// foreground window when it is shown or clicked.
pub const EX_NOACTIVATE: i32 = 0x0800_0000;

/// Both bits of a pinned window.
pub const EX_PINNED: i32 = 0x0800_0080;

/// `GWL_EXSTYLE`, the index under which a window keeps its extended style.
pub const INDEX_EXSTYLE: i32 = -20;

/// `HWND_BOTTOM`, the anchor that stands for the bottom of the Z-order.
pub const ANCHOR_BOTTOM: isize = 1;

/// `SWP_NOSIZE`: a positioning request leaves the size as it is.
pub const POS_NOSIZE: u32 = 0x0001;

/// `SWP_NOMOVE`: a positioning request leaves the position as it is.
pub const POS_NOMOVE: u32 = 0x0002;

/// `SWP_NOZORDER`: a positioning request leaves the Z-order as it is.
pub const POS_NOZORDER: u32 = 0x0004;

/// `SWP_NOACTIVATE`: a positioning request does not activate the window.
pub const POS_NOACTIVATE: u32 = 0x0010;

/// The flags of a request that changes the Z-order and nothing else.
pub const POS_ORDER_ONLY: u32 = 0x0013;

/// An extended style with the two bits of a pinned window set.
pub open spec fn with_pin_bits(ex_style: i32) -> i32 {
    ex_style | EX_TOOLWINDOW | EX_NOACTIVATE
}

/// Whether `ex_style` keeps its window out of the taskbar.
pub open spec fn excludes_from_taskbar(ex_style: i32) -> bool {
    ex_style & EX_TOOLWINDOW == EX_TOOLWINDOW
}

/// Whether `ex_style` keeps its window from being activated.
pub open spec fn refuses_activation(ex_style: i32) -> bool {
    ex_style & EX_NOACTIVATE == EX_NOACTIVATE
}

/// Setting the pin bits sets both of them.
pub proof fn lemma_pin_bits_are_set(ex_style: i32)
    ensures
        excludes_from_taskbar(with_pin_bits(ex_style)),
        refuses_activation(with_pin_bits(ex_style)),
{
    assert((ex_style | 0x80i32 | 0x0800_0000i32) & 0x80i32 == 0x80i32) by (bit_vector);
    assert((ex_style | 0x80i32 | 0x0800_0000i32) & 0x0800_0000i32 == 0x0800_0000i32)
        by (bit_vector);
}

/// Setting the pin bits leaves every other bit of the style as it was.
pub proof fn lemma_pin_bits_keep_the_rest(ex_style: i32)
    ensures
        with_pin_bits(ex_style) & !EX_PINNED == ex_style & !EX_PINNED,
        with_pin_bits(ex_style) == ex_style | EX_PINNED,
{
    assert((ex_style | 0x80i32 | 0x0800_0000i32) & !0x0800_0080i32 == ex_style & !0x0800_0080i32)
        by (bit_vector);
    assert(ex_style | 0x80i32 | 0x0800_0000i32 == ex_style | 0x0800_0080i32) by (bit_vector);
}

/// Setting the pin bits a second time changes nothing.
pub proof fn lemma_pin_bits_idempotent(ex_style: i32)
    ensures
        with_pin_bits(with_pin_bits(ex_style)) == with_pin_bits(ex_style),
{
    assert((ex_style | 0x80i32 | 0x0800_0000i32) | 0x80i32 | 0x0800_0000i32 == ex_style | 0x80i32
        | 0x0800_0000i32) by (bit_vector);
}

/// A style that has both pin bits is left as it is by setting them.
pub proof fn lemma_pin_bits_fixed_point(ex_style: i32)
    requires
        excludes_from_taskbar(ex_style),
        refuses_activation(ex_style),
    ensures
        with_pin_bits(ex_style) == ex_style,
{
    assert(ex_style & 0x80i32 == 0x80i32 && ex_style & 0x0800_0000i32 == 0x0800_0000i32 ==> (
    ex_style | 0x80i32 | 0x0800_0000i32) == ex_style) by (bit_vector);
}

/// The index under which the extended style is read and written.
pub fn ex_style_index() -> (index: i32)
    ensures
        index == INDEX_EXSTYLE,
{
    gwl_exstyle()
}

/// The extended style that a window with style `ex_style` has once it is
/// pinned.
pub fn pinned_ex_style(ex_style: i32) -> (pinned: i32)
    ensures
        pinned == with_pin_bits(ex_style),
{
    let tool: i32 = ws_ex_toolwindow() as i32;
    let quiet: i32 = ws_ex_noactivate() as i32;
    ex_style | tool | quiet
}

/// The anchor that a window is placed behind to reach the bottom of the
/// Z-order.
pub fn bottom_anchor() -> (anchor: isize)
    ensures
        anchor == ANCHOR_BOTTOM,
{
    hwnd_bottom()
}

/// The flags of a positioning request that moves a window in the Z-order and
/// neither moves, resizes nor activates it.
pub fn order_only_flags() -> (flags: u32)
    ensures
        flags == POS_ORDER_ONLY,
        flags == POS_NOMOVE | POS_NOSIZE | POS_NOACTIVATE,
{
    let flags: u32 = swp_nomove() | swp_nosize() | swp_noactivate();
    assert(2u32 | 1u32 | 16u32 == 0x13u32) by (bit_vector);
    flags
}

/// Reads `windows::Win32::UI::WindowsAndMessaging::WS_EX_TOOLWINDOW`.
/// Trusted: the bindings define it as `WINDOW_EX_STYLE(128)`.
#[verifier::external_body]
fn ws_ex_toolwindow() -> (bits: u32)
    ensures
        bits == 0x0000_0080u32,
{
    windows::Win32::UI::WindowsAndMessaging::WS_EX_TOOLWINDOW.0
}

/// Reads `windows::Win32::UI::WindowsAndMessaging::WS_EX_NOACTIVATE`.
/// Trusted: the bindings define it as `WINDOW_EX_STYLE(134217728)`, which is
/// bit 27.
#[verifier::external_body]
fn ws_ex_noactivate() -> (bits: u32)
    ensures
        bits == 0x0800_0000u32,
{
    windows::Win32::UI::WindowsAndMessaging::WS_EX_NOACTIVATE.0
}

/// Reads `windows::Win32::UI::WindowsAndMessaging::GWL_EXSTYLE`.
/// Trusted: the bindings define it as `WINDOW_LONG_PTR_INDEX(-20)`.
#[verifier::external_body]
fn gwl_exstyle() -> (index: i32)
    ensures
        index == -20,
{
    windows::Win32::UI::WindowsAndMessaging::GWL_EXSTYLE.0
}

/// Reads `windows::Win32::UI::WindowsAndMessaging::HWND_BOTTOM`.
/// Trusted: the bindings define it as the handle `HWND(1)`.
#[verifier::external_body]
fn hwnd_bottom() -> (anchor: isize)
    ensures
        anchor == 1,
{
    windows::Win32::UI::WindowsAndMessaging::HWND_BOTTOM.0
}

/// Reads `windows::Win32::UI::WindowsAndMessaging::SWP_NOSIZE`.
/// Trusted: the bindings define it as `SET_WINDOW_POS_FLAGS(1)`.
#[verifier::external_body]
fn swp_nosize() -> (bits: u32)
    ensures
        bits == 1,
{
    windows::Win32::UI::WindowsAndMessaging::SWP_NOSIZE.0
}

/// Reads `windows::Win32::UI::WindowsAndMessaging::SWP_NOMOVE`.
/// Trusted: the bindings define it as `SET_WINDOW_POS_FLAGS(2)`.
#[verifier::external_body]
fn swp_nomove() -> (bits: u32)
    ensures
        bits == 2,
{
    windows::Win32::UI::WindowsAndMessaging::SWP_NOMOVE.0
}

/// Reads `windows::Win32::UI::WindowsAndMessaging::SWP_NOACTIVATE`.
/// Trusted: the bindings define it as `SET_WINDOW_POS_FLAGS(16)`.
#[verifier::external_body]
fn swp_noactivate() -> (bits: u32)
    ensures
        bits == 16,
{
    windows::Win32::UI::WindowsAndMessaging::SWP_NOACTIVATE.0
}

} // verus!
