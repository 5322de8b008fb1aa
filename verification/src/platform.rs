//! The platforms that the application runs on, by what they can do.
use vstd::prelude::*;

verus! {

/// The window system that the host runs on.
#[derive(Clone, Copy, Debug, PartialEq, Eq, Structural)]
pub enum Platform {
    /// Win32: window styles and the Z-order can be set by handle.
    Windows,
    /// Any other window system.
    Other,
}

impl Platform {
    /// Whether a window can be taken out of the taskbar and moved in the
    /// Z-order.
    pub open spec fn can_pin(self) -> bool {
        self is Windows
    }

    /// Whether a window can be given a translucent backdrop.
    pub open spec fn can_blur(self) -> bool {
        self is Windows
    }

    /// Tells whether pinning is available here.
    pub fn supports_pinning(self) -> (yes: bool)
        ensures
            yes == self.can_pin(),
    {
        match self {
            Platform::Windows => true,
            Platform::Other => false,
        }
    }

    /// Tells whether the translucent backdrop is available here.
    pub fn supports_translucency(self) -> (yes: bool)
        ensures
            yes == self.can_blur(),
    {
        match self {
            Platform::Windows => true,
            Platform::Other => false,
        }
    }
}

} // verus!
