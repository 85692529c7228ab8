//! Native handles of a window and of its display, and the pair of handles
//! that the host's setup callback receives.

use vstd::prelude::*;

verus! {

/// What the windowing system reports as the window's native handle.
/// Pointers are held as integers of pointer width.
#[derive(Clone, Copy, Debug, PartialEq, Eq, Structural)]
pub enum WindowHandle {
    /// A Win32 window with the module instance that owns it.
    Win32 { hwnd: usize, hinstance: usize },
    /// An AppKit window with its content view.
    AppKit { ns_window: usize, ns_view: usize },
    /// A Wayland surface.
    Wayland { surface: usize },
    /// An X11 window, by its numeric identifier.
    Xlib { window: u64 },
    /// Any other family.
    Other,
}

/// What the windowing system reports as the display's native handle.
#[derive(Clone, Copy, Debug, PartialEq, Eq, Structural)]
pub enum DisplayHandle {
    /// A Wayland display connection.
    Wayland { display: usize },
    /// An Xlib display connection.
    Xlib { display: usize },
    /// Any other family.
    Other,
}

/// The handles of one window, by platform family. Each family carries the two
/// handles that a host needs to attach a rendering context.
#[derive(Clone, Copy, Debug, PartialEq, Eq, Structural)]
pub enum HandleDescriptor {
    /// Window handle and process instance handle.
    Win32 { hwnd: usize, hinstance: usize },
    /// Content view and the window that holds it.
    AppKit { ns_view: usize, ns_window: usize },
    /// Surface and display connection.
    Wayland { surface: usize, display: usize },
    /// Window identifier at handle width, and display connection.
    Xlib { window: usize, display: usize },
    /// No supported family, or window and display of different families.
    Unsupported,
}

/// The arguments of the one setup notification.
#[derive(Clone, Copy, Debug, PartialEq, Eq, Structural)]
pub struct SetupCall {
    pub primary: usize,
    pub secondary: usize,
    pub width: u32,
    pub height: u32,
}

/// The descriptor that a window handle and a display handle resolve to.
///
/// Win32 and AppKit are decided by the window handle alone. Wayland and Xlib
/// need a display handle of the same family. For AppKit the content view comes
/// first and the window second.
pub open spec fn resolved(window: WindowHandle, display: DisplayHandle) -> HandleDescriptor {
    match (window, display) {
        (WindowHandle::Win32 { hwnd, hinstance }, _) => HandleDescriptor::Win32 { hwnd, hinstance },
        (WindowHandle::AppKit { ns_window, ns_view }, _) => HandleDescriptor::AppKit {
            ns_view,
            ns_window,
        },
        (WindowHandle::Wayland { surface }, DisplayHandle::Wayland { display }) => {
            HandleDescriptor::Wayland { surface, display }
        },
        (WindowHandle::Xlib { window }, DisplayHandle::Xlib { display }) => HandleDescriptor::Xlib {
            window: window as usize,
            display,
        },
        _ => HandleDescriptor::Unsupported,
    }
}

impl HandleDescriptor {
    /// The primary and the secondary handle, in the order in which the host
    /// receives them; `None` where the family is unsupported.
    pub open spec fn pair(self) -> Option<(usize, usize)> {
        match self {
            HandleDescriptor::Win32 { hwnd, hinstance } => Some((hwnd, hinstance)),
            HandleDescriptor::AppKit { ns_view, ns_window } => Some((ns_view, ns_window)),
            HandleDescriptor::Wayland { surface, display } => Some((surface, display)),
            HandleDescriptor::Xlib { window, display } => Some((window, display)),
            HandleDescriptor::Unsupported => None,
        }
    }

    /// Resolves the handles of a window and of its display.
    pub fn resolve(window: WindowHandle, display: DisplayHandle) -> (desc: HandleDescriptor)
        ensures
            desc == resolved(window, display),
    {
        match window {
            WindowHandle::Win32 { hwnd, hinstance } => HandleDescriptor::Win32 { hwnd, hinstance },
            WindowHandle::AppKit { ns_window, ns_view } => HandleDescriptor::AppKit {
                ns_view,
                ns_window,
            },
            WindowHandle::Wayland { surface } => match display {
                DisplayHandle::Wayland { display } => HandleDescriptor::Wayland { surface, display },
                _ => HandleDescriptor::Unsupported,
            },
            WindowHandle::Xlib { window } => match display {
                DisplayHandle::Xlib { display } => HandleDescriptor::Xlib {
                    window: window as usize,
                    display,
                },
                _ => HandleDescriptor::Unsupported,
            },
            WindowHandle::Other => HandleDescriptor::Unsupported,
        }
    }

    /// True where the host is notified of this descriptor.
    pub fn is_supported(&self) -> (yes: bool)
        ensures
            yes == self.pair().is_some(),
    {
        match self {
            HandleDescriptor::Unsupported => false,
            _ => true,
        }
    }

    /// The setup notification for a window of the given physical size:
    /// the descriptor's pair with the size, or none for an unsupported family.
    pub fn setup_call(&self, width: u32, height: u32) -> (call: Option<SetupCall>)
        ensures
            call == setup_for(*self, width, height),
    {
        match *self {
            HandleDescriptor::Win32 { hwnd, hinstance } => Some(
                SetupCall { primary: hwnd, secondary: hinstance, width, height },
            ),
            HandleDescriptor::AppKit { ns_view, ns_window } => Some(
                SetupCall { primary: ns_view, secondary: ns_window, width, height },
            ),
            HandleDescriptor::Wayland { surface, display } => Some(
                SetupCall { primary: surface, secondary: display, width, height },
            ),
            HandleDescriptor::Xlib { window, display } => Some(
                SetupCall { primary: window, secondary: display, width, height },
            ),
            HandleDescriptor::Unsupported => None,
        }
    }
}

/// The setup notification that a descriptor and a size give rise to.
pub open spec fn setup_for(desc: HandleDescriptor, width: u32, height: u32) -> Option<SetupCall> {
    match desc.pair() {
        Some((primary, secondary)) => Some(SetupCall { primary, secondary, width, height }),
        None => None,
    }
}

/// A Win32 window handle resolves to its own two handles, unchanged, whatever
/// the display handle is.
pub proof fn lemma_win32_unchanged(hwnd: usize, hinstance: usize, display: DisplayHandle)
    ensures
        resolved(WindowHandle::Win32 { hwnd, hinstance }, display).pair() == Some(
            (hwnd, hinstance),
        ),
{
}

/// A Wayland or Xlib window handle whose display handle is of another family
/// gives no setup notification.
pub proof fn lemma_family_mismatch_is_silent(
    window: WindowHandle,
    display: DisplayHandle,
    width: u32,
    height: u32,
)
    requires
        (window is Wayland && !(display is Wayland)) || (window is Xlib && !(display is Xlib)),
    ensures
        resolved(window, display) == HandleDescriptor::Unsupported,
        setup_for(resolved(window, display), width, height).is_none(),
{
}

/// At most one setup notification exists for a window, and it exists exactly
/// where the families are supported and agree.
pub proof fn lemma_setup_iff_supported(
    window: WindowHandle,
    display: DisplayHandle,
    width: u32,
    height: u32,
)
    ensures
        setup_for(resolved(window, display), width, height).is_some() <==> (window is Win32
            || window is AppKit || (window is Wayland && display is Wayland) || (window is Xlib
            && display is Xlib)),
        setup_for(resolved(window, display), width, height) matches Some(call) ==> call.width
            == width && call.height == height,
{
}

} // verus!
