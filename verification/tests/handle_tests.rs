use window_bridge::handle::{DisplayHandle, HandleDescriptor, SetupCall, WindowHandle};

#[test]
fn win32_pair_is_unchanged() {
    let window = WindowHandle::Win32 { hwnd: 0x1234, hinstance: 0x5678 };
    for display in [
        DisplayHandle::Other,
        DisplayHandle::Wayland { display: 9 },
        DisplayHandle::Xlib { display: 9 },
    ] {
        let desc = HandleDescriptor::resolve(window, display);
        assert_eq!(desc, HandleDescriptor::Win32 { hwnd: 0x1234, hinstance: 0x5678 });
        assert_eq!(
            desc.setup_call(800, 600),
            Some(SetupCall { primary: 0x1234, secondary: 0x5678, width: 800, height: 600 })
        );
    }
}

#[test]
fn appkit_delivers_view_then_window() {
    let window = WindowHandle::AppKit { ns_window: 11, ns_view: 22 };
    let desc = HandleDescriptor::resolve(window, DisplayHandle::Other);
    assert_eq!(desc, HandleDescriptor::AppKit { ns_view: 22, ns_window: 11 });
    assert_eq!(
        desc.setup_call(1, 2),
        Some(SetupCall { primary: 22, secondary: 11, width: 1, height: 2 })
    );
}

#[test]
fn wayland_needs_wayland_display() {
    let window = WindowHandle::Wayland { surface: 70 };
    let desc = HandleDescriptor::resolve(window, DisplayHandle::Wayland { display: 71 });
    assert_eq!(desc, HandleDescriptor::Wayland { surface: 70, display: 71 });
    assert_eq!(
        desc.setup_call(640, 480),
        Some(SetupCall { primary: 70, secondary: 71, width: 640, height: 480 })
    );
}

#[test]
fn wayland_with_other_display_gives_no_setup() {
    let window = WindowHandle::Wayland { surface: 70 };
    for display in [DisplayHandle::Xlib { display: 71 }, DisplayHandle::Other] {
        let desc = HandleDescriptor::resolve(window, display);
        assert_eq!(desc, HandleDescriptor::Unsupported);
        assert!(!desc.is_supported());
        assert_eq!(desc.setup_call(640, 480), None);
    }
}

#[test]
fn xlib_window_id_is_widened() {
    let window = WindowHandle::Xlib { window: 0x0460_0001 };
    let desc = HandleDescriptor::resolve(window, DisplayHandle::Xlib { display: 0xd15 });
    assert_eq!(desc, HandleDescriptor::Xlib { window: 0x0460_0001, display: 0xd15 });
    assert_eq!(
        desc.setup_call(300, 200),
        Some(SetupCall { primary: 0x0460_0001, secondary: 0xd15, width: 300, height: 200 })
    );
}

#[test]
fn xlib_with_other_display_gives_no_setup() {
    let window = WindowHandle::Xlib { window: 5 };
    for display in [DisplayHandle::Wayland { display: 71 }, DisplayHandle::Other] {
        let desc = HandleDescriptor::resolve(window, display);
        assert_eq!(desc, HandleDescriptor::Unsupported);
        assert_eq!(desc.setup_call(1, 1), None);
    }
}

#[test]
fn unknown_family_is_unsupported() {
    for display in [
        DisplayHandle::Other,
        DisplayHandle::Wayland { display: 1 },
        DisplayHandle::Xlib { display: 1 },
    ] {
        let desc = HandleDescriptor::resolve(WindowHandle::Other, display);
        assert_eq!(desc, HandleDescriptor::Unsupported);
        assert!(!desc.is_supported());
        assert_eq!(desc.setup_call(800, 600), None);
    }
}

#[test]
fn supported_families_are_supported() {
    assert!(HandleDescriptor::Win32 { hwnd: 0, hinstance: 0 }.is_supported());
    assert!(HandleDescriptor::AppKit { ns_view: 0, ns_window: 0 }.is_supported());
    assert!(HandleDescriptor::Wayland { surface: 0, display: 0 }.is_supported());
    assert!(HandleDescriptor::Xlib { window: 0, display: 0 }.is_supported());
}

#[test]
fn null_handles_are_delivered_as_they_are() {
    let desc = HandleDescriptor::resolve(
        WindowHandle::Win32 { hwnd: 0, hinstance: 0 },
        DisplayHandle::Other,
    );
    assert_eq!(
        desc.setup_call(0, 0),
        Some(SetupCall { primary: 0, secondary: 0, width: 0, height: 0 })
    );
}
