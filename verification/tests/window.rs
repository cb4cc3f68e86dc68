//! The window identifier resolver and the invocation builder.

use libportal::proxy::{prepare, CapabilityCall};
use libportal::screenshot::ScreenshotOptions;
use libportal::value::Value;
use libportal::wallpaper::{SetOn, WallpaperOptions, WallpaperOptionsBuilder};
use libportal::window::{resolve, SurfaceInfo, WindowIdentifier};

#[test]
fn unavailable_surface_resolves_to_the_empty_identifier() {
    let w = resolve(&SurfaceInfo::Unavailable);
    assert_eq!(w.as_str(), "");
    assert_eq!(w, WindowIdentifier::default());
}

#[test]
fn x11_surfaces_render_their_window_id_in_hexadecimal() {
    assert_eq!(resolve(&SurfaceInfo::X11 { xid: 0 }).as_str(), "x11:0x0");
    assert_eq!(resolve(&SurfaceInfo::X11 { xid: 0x1234 }).as_str(), "x11:0x1234");
    assert_eq!(resolve(&SurfaceInfo::X11 { xid: 0xdeadbeef }).as_str(), "x11:0xdeadbeef");
    assert_eq!(resolve(&SurfaceInfo::X11 { xid: 10 }).as_str(), "x11:0xa");
    assert_eq!(
        resolve(&SurfaceInfo::X11 { xid: u64::MAX }).as_str(),
        "x11:0xffffffffffffffff"
    );
}

#[test]
fn wayland_surfaces_carry_their_exported_handle() {
    let w = resolve(&SurfaceInfo::Wayland { handle: "ab-12".to_string() });
    assert_eq!(w.as_str(), "wayland:ab-12");
}

#[test]
fn resolution_is_deterministic_in_the_surface_state() {
    let a = resolve(&SurfaceInfo::X11 { xid: 99 });
    let b = resolve(&SurfaceInfo::X11 { xid: 99 });
    assert_eq!(a, b);
}

#[test]
fn prepare_builds_the_wallpaper_invocation() {
    let call = CapabilityCall::SetWallpaperUri {
        uri: "file:///home/user/pictures/night.jpg".to_string(),
        options: WallpaperOptionsBuilder::default()
            .show_preview(true)
            .set_on(SetOn::Both)
            .build(),
    };
    let window = resolve(&SurfaceInfo::X11 { xid: 0x42 });
    let invocation = prepare(&call, &window);

    assert_eq!(invocation.interface, "org.freedesktop.portal.Wallpaper");
    assert_eq!(invocation.method, "SetWallpaperURI");
    assert_eq!(invocation.parent_window.as_str(), "x11:0x42");
    assert_eq!(invocation.uri, Some("file:///home/user/pictures/night.jpg".to_string()));
    assert_eq!(invocation.fd, None);
    assert_eq!(invocation.options.get("show-preview"), Some(&Value::Bool(true)));
    assert_eq!(invocation.options.get("set-on"), Some(&Value::Str("both".to_string())));
    let decoded = WallpaperOptions::decode(&invocation.options).unwrap();
    assert_eq!(decoded, WallpaperOptions { show_preview: Some(true), set_on: Some(SetOn::Both) });
}

#[test]
fn prepare_builds_the_camera_invocations() {
    let window = resolve(&SurfaceInfo::Unavailable);
    let access = prepare(&CapabilityCall::AccessCamera, &window);
    assert_eq!(access.interface, "org.freedesktop.portal.Camera");
    assert_eq!(access.method, "AccessCamera");
    assert_eq!(access.parent_window.as_str(), "");
    assert_eq!(access.options.len(), 0);

    let open = prepare(&CapabilityCall::OpenPipeWireRemote, &window);
    assert_eq!(open.method, "OpenPipeWireRemote");
    assert_eq!(open.uri, None);
    assert_eq!(open.fd, None);
}

#[test]
fn prepare_builds_the_screenshot_invocations() {
    let window = resolve(&SurfaceInfo::Wayland { handle: "h1".to_string() });
    let shot = prepare(
        &CapabilityCall::TakeScreenshot {
            options: ScreenshotOptions { interactive: true, modal: false },
        },
        &window,
    );
    assert_eq!(shot.interface, "org.freedesktop.portal.Screenshot");
    assert_eq!(shot.method, "Screenshot");
    assert_eq!(shot.options.get("interactive"), Some(&Value::Bool(true)));
    assert_eq!(shot.options.get("modal"), Some(&Value::Bool(false)));

    let pick = prepare(&CapabilityCall::PickColor, &window);
    assert_eq!(pick.method, "PickColor");
    assert_eq!(pick.options.len(), 0);
}
