//! The capability proxy: one remote object per capability on the broker.
//! Its verified half builds the exact invocation — interface, method,
//! window identifier, target and encoded options — and turns the broker's
//! immediate acknowledgment into a subscribed request correlator. The
//! caller performs the actual round trip on its transport and hands the
//! acknowledgment back; a transport failure here means no request is in
//! flight, which is distinct from a cancelled or failed outcome.

use vstd::prelude::*;

use crate::errors::TransportError;
use crate::request::{RequestCorrelator, RequestHandle};
use crate::screenshot::{encode_screenshot_view, ScreenshotOptions};
use crate::value::{ValueView, VariantMap};
use crate::wallpaper::{encode_wallpaper_view, WallpaperOptions};
use crate::window::WindowIdentifier;

verus! {

/// The closed set of capabilities the broker exposes here.
#[derive(Debug, Clone, Copy, PartialEq, Eq, Structural)]
pub enum Capability {
    Camera,
    Screenshot,
    Wallpaper,
}

impl Capability {
    /// The name of the capability's remote interface on the broker.
    pub open spec fn interface_name(self) -> Seq<char> {
        match self {
            Capability::Camera => "org.freedesktop.portal.Camera"@,
            Capability::Screenshot => "org.freedesktop.portal.Screenshot"@,
            Capability::Wallpaper => "org.freedesktop.portal.Wallpaper"@,
        }
    }
}

/// One capability method call, with everything the caller chose.
#[derive(Debug)]
pub enum CapabilityCall {
    /// Asks whether the camera may be used; the outcome carries "granted".
    AccessCamera,
    /// Opens the live camera stream; a successful outcome hands over the
    /// stream resource out of band.
    OpenPipeWireRemote,
    /// Takes a screenshot; a successful outcome carries the shot's URI.
    TakeScreenshot { options: ScreenshotOptions },
    /// Asks the user to pick a color from the screen.
    PickColor,
    /// Sets the wallpaper from a URI.
    SetWallpaperUri { uri: String, options: WallpaperOptions },
    /// Sets the wallpaper from an open file descriptor, passed out of
    /// band by the transport.
    SetWallpaperFile { fd: i32, options: WallpaperOptions },
}

impl CapabilityCall {
    /// Which capability the call belongs to.
    pub open spec fn capability(self) -> Capability {
        match self {
            CapabilityCall::AccessCamera => Capability::Camera,
            CapabilityCall::OpenPipeWireRemote => Capability::Camera,
            CapabilityCall::TakeScreenshot { .. } => Capability::Screenshot,
            CapabilityCall::PickColor => Capability::Screenshot,
            CapabilityCall::SetWallpaperUri { .. } => Capability::Wallpaper,
            CapabilityCall::SetWallpaperFile { .. } => Capability::Wallpaper,
        }
    }

    /// The remote method name the call invokes.
    pub open spec fn method_name(self) -> Seq<char> {
        match self {
            CapabilityCall::AccessCamera => "AccessCamera"@,
            CapabilityCall::OpenPipeWireRemote => "OpenPipeWireRemote"@,
            CapabilityCall::TakeScreenshot { .. } => "Screenshot"@,
            CapabilityCall::PickColor => "PickColor"@,
            CapabilityCall::SetWallpaperUri { .. } => "SetWallpaperURI"@,
            CapabilityCall::SetWallpaperFile { .. } => "SetWallpaperFile"@,
        }
    }

    /// The encoded option mapping the call sends; a call without options
    /// sends the empty mapping.
    pub open spec fn options_view(self) -> Seq<(Seq<char>, ValueView)> {
        match self {
            CapabilityCall::TakeScreenshot { options } => encode_screenshot_view(options),
            CapabilityCall::SetWallpaperUri { options, .. } => encode_wallpaper_view(options),
            CapabilityCall::SetWallpaperFile { options, .. } => encode_wallpaper_view(options),
            _ => Seq::empty(),
        }
    }
}

/// One ready-to-send method invocation: what the transport must put on
/// the wire, with nothing decided on its side.
#[derive(Debug)]
pub struct Invocation {
    /// The remote interface the method lives on.
    pub interface: String,
    /// The remote method name.
    pub method: String,
    /// The identifier of the calling surface; empty means no hint.
    pub parent_window: WindowIdentifier,
    /// The wallpaper URI, for the one call that sends one.
    pub uri: Option<String>,
    /// The out-of-band file descriptor, for the one call that sends one.
    pub fd: Option<i32>,
    /// The encoded option mapping.
    pub options: VariantMap,
}

/// Builds the exact invocation for one capability call.
pub fn prepare(call: &CapabilityCall, parent_window: &WindowIdentifier) -> (inv: Invocation)
    ensures
        inv.interface@ == call.capability().interface_name(),
        inv.method@ == call.method_name(),
        inv.parent_window@ == parent_window@,
        inv.options@ == call.options_view(),
        (call matches CapabilityCall::SetWallpaperUri { uri, .. } ==> (inv.uri matches Some(u)
            && u@ == uri@)),
        !(call matches CapabilityCall::SetWallpaperUri { .. }) ==> inv.uri is None,
        (call matches CapabilityCall::SetWallpaperFile { fd, .. } ==> inv.fd == Some(*fd)),
        !(call matches CapabilityCall::SetWallpaperFile { .. }) ==> inv.fd is None,
{
    let interface = call.capability_name_owned();
    let method = call.method_name_owned();
    let options = match call {
        CapabilityCall::TakeScreenshot { options } => options.encode(),
        CapabilityCall::SetWallpaperUri { options, .. } => options.encode(),
        CapabilityCall::SetWallpaperFile { options, .. } => options.encode(),
        _ => VariantMap::new(),
    };
    let uri = match call {
        CapabilityCall::SetWallpaperUri { uri, .. } => Some(uri.clone()),
        _ => None,
    };
    let fd = match call {
        CapabilityCall::SetWallpaperFile { fd, .. } => Some(*fd),
        _ => None,
    };
    Invocation { interface, method, parent_window: parent_window.clone(), uri, fd, options }
}

impl CapabilityCall {
    /// The capability's interface name as an owned string.
    fn capability_name_owned(&self) -> (s: String)
        ensures
            s@ == self.capability().interface_name(),
    {
        match self {
            CapabilityCall::AccessCamera => "org.freedesktop.portal.Camera".to_owned(),
            CapabilityCall::OpenPipeWireRemote => "org.freedesktop.portal.Camera".to_owned(),
            CapabilityCall::TakeScreenshot { .. } => "org.freedesktop.portal.Screenshot".to_owned(),
            CapabilityCall::PickColor => "org.freedesktop.portal.Screenshot".to_owned(),
            CapabilityCall::SetWallpaperUri { .. } => "org.freedesktop.portal.Wallpaper".to_owned(),
            CapabilityCall::SetWallpaperFile { .. } => "org.freedesktop.portal.Wallpaper".to_owned(),
        }
    }

    /// The remote method name as an owned string.
    fn method_name_owned(&self) -> (s: String)
        ensures
            s@ == self.method_name(),
    {
        match self {
            CapabilityCall::AccessCamera => "AccessCamera".to_owned(),
            CapabilityCall::OpenPipeWireRemote => "OpenPipeWireRemote".to_owned(),
            CapabilityCall::TakeScreenshot { .. } => "Screenshot".to_owned(),
            CapabilityCall::PickColor => "PickColor".to_owned(),
            CapabilityCall::SetWallpaperUri { .. } => "SetWallpaperURI".to_owned(),
            CapabilityCall::SetWallpaperFile { .. } => "SetWallpaperFile".to_owned(),
        }
    }
}

/// Accepts the broker's immediate acknowledgment of an invocation. A
/// returned handle token is wrapped and subscribed at once — before the
/// handle can resolve, which closes the race between registration and
/// the outcome. A transport error is surfaced as it is: no request is in
/// flight and nothing may be awaited.
pub fn accept_reply(reply: Result<String, TransportError>) -> (r: Result<
    RequestCorrelator,
    TransportError,
>)
    ensures
        (reply matches Ok(token) ==> (r matches Ok(c) && c@.handle == token@ && c@.cached
            is None)),
        (reply matches Err(e) ==> r == Err::<RequestCorrelator, TransportError>(e)),
{
    match reply {
        Ok(token) => Ok(RequestCorrelator::subscribe(RequestHandle::new(token))),
        Err(e) => Err(e),
    }
}

} // verus!
