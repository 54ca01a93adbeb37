//! The choice of a clipboard backend from the kind of display a window
//! lives on, and the errors of the platforms that have no backend.

use vstd::prelude::*;

pub mod android;
pub mod dummy;
pub mod ios;

verus! {

/// The error of a display whose backend is not part of this build.
#[derive(Clone, Copy, Debug, PartialEq, Eq, Structural)]
pub struct LinuxClipboardError;

impl LinuxClipboardError {
    /// The text that describes the error.
    pub fn message(&self) -> (text: &'static str)
        ensures
            text@ == "This window server's clipboard feature is not enabled"@,
    {
        "This window server's clipboard feature is not enabled"
    }
}

/// The kind of display a window handle belongs to.
#[derive(Clone, Copy, Debug, PartialEq, Eq, Structural)]
pub enum DisplayHandle {
    Wayland,
    Xlib,
    Xcb,
    Other,
}

/// The backends a build may hold.
#[derive(Clone, Copy, Debug, PartialEq, Eq, Structural)]
pub struct Features {
    pub wayland: bool,
    pub x11: bool,
}

/// The backend that serves a display.
#[derive(Clone, Copy, Debug, PartialEq, Eq, Structural)]
pub enum Backend {
    Wayland,
    X11,
}

/// The backend for each kind of display: Wayland for a Wayland display, X11
/// for an Xlib or XCB display, each only where the build holds it.
pub open spec fn backend_for(display: DisplayHandle, features: Features) -> Option<Backend> {
    match display {
        DisplayHandle::Wayland => if features.wayland {
            Some(Backend::Wayland)
        } else {
            None
        },
        DisplayHandle::Xlib | DisplayHandle::Xcb => if features.x11 {
            Some(Backend::X11)
        } else {
            None
        },
        DisplayHandle::Other => None,
    }
}

/// Chooses the backend to connect to for a window on `display`.
pub fn connect(display: DisplayHandle, features: Features) -> (backend: Result<
    Backend,
    LinuxClipboardError,
>)
    ensures
        backend_for(display, features) matches Some(b) ==> backend == Ok::<
            Backend,
            LinuxClipboardError,
        >(b),
        backend_for(display, features) is None ==> backend == Err::<Backend, LinuxClipboardError>(
            LinuxClipboardError,
        ),
{
    match display {
        DisplayHandle::Wayland => {
            if features.wayland {
                Ok(Backend::Wayland)
            } else {
                Err(LinuxClipboardError)
            }
        },
        DisplayHandle::Xlib => {
            if features.x11 {
                Ok(Backend::X11)
            } else {
                Err(LinuxClipboardError)
            }
        },
        DisplayHandle::Xcb => {
            if features.x11 {
                Ok(Backend::X11)
            } else {
                Err(LinuxClipboardError)
            }
        },
        DisplayHandle::Other => Err(LinuxClipboardError),
    }
}

} // verus!
