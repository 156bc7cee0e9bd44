//! What the embedder tells the compositor: the geometry of its surface and
//! the input events of its window.

use vstd::prelude::*;
use crate::effects::{TouchEventType, TouchId};
use crate::msg::DocumentId;
use crate::scroll::ScrollLocation;
use crate::units::{Fixed, IntPoint, Point2D, UintRect, UintSize};

verus! {

/// The geometry of the embedder's surface.
#[derive(Clone, Copy, Debug, PartialEq, Eq, Structural)]
pub struct EmbedderCoordinates {
    /// The number of device pixels per density-independent pixel.
    pub hidpi_factor: Fixed,
    /// The size of the screen.
    pub screen: UintSize,
    /// The part of the screen that windows may use.
    pub screen_avail: UintSize,
    /// The size of the window.
    pub window_size: UintSize,
    /// The position of the window on the screen.
    pub window_position: IntPoint,
    /// The size of the framebuffer.
    pub framebuffer: UintSize,
    /// The part of the framebuffer that is drawn to.
    pub viewport: UintRect,
}

/// The rectangle of the framebuffer that one viewport occupies.
#[derive(Clone, Copy, Debug, PartialEq, Eq, Structural)]
pub struct AreaCoordinates {
    pub rect: UintRect,
}

/// A button of the pointing device.
#[derive(Clone, Copy, Debug, PartialEq, Eq, Structural)]
pub enum MouseButton {
    Left,
    Middle,
    Right,
}

/// A press, a release or a click at a position of the window.
#[derive(Clone, Copy, Debug, PartialEq, Eq, Structural)]
pub enum MouseWindowEvent {
    Click(MouseButton, Point2D),
    MouseDown(MouseButton, Point2D),
    MouseUp(MouseButton, Point2D),
}

/// Whether any visible pipeline is animating.
#[derive(Clone, Copy, Debug, PartialEq, Eq, Structural)]
pub enum AnimationState {
    Idle,
    Animating,
}

/// A debugging overlay of the renderer.
#[derive(Clone, Copy, Debug, PartialEq, Eq, Structural)]
pub enum WebRenderDebugOption {
    Profiler,
    TextureCacheDebug,
    RenderTargetDebug,
}

/// An event of the embedder's window that concerns the compositor.
#[derive(Clone, Copy, Debug, PartialEq, Eq, Structural)]
pub enum WindowEvent {
    /// Nothing happened; the compositor still takes its turn.
    Idle,
    /// The window needs to be drawn anew.
    Refresh,
    /// The surface has another geometry.
    Resize,
    /// A mouse button did something over the viewport of a document.
    MouseWindowEventClass(DocumentId, MouseWindowEvent),
    /// The pointer moved over the viewport of a document.
    MouseWindowMoveEventClass(DocumentId, Point2D),
    /// A finger touched the viewport of a document.
    Touch(DocumentId, TouchEventType, TouchId, Point2D),
    /// The viewport of a document is scrolled, with the cursor at a position.
    Scroll(DocumentId, ScrollLocation, IntPoint, TouchEventType),
    /// The page zoom of a document's viewport changes by a factor.
    Zoom(DocumentId, Fixed),
    /// The page zoom of a document's viewport goes back to one.
    ResetZoom(DocumentId),
    /// The pinch zoom of a document's viewport changes by a factor.
    PinchZoom(DocumentId, Fixed),
    /// The embedder wants to quit.
    Quit,
    /// A debugging overlay of the renderer is switched.
    ToggleWebRenderDebug(WebRenderDebugOption),
    /// The state of the backend is to be saved for debugging.
    CaptureWebRender,
}

impl MouseWindowEvent {
    /// The position of the event.
    pub open spec fn spec_point(self) -> Point2D {
        match self {
            MouseWindowEvent::Click(_, p) => p,
            MouseWindowEvent::MouseDown(_, p) => p,
            MouseWindowEvent::MouseUp(_, p) => p,
        }
    }

    /// The button of the event.
    pub open spec fn spec_button(self) -> MouseButton {
        match self {
            MouseWindowEvent::Click(b, _) => b,
            MouseWindowEvent::MouseDown(b, _) => b,
            MouseWindowEvent::MouseUp(b, _) => b,
        }
    }

    pub fn point(&self) -> (r: Point2D)
        ensures
            r == self.spec_point(),
    {
        match *self {
            MouseWindowEvent::Click(_, p) => p,
            MouseWindowEvent::MouseDown(_, p) => p,
            MouseWindowEvent::MouseUp(_, p) => p,
        }
    }

    pub fn button(&self) -> (r: MouseButton)
        ensures
            r == self.spec_button(),
    {
        match *self {
            MouseWindowEvent::Click(b, _) => b,
            MouseWindowEvent::MouseDown(b, _) => b,
            MouseWindowEvent::MouseUp(b, _) => b,
        }
    }
}

} // verus!
