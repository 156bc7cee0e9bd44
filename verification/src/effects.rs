//! What the compositor asks of the world around it.
//!
//! The compositor performs no output itself. Each entry point appends to a
//! list the effects that the caller has to perform, in order: transactions for
//! the rendering backend, messages for the constellation and for the layout of
//! a pipeline, calls of the window, and answers to requests.

use vstd::prelude::*;
use crate::msg::{
    CallbackId, DocumentId, Epoch, PipelineId, ReplyId, TopLevelBrowsingContextId,
    WebRenderPipelineId,
};
use crate::scroll::ScrollLocation;
use crate::units::{Fixed, IntPoint, Point2D, Size2D, UintRect, UintSize, Vector2D};
use crate::windowing::{AnimationState, MouseButton, WebRenderDebugOption};

verus! {

/// Why the size of a window is reported.
#[derive(Clone, Copy, Debug, PartialEq, Eq, Structural)]
pub enum WindowSizeType {
    Initial,
    Resize,
}

/// The size of a viewport as content sees it.
#[derive(Clone, Copy, Debug, PartialEq, Eq, Structural)]
pub struct WindowSizeData {
    /// The size of the viewport in content pixels.
    pub initial_viewport: Size2D,
    /// The number of device pixels per content pixel.
    pub device_pixel_ratio: Fixed,
}

/// What a mouse button did.
#[derive(Clone, Copy, Debug, PartialEq, Eq, Structural)]
pub enum MouseEventType {
    Click,
    MouseDown,
    MouseUp,
}

/// The phase of a touch.
#[derive(Clone, Copy, Debug, PartialEq, Eq, Structural)]
pub enum TouchEventType {
    Down,
    Move,
    Up,
    Cancel,
}

/// Identifies one finger among those that touch the surface.
#[derive(Clone, Copy, Debug, PartialEq, Eq, Structural)]
pub struct TouchId(pub i32);

/// What content did with a touch event.
#[derive(Clone, Copy, Debug, PartialEq, Eq, Structural)]
pub enum EventResult {
    DefaultAllowed,
    DefaultPrevented,
}

/// The address of a node of content, as the display list gives it.
#[derive(Clone, Copy, Debug, PartialEq, Eq, Structural)]
pub struct UntrustedNodeAddress(pub u64);

/// The shape of the pointer, by its code.
#[derive(Clone, Copy, Debug, PartialEq, Eq, Structural)]
pub struct CursorKind(pub u8);

/// An input event for the content of a pipeline.
#[derive(Clone, Copy, Debug, PartialEq, Eq, Structural)]
pub enum CompositorEvent {
    /// A button event, its position in the viewport, the node under it and
    /// the position relative to that node.
    MouseButtonEvent(
        MouseEventType,
        MouseButton,
        Point2D,
        Option<UntrustedNodeAddress>,
        Option<Point2D>,
    ),
    /// The pointer moved to a position in the viewport, over a node.
    MouseMoveEvent(Option<Point2D>, Option<UntrustedNodeAddress>),
    /// A touch event, its position in the viewport and the node under it.
    TouchEvent(TouchEventType, TouchId, Point2D, Option<UntrustedNodeAddress>),
}

/// Who runs the animations that a tick advances.
#[derive(Clone, Copy, Debug, PartialEq, Eq, Structural)]
pub enum AnimationTickType {
    Script,
    Layout,
}

/// A message for the constellation.
#[derive(Clone, Copy, Debug, PartialEq, Eq, Structural)]
pub enum ConstellationMsg {
    /// Shut down.
    Exit,
    /// The size of a viewport changed, or is reported for the first time.
    WindowSize(Option<TopLevelBrowsingContextId>, WindowSizeData, WindowSizeType),
    /// Hand an input event to a pipeline.
    ForwardEvent(PipelineId, CompositorEvent),
    /// Change the shape of the pointer.
    SetCursor(CursorKind),
    /// Advance the animations of a pipeline.
    TickAnimation(PipelineId, AnimationTickType),
    /// Ask whether the rendered frames show the latest content and content is
    /// idle. The frames are those of the `Effect::PipelineEpoch` entries since
    /// the last message of this kind.
    IsReadyToSaveImage,
}

/// The scroll offset of one scrollable node.
#[derive(Clone, Copy, Debug, PartialEq, Eq, Structural)]
pub struct ScrollState {
    pub scroll_id: u64,
    pub scroll_offset: Vector2D,
}

/// A message for the layout of a pipeline.
#[derive(Clone, Copy, Debug, PartialEq, Eq, Structural)]
pub enum LayoutControlMsg {
    /// The scroll offsets of the pipeline's nodes are those of the
    /// `Effect::ScrollState` entries for this pipeline since the last message
    /// of this kind.
    SetScrollStates,
    /// The frame of this epoch was painted. The caller adds the time at
    /// which the render before this message ended.
    PaintMetric(Epoch),
}

/// A scroll request for the backend: where to, and at which position.
#[derive(Clone, Copy, Debug, PartialEq, Eq, Structural)]
pub struct ScrollRequest {
    pub location: ScrollLocation,
    pub cursor: Point2D,
}

/// One transaction for a document of the rendering backend. Each part is
/// applied if it is set.
#[derive(Clone, Copy, Debug, PartialEq, Eq, Structural)]
pub struct Transaction {
    pub root_pipeline: Option<WebRenderPipelineId>,
    pub scroll: Option<ScrollRequest>,
    pub pinch_zoom: Option<Fixed>,
    pub page_zoom: Option<Fixed>,
    pub generate_frame: bool,
}

/// One thing that the caller has to do for the compositor.
#[derive(Clone, Copy, Debug, PartialEq, Eq, Structural)]
pub enum Effect {
    /// Tell the backend the geometry of a document.
    SetWindowParameters {
        document: DocumentId,
        framebuffer: UintSize,
        coordinates: UintRect,
        hidpi_factor: Fixed,
    },
    /// Send a transaction to a document of the backend.
    SendTransaction(DocumentId, Transaction),
    /// Read the scroll offsets of a document's nodes from the backend and
    /// hand them to `IOCompositor::update_scroll_states`.
    QueryScrollStates(DocumentId),
    /// Send a message to the constellation.
    Constellation(ConstellationMsg),
    /// One entry of the next `ConstellationMsg::IsReadyToSaveImage`.
    PipelineEpoch(PipelineId, Epoch),
    /// Send a message to the layout of a pipeline.
    Layout(PipelineId, LayoutControlMsg),
    /// One entry of the next `LayoutControlMsg::SetScrollStates` for this pipeline.
    ScrollState(PipelineId, ScrollState),
    /// Tell the window whether anything is animating.
    SetAnimationState(AnimationState),
    /// Draw the scene into a framebuffer of this size.
    Render(UintSize),
    /// Read the drawn frame back as an image.
    CaptureImage,
    /// Write the drawn frame to the output file.
    SaveImage,
    /// Show the drawn frame.
    Present,
    /// Toggle a debugging overlay of the renderer.
    ToggleDebug(WebRenderDebugOption),
    /// Save the state of the backend for debugging.
    SaveCapture,
    /// Composite to an image and answer the request with it: hand the request
    /// to `IOCompositor::create_png`.
    CreatePng(ReplyId),
    /// Answer a request for an image: with the image that was captured, or with none.
    ReplyImage(ReplyId, bool),
    /// Acknowledge that a pipeline has exited.
    AcknowledgeExit(ReplyId),
    /// Answer a request for the size and position of the window.
    ReplyClientWindow(ReplyId, UintSize, IntPoint),
    /// Answer a request for the size of the screen, or of its usable part.
    ReplySize(ReplyId, UintSize),
    /// Run a callback that was posted to the compositor.
    RunCallback(CallbackId),
    /// Discard the messages that are still in the mailbox.
    DrainMailbox,
    /// Tell the profiler to exit and wait until it has.
    StopProfiler,
}

impl Transaction {
    /// The transaction that does nothing.
    pub open spec fn spec_new() -> Transaction {
        Transaction {
            root_pipeline: None,
            scroll: None,
            pinch_zoom: None,
            page_zoom: None,
            generate_frame: false,
        }
    }

    pub fn new() -> (r: Transaction)
        ensures
            r == Transaction::spec_new(),
    {
        Transaction {
            root_pipeline: None,
            scroll: None,
            pinch_zoom: None,
            page_zoom: None,
            generate_frame: false,
        }
    }
}

} // verus!
