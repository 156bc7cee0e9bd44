//! What each step of a viewport does to its state, and what it asks for, as
//! functions of the state before the step.

use vstd::prelude::*;
use crate::area::{HitTestItem, MAX_ZOOM, MIN_ZOOM, OUTSIDE, ViewportConstraints};
use crate::effects::{
    EventResult,
    CompositorEvent, ConstellationMsg, Effect, MouseEventType, ScrollRequest, TouchEventType,
    TouchId, Transaction, WindowSizeData, WindowSizeType,
};
use crate::msg::{CompositionPipeline, DocumentId};
use crate::scroll::{ScrollLocation, ScrollZoomEvent, coalesced};
use crate::touch::{TouchAction, TouchHandlerView};
use crate::units::{Fixed, IntPoint, Point2D, UNIT, Vector2D};
use crate::windowing::{AreaCoordinates, EmbedderCoordinates, MouseButton, MouseWindowEvent};

verus! {

/// The state of a viewport as the contracts see it.
pub struct AreaView {
    pub coordinates: AreaCoordinates,
    pub embedder_coordinates: EmbedderCoordinates,
    pub scroll_in_progress: bool,
    pub waiting_for_results_of_scroll: bool,
    pub root_pipeline: Option<CompositionPipeline>,
    pub scale: Fixed,
    pub viewport_zoom: Fixed,
    pub min_viewport_zoom: Option<Fixed>,
    pub max_viewport_zoom: Option<Fixed>,
    pub page_zoom: Fixed,
    pub touch_handler: TouchHandlerView,
    pub pending_scroll_zoom_events: Seq<ScrollZoomEvent>,
    pub webrender_document: DocumentId,
}

/// The event that a scroll request is queued as.
pub open spec fn scroll_event(scroll_location: ScrollLocation, cursor: IntPoint) -> ScrollZoomEvent {
    ScrollZoomEvent { magnification: Fixed { raw: UNIT }, scroll_location, cursor, event_count: 1 }
}

/// The event that a zoom request is queued as. Its cursor lies outside every
/// item, so that it applies to the base layer.
pub open spec fn zoom_event(magnification: Fixed, delta: Vector2D) -> ScrollZoomEvent {
    ScrollZoomEvent {
        magnification,
        scroll_location: ScrollLocation::Delta(delta),
        cursor: IntPoint { x: OUTSIDE, y: OUTSIDE },
        event_count: 1,
    }
}

/// A page zoom brought into the range that the compositor allows.
pub open spec fn clamp_page_zoom(zoom: Fixed) -> Fixed {
    zoom.spec_max(Fixed { raw: MIN_ZOOM }).spec_min(Fixed { raw: MAX_ZOOM })
}

/// The message that forwards a mouse button event to the pipeline that was hit.
pub open spec fn mouse_button_message(event: MouseWindowEvent, hit: HitTestItem) -> Effect {
    Effect::Constellation(
        ConstellationMsg::ForwardEvent(
            hit.pipeline,
            CompositorEvent::MouseButtonEvent(
                match event {
                    MouseWindowEvent::Click(_, _) => MouseEventType::Click,
                    MouseWindowEvent::MouseDown(_, _) => MouseEventType::MouseDown,
                    MouseWindowEvent::MouseUp(_, _) => MouseEventType::MouseUp,
                },
                event.spec_button(),
                hit.point_in_viewport,
                Some(hit.node),
                Some(hit.point_relative_to_item),
            ),
        ),
    )
}

/// What a mouse button event leads to: it is forwarded to the pipeline that
/// was hit, and dropped where nothing was hit.
pub open spec fn mouse_button_effects(event: MouseWindowEvent, hit: Option<HitTestItem>) -> Seq<
    Effect,
> {
    match hit {
        Some(item) => seq![mouse_button_message(event, item)],
        None => Seq::empty(),
    }
}

/// What a touch event leads to: it is forwarded to the pipeline that was
/// hit, and dropped where nothing was hit.
pub open spec fn touch_effects(
    event_type: TouchEventType,
    identifier: TouchId,
    hit: Option<HitTestItem>,
) -> Seq<Effect> {
    match hit {
        Some(item) => seq![
            Effect::Constellation(
                ConstellationMsg::ForwardEvent(
                    item.pipeline,
                    CompositorEvent::TouchEvent(
                        event_type,
                        identifier,
                        item.point_in_viewport,
                        Some(item.node),
                    ),
                ),
            ),
        ],
        None => Seq::empty(),
    }
}

impl AreaView {
    /// What holds of every viewport: the page zoom is within its limits,
    /// the scale is the page zoom times the density of the surface, and the
    /// pinch zoom is within the limits that are set, where they leave room
    /// for a value.
    pub open spec fn wf(self) -> bool {
        &&& MIN_ZOOM <= self.page_zoom.raw <= MAX_ZOOM
        &&& self.scale == self.page_zoom.spec_times(self.embedder_coordinates.hidpi_factor)
        &&& self.pinch_limits_consistent() ==> self.within_pinch_limits(self.viewport_zoom)
    }

    /// Whether the limits of the pinch zoom leave room for a value.
    pub open spec fn pinch_limits_consistent(self) -> bool {
        self.min_viewport_zoom matches Some(min) ==> (self.max_viewport_zoom matches Some(max)
            ==> min.raw <= max.raw)
    }

    /// Whether a pinch zoom is within the limits that are set.
    pub open spec fn within_pinch_limits(self, zoom: Fixed) -> bool {
        &&& self.min_viewport_zoom matches Some(min) ==> min.raw <= zoom.raw
        &&& self.max_viewport_zoom matches Some(max) ==> zoom.raw <= max.raw
    }

    /// A pinch zoom raised to the lower limit and then lowered to the upper
    /// limit, as far as they are set.
    pub open spec fn clamp_pinch_zoom(self, zoom: Fixed) -> Fixed {
        let raised = match self.min_viewport_zoom {
            Some(min) => min.spec_max(zoom),
            None => zoom,
        };
        match self.max_viewport_zoom {
            Some(max) => max.spec_min(raised),
            None => raised,
        }
    }

    /// The viewport as it is created: nothing zoomed, nothing pending, no root.
    pub open spec fn created(
        coordinates: AreaCoordinates,
        embedder_coordinates: EmbedderCoordinates,
        document: DocumentId,
    ) -> AreaView {
        AreaView {
            coordinates,
            embedder_coordinates,
            scroll_in_progress: false,
            waiting_for_results_of_scroll: false,
            root_pipeline: None,
            scale: Fixed { raw: UNIT }.spec_times(embedder_coordinates.hidpi_factor),
            viewport_zoom: Fixed { raw: UNIT },
            min_viewport_zoom: None,
            max_viewport_zoom: None,
            page_zoom: Fixed { raw: UNIT },
            touch_handler: TouchHandlerView::new(),
            pending_scroll_zoom_events: Seq::empty(),
            webrender_document: document,
        }
    }

    /// The two reports of the viewport's size: its geometry for the backend,
    /// and its size in content pixels for the constellation.
    pub open spec fn window_size_effects(self, size_type: WindowSizeType) -> Seq<Effect> {
        let dppx = self.page_zoom.spec_times(self.embedder_coordinates.hidpi_factor);
        seq![
            Effect::SetWindowParameters {
                document: self.webrender_document,
                framebuffer: self.embedder_coordinates.framebuffer,
                coordinates: self.coordinates.rect,
                hidpi_factor: self.embedder_coordinates.hidpi_factor,
            },
            Effect::Constellation(
                ConstellationMsg::WindowSize(
                    match self.root_pipeline {
                        Some(pipeline) => Some(pipeline.top_level_browsing_context_id),
                        None => None,
                    },
                    WindowSizeData {
                        initial_viewport: self.coordinates.rect.size.spec_to_fixed().spec_over(dppx),
                        device_pixel_ratio: dppx,
                    },
                    size_type,
                ),
            ),
        ]
    }

    /// The viewport with one more pending event.
    pub open spec fn enqueued(self, event: ScrollZoomEvent) -> AreaView {
        AreaView {
            pending_scroll_zoom_events: self.pending_scroll_zoom_events.push(event),
            ..self
        }
    }

    /// The viewport after a scroll event of the given phase: the event is
    /// queued, and a scroll is in progress from a touch down to the next up
    /// or cancel.
    pub open spec fn scrolled(
        self,
        delta: ScrollLocation,
        cursor: IntPoint,
        phase: TouchEventType,
    ) -> AreaView {
        AreaView {
            scroll_in_progress: match phase {
                TouchEventType::Move => self.scroll_in_progress,
                TouchEventType::Down => true,
                _ => false,
            },
            ..self.enqueued(scroll_event(delta, cursor))
        }
    }

    /// The scroll request that the backend gets for a merged event: the
    /// offset and the cursor in content space, that is divided by the scale.
    pub open spec fn scroll_request(self, combined: ScrollZoomEvent) -> ScrollRequest {
        ScrollRequest {
            location: match combined.scroll_location {
                ScrollLocation::Delta(delta) => ScrollLocation::Delta(delta.spec_over(self.scale)),
                jump => jump,
            },
            cursor: combined.cursor.spec_to_fixed().spec_over(self.scale),
        }
    }

    /// The pinch zoom after a merged event: unchanged by a magnification of
    /// one, else multiplied by it and brought within the limits.
    pub open spec fn zoomed_by(self, combined: ScrollZoomEvent) -> Fixed {
        if combined.magnification.raw != UNIT {
            self.clamp_pinch_zoom(self.viewport_zoom.spec_times(combined.magnification))
        } else {
            self.viewport_zoom
        }
    }

    /// The transaction that carries a merged event to the backend.
    pub open spec fn flush_transaction(self, combined: ScrollZoomEvent) -> Transaction {
        Transaction {
            root_pipeline: None,
            scroll: Some(self.scroll_request(combined)),
            pinch_zoom: if combined.magnification.raw != UNIT {
                Some(self.zoomed_by(combined))
            } else {
                None
            },
            page_zoom: None,
            generate_frame: true,
        }
    }

    /// The viewport after its pending events were sent to the backend: the
    /// queue is empty and, if it held anything, the viewport waits for the
    /// result.
    pub open spec fn flushed(self) -> AreaView {
        match coalesced(self.pending_scroll_zoom_events) {
            Some(combined) => AreaView {
                pending_scroll_zoom_events: Seq::empty(),
                viewport_zoom: self.zoomed_by(combined),
                waiting_for_results_of_scroll: true,
                ..self
            },
            None => AreaView { pending_scroll_zoom_events: Seq::empty(), ..self },
        }
    }

    /// What sending the pending events asks for: one transaction and the
    /// scroll offsets that result, or nothing if nothing is pending.
    pub open spec fn flush_effects(self) -> Seq<Effect> {
        match coalesced(self.pending_scroll_zoom_events) {
            Some(combined) => seq![
                Effect::SendTransaction(self.webrender_document, self.flush_transaction(combined)),
                Effect::QueryScrollStates(self.webrender_document),
            ],
            None => Seq::empty(),
        }
    }

    /// Whether pending events may be sent now: there are some, and no
    /// earlier batch is still unacknowledged.
    pub open spec fn flush_needed(self) -> bool {
        self.pending_scroll_zoom_events.len() > 0 && !self.waiting_for_results_of_scroll
    }

    /// The viewport with another page zoom, and the scale that follows from it.
    pub open spec fn with_page_zoom(self, page_zoom: Fixed) -> AreaView {
        AreaView {
            page_zoom,
            scale: page_zoom.spec_times(self.embedder_coordinates.hidpi_factor),
            ..self
        }
    }

    /// The viewport after its page zoom was multiplied by a factor and
    /// brought within the limits.
    pub open spec fn page_zoomed_by(self, magnification: Fixed) -> AreaView {
        self.with_page_zoom(clamp_page_zoom(self.page_zoom.spec_times(magnification)))
    }

    /// The viewport with a pinch zoom by a factor queued.
    pub open spec fn pinch_zoom_queued(self, magnification: Fixed) -> AreaView {
        self.enqueued(
            zoom_event(magnification, Vector2D { x: Fixed { raw: 0 }, y: Fixed { raw: 0 } }),
        )
    }

    /// What a change of the page zoom asks for: the size is reported anew,
    /// and the backend is told the zoom.
    pub open spec fn page_zoom_effects(self) -> Seq<Effect> {
        self.window_size_effects(WindowSizeType::Resize).push(
            Effect::SendTransaction(
                self.webrender_document,
                Transaction { page_zoom: Some(self.page_zoom), ..Transaction::spec_new() },
            ),
        )
    }

    /// The viewport on a surface of another geometry: where the density
    /// changed, the scale follows.
    pub open spec fn resized(self, embedder_coordinates: EmbedderCoordinates) -> AreaView {
        AreaView {
            embedder_coordinates,
            scale: if embedder_coordinates.hidpi_factor != self.embedder_coordinates.hidpi_factor {
                self.page_zoom.spec_times(embedder_coordinates.hidpi_factor)
            } else {
                self.scale
            },
            ..self
        }
    }

    /// The viewport under the limits that content asks for: the pinch zoom
    /// starts at the initial zoom that content names, brought within the
    /// new limits.
    pub open spec fn constrained(self, constraints: ViewportConstraints) -> AreaView {
        let limited = AreaView {
            min_viewport_zoom: constraints.min_zoom,
            max_viewport_zoom: constraints.max_zoom,
            scale: self.page_zoom.spec_times(self.embedder_coordinates.hidpi_factor),
            ..self
        };
        AreaView { viewport_zoom: limited.clamp_pinch_zoom(constraints.initial_zoom), ..limited }
    }

    /// The viewport bound to the root of a tree of pipelines.
    pub open spec fn rooted(self, pipeline: CompositionPipeline) -> AreaView {
        AreaView { root_pipeline: Some(pipeline), ..self }
    }

    /// What binding the viewport to a tree asks for: the backend gets the new
    /// root and draws a frame, the size is reported, and the scroll offsets
    /// are read back.
    pub open spec fn root_effects(self, pipeline: CompositionPipeline) -> Seq<Effect> {
        seq![
            Effect::SendTransaction(
                self.webrender_document,
                Transaction {
                    root_pipeline: Some(pipeline.id.spec_to_webrender()),
                    generate_frame: true,
                    ..Transaction::spec_new()
                },
            ),
        ] + self.rooted(pipeline).window_size_effects(WindowSizeType::Initial).push(
            Effect::QueryScrollStates(self.webrender_document),
        )
    }

    /// The position in content space at which the backend is asked what lies
    /// under a position of the surface.
    pub open spec fn hit_test_point(self, point: Point2D) -> Point2D {
        point.spec_over(self.page_zoom.spec_times(self.embedder_coordinates.hidpi_factor))
    }

    /// What a move of the pointer leads to: nothing without a root or
    /// without a hit; else the move is forwarded to the pipeline that was hit,
    /// and the pointer takes the shape that the item asks for.
    pub open spec fn mouse_move_effects(self, hit: Option<HitTestItem>) -> Seq<Effect> {
        match (self.root_pipeline, hit) {
            (Some(_), Some(item)) => {
                let forward = seq![
                    Effect::Constellation(
                        ConstellationMsg::ForwardEvent(
                            item.pipeline,
                            CompositorEvent::MouseMoveEvent(
                                Some(item.point_in_viewport),
                                Some(item.node),
                            ),
                        ),
                    ),
                ];
                match item.cursor {
                    Some(cursor) => forward.push(
                        Effect::Constellation(ConstellationMsg::SetCursor(cursor)),
                    ),
                    None => forward,
                }
            },
            _ => Seq::empty(),
        }
    }

    /// What a simulated click leads to: a move, a press, a release and a
    /// click of the left button at the same position.
    pub open spec fn click_effects(self, point: Point2D, hit: Option<HitTestItem>) -> Seq<Effect> {
        self.mouse_move_effects(hit) + mouse_button_effects(
            MouseWindowEvent::MouseDown(MouseButton::Left, point),
            hit,
        ) + mouse_button_effects(MouseWindowEvent::MouseUp(MouseButton::Left, point), hit)
            + mouse_button_effects(MouseWindowEvent::Click(MouseButton::Left, point), hit)
    }

    /// The viewport with another state of its touch handler.
    pub open spec fn with_touch_handler(self, touch_handler: TouchHandlerView) -> AreaView {
        AreaView { touch_handler, ..self }
    }

    /// The viewport after content answered to a touch event.
    pub open spec fn touch_processed(self, result: EventResult) -> AreaView {
        self.with_touch_handler(self.touch_handler.processed(result))
    }

    /// The viewport after a finger moved: the touch handler follows the
    /// finger, and a scroll or a zoom that it recognises is queued.
    pub open spec fn touch_moved(self, identifier: TouchId, point: Point2D) -> AreaView {
        let followed = self.with_touch_handler(self.touch_handler.moved(identifier, point));
        match self.touch_handler.move_action(identifier, point) {
            TouchAction::Scroll(delta) => followed.enqueued(
                scroll_event(ScrollLocation::Delta(delta), point.spec_to_int()),
            ),
            TouchAction::Zoom(magnification, delta) => followed.enqueued(
                zoom_event(magnification, delta),
            ),
            _ => followed,
        }
    }

    /// What a moved finger leads to: the touch goes to content only where
    /// the touch handler says so.
    pub open spec fn touch_move_effects(
        self,
        identifier: TouchId,
        point: Point2D,
        hit: Option<HitTestItem>,
    ) -> Seq<Effect> {
        match self.touch_handler.move_action(identifier, point) {
            TouchAction::DispatchEvent => touch_effects(TouchEventType::Move, identifier, hit),
            _ => Seq::empty(),
        }
    }

    /// What a lifted finger leads to: the touch goes to content, and a tap
    /// is followed by a simulated click.
    pub open spec fn touch_up_effects(
        self,
        identifier: TouchId,
        point: Point2D,
        hit: Option<HitTestItem>,
    ) -> Seq<Effect> {
        touch_effects(TouchEventType::Up, identifier, hit) + (if self.touch_handler.up_action()
            is Click {
            self.click_effects(point, hit)
        } else {
            Seq::empty()
        })
    }

    /// The viewport after a touch event of any phase.
    pub open spec fn touched(
        self,
        event_type: TouchEventType,
        identifier: TouchId,
        point: Point2D,
    ) -> AreaView {
        match event_type {
            TouchEventType::Down => self.with_touch_handler(
                self.touch_handler.touched_down(identifier, point),
            ),
            TouchEventType::Move => self.touch_moved(identifier, point),
            TouchEventType::Up => self.with_touch_handler(self.touch_handler.lifted(identifier)),
            TouchEventType::Cancel => self.with_touch_handler(
                self.touch_handler.cancelled(identifier),
            ),
        }
    }

    /// What a touch event of any phase leads to.
    pub open spec fn touch_event_effects(
        self,
        event_type: TouchEventType,
        identifier: TouchId,
        point: Point2D,
        hit: Option<HitTestItem>,
    ) -> Seq<Effect> {
        match event_type {
            TouchEventType::Down => touch_effects(TouchEventType::Down, identifier, hit),
            TouchEventType::Move => self.touch_move_effects(identifier, point, hit),
            TouchEventType::Up => self.touch_up_effects(identifier, point, hit),
            TouchEventType::Cancel => touch_effects(TouchEventType::Cancel, identifier, hit),
        }
    }
}

} // verus!
