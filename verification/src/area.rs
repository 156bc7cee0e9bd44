//! One viewport: a document of the rendering backend with its zoom and scroll
//! state, bound to the root of a tree of content pipelines.
//!
//! The module `model` says what each step does to the state of a viewport
//! and what it asks for; the module `laws` holds what follows from that for
//! every run.

pub mod model;
pub mod laws;

use vstd::prelude::*;
use crate::area::model::{AreaView, mouse_button_effects, scroll_event, touch_effects};
use crate::effects::{
    CompositorEvent, ConstellationMsg, CursorKind, Effect, EventResult, MouseEventType,
    ScrollRequest, TouchEventType, TouchId, Transaction, UntrustedNodeAddress, WindowSizeData,
    WindowSizeType,
};
use crate::msg::{CompositionPipeline, DocumentId, PipelineId, SendableFrameTree};
use crate::scroll::{ScrollLocation, ScrollZoomEvent, coalesce};
use crate::touch::{TouchAction, TouchHandler, TouchState};
use crate::units::{Fixed, IntPoint, Point2D, UNIT, Vector2D};
use crate::windowing::{AreaCoordinates, EmbedderCoordinates, MouseButton, MouseWindowEvent};

verus! {

/// The largest page zoom, in millionths.
pub const MAX_ZOOM: i64 = 8_000_000;

/// The smallest page zoom, in millionths.
pub const MIN_ZOOM: i64 = 100_000;

/// The coordinate of a cursor that lies outside every item.
pub const OUTSIDE: i32 = -1;

/// The limits that content sets for the pinch zoom of its viewport.
#[derive(Clone, Copy, Debug, PartialEq, Eq, Structural)]
pub struct ViewportConstraints {
    pub initial_zoom: Fixed,
    pub min_zoom: Option<Fixed>,
    pub max_zoom: Option<Fixed>,
}

/// The topmost item that the backend found at a position.
#[derive(Clone, Copy, Debug, PartialEq, Eq, Structural)]
pub struct HitTestItem {
    /// The pipeline that displays the item.
    pub pipeline: PipelineId,
    /// The node that the item belongs to.
    pub node: UntrustedNodeAddress,
    /// The pointer shape that the item asks for, if it names a valid one.
    pub cursor: Option<CursorKind>,
    /// The position that was hit, in the viewport of the pipeline.
    pub point_in_viewport: Point2D,
    /// The position that was hit, relative to the item.
    pub point_relative_to_item: Point2D,
}

/// One viewport of the compositor.
pub struct Area {
    coordinates: AreaCoordinates,
    embedder_coordinates: EmbedderCoordinates,
    /// Whether a scroll is in progress, that is whether the user's fingers are down.
    scroll_in_progress: bool,
    /// Whether a scroll was sent to the backend and its frame has not come yet.
    waiting_for_results_of_scroll: bool,
    /// The root of the tree of pipelines that the viewport shows.
    root_pipeline: Option<CompositionPipeline>,
    /// The scale from content pixels to device pixels.
    scale: Fixed,
    /// The pinch zoom, which magnifies without a new layout.
    viewport_zoom: Fixed,
    min_viewport_zoom: Option<Fixed>,
    max_viewport_zoom: Option<Fixed>,
    /// The page zoom, which resizes the viewport that content is laid out for.
    page_zoom: Fixed,
    /// The state machine that tells taps, pans and pinches apart.
    touch_handler: TouchHandler,
    pending_scroll_zoom_events: Vec<ScrollZoomEvent>,
    webrender_document: DocumentId,
}

impl View for Area {
    type V = AreaView;

    closed spec fn view(&self) -> AreaView {
        AreaView {
            coordinates: self.coordinates,
            embedder_coordinates: self.embedder_coordinates,
            scroll_in_progress: self.scroll_in_progress,
            waiting_for_results_of_scroll: self.waiting_for_results_of_scroll,
            root_pipeline: self.root_pipeline,
            scale: self.scale,
            viewport_zoom: self.viewport_zoom,
            min_viewport_zoom: self.min_viewport_zoom,
            max_viewport_zoom: self.max_viewport_zoom,
            page_zoom: self.page_zoom,
            touch_handler: self.touch_handler@,
            pending_scroll_zoom_events: self.pending_scroll_zoom_events@,
            webrender_document: self.webrender_document,
        }
    }
}

impl Area {
    /// Creates the viewport for a document that the backend has added, and
    /// reports its size.
    pub fn new(
        coordinates: AreaCoordinates,
        embedder_coordinates: EmbedderCoordinates,
        document: DocumentId,
        effects: &mut Vec<Effect>,
    ) -> (area: Area)
        ensures
            area@ == AreaView::created(coordinates, embedder_coordinates, document),
            area@.wf(),
            final(effects)@ == old(effects)@ + area@.window_size_effects(WindowSizeType::Initial),
    {
        let area = Area {
            coordinates,
            embedder_coordinates,
            scroll_in_progress: false,
            waiting_for_results_of_scroll: false,
            root_pipeline: None,
            scale: Fixed::one().times(embedder_coordinates.hidpi_factor),
            viewport_zoom: Fixed::one(),
            min_viewport_zoom: None,
            max_viewport_zoom: None,
            page_zoom: Fixed::one(),
            touch_handler: TouchHandler::new(),
            pending_scroll_zoom_events: Vec::new(),
            webrender_document: document,
        };
        area.send_window_size(WindowSizeType::Initial, effects);
        area
    }

    /// The document of the backend that the viewport draws.
    pub fn get_id(&self) -> (id: DocumentId)
        ensures
            id == self@.webrender_document,
    {
        self.webrender_document
    }

    /// The root of the tree of pipelines that the viewport shows.
    pub fn root_pipeline(&self) -> (root: Option<CompositionPipeline>)
        ensures
            root == self@.root_pipeline,
    {
        self.root_pipeline
    }

    /// The current pinch zoom.
    pub fn pinch_zoom_level(&self) -> (zoom: Fixed)
        ensures
            zoom == self@.viewport_zoom,
    {
        self.viewport_zoom
    }

    /// The current page zoom.
    pub fn page_zoom(&self) -> (zoom: Fixed)
        ensures
            zoom == self@.page_zoom,
    {
        self.page_zoom
    }

    /// The scale from content pixels to device pixels.
    pub fn scale(&self) -> (scale: Fixed)
        ensures
            scale == self@.scale,
    {
        self.scale
    }

    /// Whether a scroll is in progress.
    pub fn scroll_in_progress(&self) -> (r: bool)
        ensures
            r == self@.scroll_in_progress,
    {
        self.scroll_in_progress
    }

    /// Whether a batch of scroll events was sent and is not acknowledged yet.
    pub fn waiting_for_results_of_scroll(&self) -> (r: bool)
        ensures
            r == self@.waiting_for_results_of_scroll,
    {
        self.waiting_for_results_of_scroll
    }

    /// The number of scroll and zoom events that wait to be sent.
    pub fn pending_events(&self) -> (n: usize)
        ensures
            n == self@.pending_scroll_zoom_events.len(),
    {
        self.pending_scroll_zoom_events.len()
    }

    /// Binds the viewport to a tree of pipelines.
    pub fn set_frame_tree(&mut self, frame_tree: &SendableFrameTree, effects: &mut Vec<Effect>)
        ensures
            old(self)@.wf() ==> final(self)@.wf(),
            final(self)@ == old(self)@.rooted(frame_tree.pipeline),
            final(effects)@ == old(effects)@ + old(self)@.root_effects(frame_tree.pipeline),
    {
        self.root_pipeline = Some(frame_tree.pipeline);
        let mut txn = Transaction::new();
        txn.root_pipeline = Some(frame_tree.pipeline.id.to_webrender());
        txn.generate_frame = true;
        effects.push(Effect::SendTransaction(self.webrender_document, txn));
        self.send_window_size(WindowSizeType::Initial, effects);
        effects.push(Effect::QueryScrollStates(self.webrender_document));
        proof {
            assert(effects@ =~= old(effects)@ + old(self)@.root_effects(frame_tree.pipeline));
        }
    }

    /// Content has answered to a touch event: the touch handler learns
    /// whether the touch sequence is content's own.
    pub fn on_touch_event_processed(&mut self, result: EventResult)
        ensures
            old(self)@.wf() ==> final(self)@.wf(),
            final(self)@ == old(self)@.touch_processed(result),
    {
        self.touch_handler.on_event_processed(result);
    }

    /// Queues a scroll event. A touch down starts a scroll, an up or a cancel ends it.
    pub fn on_scroll_event(&mut self, delta: ScrollLocation, cursor: IntPoint, phase: TouchEventType)
        ensures
            old(self)@.wf() ==> final(self)@.wf(),
            final(self)@ == old(self)@.scrolled(delta, cursor, phase),
    {
        match phase {
            TouchEventType::Move => self.on_scroll_window_event(delta, cursor),
            TouchEventType::Up | TouchEventType::Cancel => {
                self.on_scroll_end_window_event(delta, cursor);
            },
            TouchEventType::Down => {
                self.on_scroll_start_window_event(delta, cursor);
            },
        }
    }

    fn on_scroll_window_event(&mut self, scroll_location: ScrollLocation, cursor: IntPoint)
        ensures
            final(self)@ == old(self)@.enqueued(scroll_event(scroll_location, cursor)),
    {
        self.pending_scroll_zoom_events.push(
            ScrollZoomEvent {
                magnification: Fixed::one(),
                scroll_location,
                cursor,
                event_count: 1,
            },
        );
    }

    fn on_scroll_start_window_event(&mut self, scroll_location: ScrollLocation, cursor: IntPoint)
        ensures
            final(self)@ == old(self)@.scrolled(scroll_location, cursor, TouchEventType::Down),
    {
        self.scroll_in_progress = true;
        self.pending_scroll_zoom_events.push(
            ScrollZoomEvent {
                magnification: Fixed::one(),
                scroll_location,
                cursor,
                event_count: 1,
            },
        );
    }

    fn on_scroll_end_window_event(&mut self, scroll_location: ScrollLocation, cursor: IntPoint)
        ensures
            final(self)@ == old(self)@.scrolled(scroll_location, cursor, TouchEventType::Up),
    {
        self.scroll_in_progress = false;
        self.pending_scroll_zoom_events.push(
            ScrollZoomEvent {
                magnification: Fixed::one(),
                scroll_location,
                cursor,
                event_count: 1,
            },
        );
    }

    fn set_pinch_zoom_level(&mut self, zoom: Fixed)
        ensures
            final(self)@ == (AreaView {
                viewport_zoom: old(self)@.clamp_pinch_zoom(zoom),
                ..old(self)@
            }),
    {
        let mut zoom = zoom;
        if let Some(min) = self.min_viewport_zoom {
            zoom = min.max(zoom);
        }
        if let Some(max) = self.max_viewport_zoom {
            zoom = max.min(zoom);
        }
        self.viewport_zoom = zoom;
    }

    fn process_pending_scroll_events(&mut self, effects: &mut Vec<Effect>)
        ensures
            final(self)@ == old(self)@.flushed(),
            final(effects)@ == old(effects)@ + old(self)@.flush_effects(),
    {
        // Batch up all scroll events into one, or else we'll do way too much painting.
        let combined = coalesce(&self.pending_scroll_zoom_events);
        self.pending_scroll_zoom_events.clear();
        if let Some(combined_event) = combined {
            let scroll_location = match combined_event.scroll_location {
                ScrollLocation::Delta(delta) => ScrollLocation::Delta(delta.over(self.scale)),
                // A jump to the start or the end is not scaled.
                ScrollLocation::Start => ScrollLocation::Start,
                ScrollLocation::End => ScrollLocation::End,
            };
            let cursor = combined_event.cursor.to_fixed().over(self.scale);
            let mut txn = Transaction::new();
            txn.scroll = Some(ScrollRequest { location: scroll_location, cursor });
            if combined_event.magnification.raw != UNIT {
                let old_zoom = self.pinch_zoom_level();
                self.set_pinch_zoom_level(old_zoom.times(combined_event.magnification));
                txn.pinch_zoom = Some(self.pinch_zoom_level());
            }
            txn.generate_frame = true;
            effects.push(Effect::SendTransaction(self.webrender_document, txn));
            self.waiting_for_results_of_scroll = true;
            effects.push(Effect::QueryScrollStates(self.webrender_document));
        }
        proof {
            assert(self@ =~= old(self)@.flushed());
            assert(effects@ =~= old(effects)@ + old(self)@.flush_effects());
        }
    }

    /// The backend has drawn the frame of the last scroll: the next batch may be sent.
    pub fn composite_done(&mut self)
        ensures
            old(self)@.wf() ==> final(self)@.wf(),
            final(self)@ == (AreaView { waiting_for_results_of_scroll: false, ..old(self)@ }),
    {
        self.waiting_for_results_of_scroll = false;
    }

    /// Takes over the limits that content asks for. The pinch zoom starts at
    /// the initial zoom that content names, brought within the new limits.
    pub fn constrain_viewport(&mut self, constraints: ViewportConstraints)
        ensures
            final(self)@ == old(self)@.constrained(constraints),
            final(self)@.min_viewport_zoom == constraints.min_zoom,
            final(self)@.max_viewport_zoom == constraints.max_zoom,
            final(self)@.pinch_limits_consistent() ==> final(self)@.within_pinch_limits(
                final(self)@.viewport_zoom,
            ),
            final(self)@.within_pinch_limits(constraints.initial_zoom)
                ==> final(self)@.viewport_zoom == constraints.initial_zoom,
            old(self)@.wf() ==> final(self)@.wf(),
    {
        self.min_viewport_zoom = constraints.min_zoom;
        self.max_viewport_zoom = constraints.max_zoom;
        self.set_pinch_zoom_level(constraints.initial_zoom);
        self.update_zoom_transform();
    }

    /// Sends the pending scroll and zoom events to the backend as one
    /// transaction, unless the result of an earlier batch is still awaited:
    /// then nothing happens, and the events stay pending.
    pub fn process_pending_scroll_events_if_needed(&mut self, effects: &mut Vec<Effect>) -> (sent:
        bool)
        ensures
            old(self)@.wf() ==> final(self)@.wf(),
            sent == old(self)@.flush_needed(),
            sent ==> final(self)@ == old(self)@.flushed() && final(effects)@ == old(effects)@
                + old(self)@.flush_effects(),
            !sent ==> final(self)@ == old(self)@ && final(effects)@ == old(effects)@,
    {
        if !self.pending_scroll_zoom_events.is_empty() && !self.waiting_for_results_of_scroll {
            self.process_pending_scroll_events(effects);
            true
        } else {
            false
        }
    }

    fn update_zoom_transform(&mut self)
        ensures
            final(self)@ == (AreaView {
                scale: old(self)@.page_zoom.spec_times(
                    old(self)@.embedder_coordinates.hidpi_factor,
                ),
                ..old(self)@
            }),
    {
        self.scale = self.page_zoom.times(self.embedder_coordinates.hidpi_factor);
    }

    /// Sets the page zoom back to one.
    pub fn on_zoom_reset_window_event(&mut self, effects: &mut Vec<Effect>)
        ensures
            old(self)@.wf() ==> final(self)@.wf(),
            final(self)@ == old(self)@.with_page_zoom(Fixed { raw: UNIT }),
            final(effects)@ == old(effects)@ + final(self)@.page_zoom_effects(),
    {
        self.page_zoom = Fixed::one();
        self.update_zoom_transform();
        self.send_window_size(WindowSizeType::Resize, effects);
        self.update_page_zoom_for_webrender(effects);
    }

    /// Multiplies the page zoom by a factor and brings it within the limits.
    pub fn on_zoom_window_event(&mut self, magnification: Fixed, effects: &mut Vec<Effect>)
        ensures
            old(self)@.wf() ==> final(self)@.wf(),
            final(self)@ == old(self)@.page_zoomed_by(magnification),
            MIN_ZOOM <= final(self)@.page_zoom.raw <= MAX_ZOOM,
            final(effects)@ == old(effects)@ + final(self)@.page_zoom_effects(),
    {
        self.page_zoom = self.page_zoom.times(magnification).max(Fixed::new(MIN_ZOOM)).min(
            Fixed::new(MAX_ZOOM),
        );
        self.update_zoom_transform();
        self.send_window_size(WindowSizeType::Resize, effects);
        self.update_page_zoom_for_webrender(effects);
    }

    fn update_page_zoom_for_webrender(&self, effects: &mut Vec<Effect>)
        ensures
            final(effects)@ == old(effects)@.push(
                Effect::SendTransaction(
                    self@.webrender_document,
                    Transaction { page_zoom: Some(self@.page_zoom), ..Transaction::spec_new() },
                ),
            ),
    {
        let mut txn = Transaction::new();
        txn.page_zoom = Some(self.page_zoom);
        effects.push(Effect::SendTransaction(self.webrender_document, txn));
    }

    /// Queues a pinch zoom by a factor.
    pub fn on_pinch_zoom_window_event(&mut self, magnification: Fixed)
        ensures
            old(self)@.wf() ==> final(self)@.wf(),
            final(self)@ == old(self)@.pinch_zoom_queued(magnification),
    {
        self.pending_scroll_zoom_events.push(
            ScrollZoomEvent {
                magnification,
                scroll_location: ScrollLocation::Delta(Vector2D::zero()),
                cursor: IntPoint::new(OUTSIDE, OUTSIDE),
                event_count: 1,
            },
        );
    }

    fn send_window_size(&self, size_type: WindowSizeType, effects: &mut Vec<Effect>)
        ensures
            final(effects)@ == old(effects)@ + self@.window_size_effects(size_type),
    {
        let dppx = self.page_zoom.times(self.embedder_coordinates.hidpi_factor);
        effects.push(
            Effect::SetWindowParameters {
                document: self.webrender_document,
                framebuffer: self.embedder_coordinates.framebuffer,
                coordinates: self.coordinates.rect,
                hidpi_factor: self.embedder_coordinates.hidpi_factor,
            },
        );
        let initial_viewport = self.coordinates.rect.size.to_fixed().over(dppx);
        let data = WindowSizeData { device_pixel_ratio: dppx, initial_viewport };
        let top_level_browsing_context_id = match self.root_pipeline {
            Some(pipeline) => Some(pipeline.top_level_browsing_context_id),
            None => None,
        };
        effects.push(
            Effect::Constellation(
                ConstellationMsg::WindowSize(top_level_browsing_context_id, data, size_type),
            ),
        );
        proof {
            assert(effects@ =~= old(effects)@ + self@.window_size_effects(size_type));
        }
    }

    /// The surface has another geometry: the scale follows its density, and
    /// the size is reported anew, whether or not anything changed.
    pub fn on_resize_window_event(
        &mut self,
        embedder_coordinates: EmbedderCoordinates,
        effects: &mut Vec<Effect>,
    )
        ensures
            old(self)@.wf() ==> final(self)@.wf(),
            final(self)@ == old(self)@.resized(embedder_coordinates),
            final(effects)@ == old(effects)@ + final(self)@.window_size_effects(
                WindowSizeType::Resize,
            ),
    {
        let old_coords = self.embedder_coordinates;
        self.embedder_coordinates = embedder_coordinates;
        // A size change could also mean a resolution change.
        if self.embedder_coordinates.hidpi_factor != old_coords.hidpi_factor {
            self.update_zoom_transform();
        }
        self.send_window_size(WindowSizeType::Resize, effects);
    }

    /// Forwards a mouse button event to the pipeline under it.
    pub fn dispatch_mouse_window_event_class(
        &self,
        mouse_window_event: MouseWindowEvent,
        hit: Option<HitTestItem>,
        effects: &mut Vec<Effect>,
    )
        ensures
            final(effects)@ == old(effects)@ + mouse_button_effects(mouse_window_event, hit),
    {
        let result = match hit {
            Some(result) => result,
            None => {
                assert(effects@ =~= old(effects)@ + mouse_button_effects(mouse_window_event, hit));
                return ;
            },
        };
        let (button, event_type) = match mouse_window_event {
            MouseWindowEvent::Click(button, _) => (button, MouseEventType::Click),
            MouseWindowEvent::MouseDown(button, _) => (button, MouseEventType::MouseDown),
            MouseWindowEvent::MouseUp(button, _) => (button, MouseEventType::MouseUp),
        };
        let event_to_send = CompositorEvent::MouseButtonEvent(
            event_type,
            button,
            result.point_in_viewport,
            Some(result.node),
            Some(result.point_relative_to_item),
        );
        effects.push(
            Effect::Constellation(ConstellationMsg::ForwardEvent(result.pipeline, event_to_send)),
        );
        proof {
            assert(effects@ =~= old(effects)@ + mouse_button_effects(mouse_window_event, hit));
        }
    }

    /// The position in content space at which the backend is to be asked
    /// what lies under a position of the surface.
    pub fn hit_test_at_point(&self, point: Point2D) -> (world: Point2D)
        ensures
            world == self@.hit_test_point(point),
    {
        let dppx = self.page_zoom.times(self.embedder_coordinates.hidpi_factor);
        point.over(dppx)
    }

    /// Forwards a move of the pointer to the pipeline under it, and gives
    /// the pointer the shape that the item under it asks for.
    pub fn dispatch_mouse_window_move_event_class(
        &self,
        hit: Option<HitTestItem>,
        effects: &mut Vec<Effect>,
    )
        ensures
            final(effects)@ == old(effects)@ + self@.mouse_move_effects(hit),
    {
        if self.root_pipeline.is_none() {
            assert(effects@ =~= old(effects)@ + self@.mouse_move_effects(hit));
            return ;
        }
        if let Some(item) = hit {
            let event = CompositorEvent::MouseMoveEvent(
                Some(item.point_in_viewport),
                Some(item.node),
            );
            effects.push(
                Effect::Constellation(ConstellationMsg::ForwardEvent(item.pipeline, event)),
            );
            if let Some(cursor) = item.cursor {
                effects.push(Effect::Constellation(ConstellationMsg::SetCursor(cursor)));
            }
        }
        proof {
            assert(effects@ =~= old(effects)@ + self@.mouse_move_effects(hit));
        }
    }

    fn send_touch_event(
        &self,
        event_type: TouchEventType,
        identifier: TouchId,
        hit: Option<HitTestItem>,
        effects: &mut Vec<Effect>,
    )
        ensures
            final(effects)@ == old(effects)@ + touch_effects(event_type, identifier, hit),
    {
        if let Some(item) = hit {
            let event = CompositorEvent::TouchEvent(
                event_type,
                identifier,
                item.point_in_viewport,
                Some(item.node),
            );
            effects.push(
                Effect::Constellation(ConstellationMsg::ForwardEvent(item.pipeline, event)),
            );
        }
        proof {
            assert(effects@ =~= old(effects)@ + touch_effects(event_type, identifier, hit));
        }
    }

    /// Handles a touch event of any phase. `hit` is what lies under it.
    pub fn on_touch_event(
        &mut self,
        event_type: TouchEventType,
        identifier: TouchId,
        location: Point2D,
        hit: Option<HitTestItem>,
        effects: &mut Vec<Effect>,
    )
        ensures
            old(self)@.wf() ==> final(self)@.wf(),
            final(self)@ == old(self)@.touched(event_type, identifier, location),
            final(effects)@ == old(effects)@ + old(self)@.touch_event_effects(
                event_type,
                identifier,
                location,
                hit,
            ),
    {
        match event_type {
            TouchEventType::Down => self.on_touch_down(identifier, location, hit, effects),
            TouchEventType::Move => self.on_touch_move(identifier, location, hit, effects),
            TouchEventType::Up => self.on_touch_up(identifier, location, hit, effects),
            TouchEventType::Cancel => self.on_touch_cancel(identifier, location, hit, effects),
        }
    }

    /// A finger came down: the touch handler takes note, and content is told.
    pub fn on_touch_down(
        &mut self,
        identifier: TouchId,
        point: Point2D,
        hit: Option<HitTestItem>,
        effects: &mut Vec<Effect>,
    )
        ensures
            old(self)@.wf() ==> final(self)@.wf(),
            final(self)@ == old(self)@.touched(TouchEventType::Down, identifier, point),
            final(effects)@ == old(effects)@ + touch_effects(TouchEventType::Down, identifier, hit),
    {
        self.touch_handler.on_touch_down(identifier, point);
        self.send_touch_event(TouchEventType::Down, identifier, hit, effects);
    }

    /// A finger moved: a scroll or a zoom is queued, or content is told,
    /// as the touch handler decides.
    pub fn on_touch_move(
        &mut self,
        identifier: TouchId,
        point: Point2D,
        hit: Option<HitTestItem>,
        effects: &mut Vec<Effect>,
    )
        ensures
            old(self)@.wf() ==> final(self)@.wf(),
            final(self)@ == old(self)@.touch_moved(identifier, point),
            final(effects)@ == old(effects)@ + old(self)@.touch_move_effects(
                identifier,
                point,
                hit,
            ),
    {
        match self.touch_handler.on_touch_move(identifier, point) {
            TouchAction::Scroll(delta) => {
                self.on_scroll_window_event(ScrollLocation::Delta(delta), point.to_int());
            },
            TouchAction::Zoom(magnification, scroll_delta) => {
                self.pending_scroll_zoom_events.push(
                    ScrollZoomEvent {
                        magnification,
                        scroll_location: ScrollLocation::Delta(scroll_delta),
                        cursor: IntPoint::new(OUTSIDE, OUTSIDE),
                        event_count: 1,
                    },
                );
            },
            TouchAction::DispatchEvent => {
                self.send_touch_event(TouchEventType::Move, identifier, hit, effects);
            },
            _ => {},
        }
        proof {
            assert(effects@ =~= old(effects)@ + old(self)@.touch_move_effects(
                identifier,
                point,
                hit,
            ));
        }
    }

    /// Asks the backend to draw a frame.
    pub fn generate_frame(&self, effects: &mut Vec<Effect>)
        ensures
            final(effects)@ == old(effects)@.push(
                Effect::SendTransaction(
                    self@.webrender_document,
                    Transaction { generate_frame: true, ..Transaction::spec_new() },
                ),
            ),
    {
        let mut txn = Transaction::new();
        txn.generate_frame = true;
        effects.push(Effect::SendTransaction(self.webrender_document, txn));
    }

    /// A finger was lifted: content is told, and a tap becomes a click.
    pub fn on_touch_up(
        &mut self,
        identifier: TouchId,
        point: Point2D,
        hit: Option<HitTestItem>,
        effects: &mut Vec<Effect>,
    )
        ensures
            old(self)@.wf() ==> final(self)@.wf(),
            final(self)@ == old(self)@.touched(TouchEventType::Up, identifier, point),
            final(effects)@ == old(effects)@ + old(self)@.touch_up_effects(identifier, point, hit),
    {
        self.send_touch_event(TouchEventType::Up, identifier, hit, effects);
        if let TouchAction::Click = self.touch_handler.on_touch_up(identifier) {
            self.simulate_mouse_click(point, hit, effects);
        }
        proof {
            assert(effects@ =~= old(effects)@ + old(self)@.touch_up_effects(
                identifier,
                point,
                hit,
            ));
        }
    }

    fn simulate_mouse_click(&self, p: Point2D, hit: Option<HitTestItem>, effects: &mut Vec<Effect>)
        ensures
            final(effects)@ == old(effects)@ + self@.click_effects(p, hit),
    {
        let button = MouseButton::Left;
        self.dispatch_mouse_window_move_event_class(hit, effects);
        self.dispatch_mouse_window_event_class(MouseWindowEvent::MouseDown(button, p), hit, effects);
        self.dispatch_mouse_window_event_class(MouseWindowEvent::MouseUp(button, p), hit, effects);
        self.dispatch_mouse_window_event_class(MouseWindowEvent::Click(button, p), hit, effects);
        proof {
            assert(effects@ =~= old(effects)@ + self@.click_effects(p, hit));
        }
    }

    fn on_touch_cancel(
        &mut self,
        identifier: TouchId,
        point: Point2D,
        hit: Option<HitTestItem>,
        effects: &mut Vec<Effect>,
    )
        ensures
            final(self)@ == old(self)@.touched(TouchEventType::Cancel, identifier, point),
            final(effects)@ == old(effects)@ + touch_effects(
                TouchEventType::Cancel,
                identifier,
                hit,
            ),
    {
        self.touch_handler.on_touch_cancel(identifier);
        self.send_touch_event(TouchEventType::Cancel, identifier, hit, effects);
    }

    /// The state of the touch handler.
    pub fn touch_state(&self) -> (state: TouchState)
        ensures
            state == self@.touch_handler.state,
    {
        self.touch_handler.state()
    }
}

} // verus!
