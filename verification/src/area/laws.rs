//! What holds of every run of a viewport: it stays well formed, its zoom
//! levels stay within their limits, and at most one batch of scroll events
//! is outstanding.

use vstd::prelude::*;
use crate::area::{MAX_ZOOM, MIN_ZOOM, ViewportConstraints};
use crate::area::model::{AreaView, clamp_page_zoom, zoom_event};
use crate::effects::{EventResult, TouchEventType, TouchId};
use crate::msg::CompositionPipeline;
use crate::scroll::ScrollZoomEvent;
use crate::units::{Fixed, Point2D, Vector2D};
use crate::windowing::EmbedderCoordinates;

verus! {

impl AreaView {
    /// The viewport after a run of page zooms by the given factors.
    pub open spec fn page_zoomed(self, magnifications: Seq<Fixed>) -> AreaView
        decreases magnifications.len(),
    {
        if magnifications.len() == 0 {
            self
        } else {
            let before = self.page_zoomed(magnifications.drop_last());
            before.with_page_zoom(
                clamp_page_zoom(before.page_zoom.spec_times(magnifications.last())),
            )
        }
    }

    /// The viewport after a run of pinch zooms by the given factors was queued.
    pub open spec fn pinch_zoomed(self, magnifications: Seq<Fixed>) -> AreaView
        decreases magnifications.len(),
    {
        if magnifications.len() == 0 {
            self
        } else {
            self.pinch_zoomed(magnifications.drop_last()).enqueued(
                zoom_event(
                    magnifications.last(),
                    Vector2D { x: Fixed { raw: 0 }, y: Fixed { raw: 0 } },
                ),
            )
        }
    }

    /// The viewport with a run of further events queued.
    pub open spec fn enqueued_all(self, events: Seq<ScrollZoomEvent>) -> AreaView {
        AreaView {
            pending_scroll_zoom_events: self.pending_scroll_zoom_events + events,
            ..self
        }
    }
}

/// A viewport is well formed when it is created, and stays so whatever
/// happens to it: so its page zoom and, under limits that leave room for a
/// value, its pinch zoom are within their limits at every time.
pub proof fn lemma_well_formed_is_kept(
    a: AreaView,
    event: ScrollZoomEvent,
    page_zoom: Fixed,
    constraints: ViewportConstraints,
    embedder_coordinates: EmbedderCoordinates,
    pipeline: CompositionPipeline,
)
    requires
        a.wf(),
    ensures
        AreaView::created(a.coordinates, embedder_coordinates, a.webrender_document).wf(),
        a.enqueued(event).wf(),
        a.flushed().wf(),
        a.with_page_zoom(clamp_page_zoom(page_zoom)).wf(),
        a.resized(embedder_coordinates).wf(),
        a.constrained(constraints).wf(),
        a.rooted(pipeline).wf(),
        forall|event_type: TouchEventType, identifier: TouchId, point: Point2D|
            (#[trigger] a.touched(event_type, identifier, point)).wf(),
        forall|result: EventResult| (#[trigger] a.touch_processed(result)).wf(),
{
}

/// The page zoom is within its limits after any run of page zooms,
/// whatever the factors.
pub proof fn lemma_page_zoom_stays_within_limits(a: AreaView, magnifications: Seq<Fixed>)
    requires
        magnifications.len() > 0 || MIN_ZOOM <= a.page_zoom.raw <= MAX_ZOOM,
    ensures
        MIN_ZOOM <= a.page_zoomed(magnifications).page_zoom.raw <= MAX_ZOOM,
{
}

/// A pinch zoom that was brought within limits that leave room for a value
/// is within them.
pub proof fn lemma_clamped_pinch_zoom_is_within_limits(a: AreaView, zoom: Fixed)
    requires
        a.pinch_limits_consistent(),
    ensures
        a.within_pinch_limits(a.clamp_pinch_zoom(zoom)),
{
}

/// Sending the pending events keeps the pinch zoom within its limits,
/// whatever is pending. The limits must leave room for a value.
pub proof fn lemma_flush_keeps_pinch_zoom_within_limits(a: AreaView)
    requires
        a.wf(),
        a.pinch_limits_consistent(),
    ensures
        a.within_pinch_limits(a.flushed().viewport_zoom),
        a.flushed().min_viewport_zoom == a.min_viewport_zoom,
        a.flushed().max_viewport_zoom == a.max_viewport_zoom,
{
}

/// Queuing pinch zooms changes neither the pinch zoom nor its limits.
pub proof fn lemma_pinch_zoomed_keeps_level(a: AreaView, magnifications: Seq<Fixed>)
    ensures
        a.pinch_zoomed(magnifications).viewport_zoom == a.viewport_zoom,
        a.pinch_zoomed(magnifications).min_viewport_zoom == a.min_viewport_zoom,
        a.pinch_zoomed(magnifications).max_viewport_zoom == a.max_viewport_zoom,
    decreases magnifications.len(),
{
    if magnifications.len() > 0 {
        lemma_pinch_zoomed_keeps_level(a, magnifications.drop_last());
    }
}

/// The pinch zoom stays within its limits after any run of pinch zooms,
/// whatever the factors, before and after the run is sent to the backend.
/// The limits must leave room for a value.
pub proof fn lemma_pinch_zoom_stays_within_limits(a: AreaView, magnifications: Seq<Fixed>)
    requires
        a.wf(),
        a.pinch_limits_consistent(),
    ensures
        a.within_pinch_limits(a.pinch_zoomed(magnifications).viewport_zoom),
        a.within_pinch_limits(a.pinch_zoomed(magnifications).flushed().viewport_zoom),
        a.pinch_zoomed(magnifications).flushed().min_viewport_zoom == a.min_viewport_zoom,
        a.pinch_zoomed(magnifications).flushed().max_viewport_zoom == a.max_viewport_zoom,
{
    lemma_pinch_zoomed_keeps_level(a, magnifications);
}

/// At most one batch is ever outstanding. A viewport that has sent a batch
/// sends exactly one transaction for it and then waits: whatever is queued
/// meanwhile, the next attempt sends nothing, until the batch is acknowledged.
pub proof fn lemma_one_flush_outstanding(a: AreaView, meanwhile: Seq<ScrollZoomEvent>)
    requires
        a.flush_needed(),
    ensures
        a.flush_effects().len() == 2,
        a.flush_effects()[0] is SendTransaction,
        a.flush_effects()[1] is QueryScrollStates,
        a.flushed().waiting_for_results_of_scroll,
        !a.flushed().enqueued_all(meanwhile).flush_needed(),
{
}

} // verus!
