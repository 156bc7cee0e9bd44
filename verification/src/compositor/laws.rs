//! What holds of every run of the compositor: readiness is reported once
//! for each positive answer, the shutdown only ever advances, nothing happens
//! once it has finished, invisible pipelines are never ticked, and the
//! compositor stays well formed.

use vstd::prelude::*;
use crate::area::model::AreaView;
use crate::compositor::{
    CompositeTarget, Msg, NotReadyToPaint, Observations, ShutdownState, UnableToComposite,
};
use crate::compositor::model::{
    IOCompositorView, all_ticks, animation_effects, any_ticked, bound, details_of, flushed_all,
    is_ticked, pipelines_wf, tick_effects, unresolved,
};
use crate::effects::{ConstellationMsg, Effect};
use crate::msg::{CompositionPipeline, DocumentId, Epoch, PipelineId, tree_pipelines};
use crate::windowing::{EmbedderCoordinates, WindowEvent};
use crate::pipeline::{Entry, PipelineDetails, inserted, removed};
use crate::search::{lemma_first_index_finds, lemma_first_index_in_range};

verus! {

impl IOCompositorView {
    /// The compositor after a number of readiness checks in a row.
    pub open spec fn ready_checked_times(self, checks: nat) -> IOCompositorView
        decreases checks,
    {
        if checks == 0 {
            self
        } else {
            self.ready_checked_times((checks - 1) as nat).ready_checked()
        }
    }
}

/// How far a shutdown state is from the start: the states are passed in
/// this order.
pub open spec fn shutdown_rank(state: ShutdownState) -> int {
    match state {
        ShutdownState::NotShuttingDown => 0,
        ShutdownState::ShuttingDown => 1,
        ShutdownState::FinishedShuttingDown => 2,
    }
}

/// Without an answer in between, no check after the first reports ready.
pub proof fn lemma_no_answer_no_ready(c: IOCompositorView, checks: nat)
    requires
        checks >= 1,
    ensures
        c.ready_checked_times(checks).ready_check() is Err,
        !(c.ready_checked_times(checks).ready_to_save_state is ReadyToSaveImage),
    decreases checks,
{
    if checks > 1 {
        lemma_no_answer_no_ready(c, (checks - 1) as nat);
    } else {
        assert(c.ready_checked_times(0) == c);
    }
}

/// The compositor reports ready once for one positive answer. The check
/// that reports ready forgets the answer, so the very next check asks anew
/// and reports not ready, and so does every later check until another
/// answer comes; and only a positive answer makes a compositor ready that
/// was not.
pub proof fn lemma_ready_is_reported_once(
    c: IOCompositorView,
    rendered: Seq<Entry<Epoch>>,
    msg: Msg,
    checks: nat,
)
    ensures
        c.ready_check() is Ok ==> {
            &&& c.ready_checked().ready_to_save_state is Unknown
            &&& c.ready_checked().ready_check() == Err::<(), NotReadyToPaint>(
                NotReadyToPaint::JustNotifiedConstellation,
            )
            &&& c.ready_checked().ready_check_effects(rendered).last() == Effect::Constellation(
                ConstellationMsg::IsReadyToSaveImage,
            )
        },
        checks >= 1 ==> c.ready_checked_times(checks).ready_check() is Err,
        c.handled(msg).ready_check() is Ok && c.ready_check() is Err ==> msg
            == Msg::IsReadyToSaveImageReply(true),
{
    if checks >= 1 {
        lemma_no_answer_no_ready(c, checks);
    }
}

/// The shutdown never goes backward: whatever the compositor does, its
/// shutdown state stays or advances.
pub proof fn lemma_shutdown_is_monotonic(
    c: IOCompositorView,
    msg: Msg,
    target: CompositeTarget,
    surface_ready: bool,
    rendered: Seq<Entry<Epoch>>,
)
    ensures
        shutdown_rank(c.handled(msg).shutdown_state) >= shutdown_rank(c.shutdown_state),
        shutdown_rank(c.composited(target, surface_ready, rendered).shutdown_state)
            >= shutdown_rank(c.shutdown_state),
        shutdown_rank(c.composite_pass(surface_ready, rendered).shutdown_state) >= shutdown_rank(
            c.shutdown_state,
        ),
        shutdown_rank(c.updated(surface_ready, rendered).shutdown_state) >= shutdown_rank(
            c.shutdown_state,
        ),
        shutdown_rank(c.repainted(msg, surface_ready, rendered).shutdown_state) >= shutdown_rank(
            c.shutdown_state,
        ),
        shutdown_rank(c.ready_checked().shutdown_state) >= shutdown_rank(c.shutdown_state),
{
    lemma_handling_keeps_shutdown_order(c, msg);
    lemma_handling_keeps_shutdown_order(c.handled(msg), msg);
}

proof fn lemma_handling_keeps_shutdown_order(c: IOCompositorView, msg: Msg)
    ensures
        shutdown_rank(c.handled(msg).shutdown_state) >= shutdown_rank(c.shutdown_state),
        c.shutdown_state is NotShuttingDown ==> c.handled_running(msg).shutdown_state
            is NotShuttingDown,
{
}

/// Once the shutdown has finished, neither a message nor a composite nor
/// a round of updates changes anything or asks for anything.
pub proof fn lemma_nothing_happens_after_shutdown(
    c: IOCompositorView,
    msg: Msg,
    target: CompositeTarget,
    surface_ready: bool,
    rendered: Seq<Entry<Epoch>>,
)
    requires
        c.shutdown_state is FinishedShuttingDown,
    ensures
        c.handled(msg) == c,
        c.handle_effects(msg) == Seq::<Effect>::empty(),
        !c.keeps_going(msg),
        c.composite_result(target, surface_ready) == Err::<(), UnableToComposite>(
            if surface_ready {
                UnableToComposite::ShuttingDown
            } else {
                UnableToComposite::WindowUnprepared
            },
        ),
        c.composited(target, surface_ready, rendered) == c,
        c.composite_effects(target, surface_ready, rendered) == Seq::<Effect>::empty(),
        c.composite_pass(surface_ready, rendered) == c,
        c.composite_pass_effects(surface_ready, rendered) == Seq::<Effect>::empty(),
        c.updated(surface_ready, rendered) == c,
        c.update_effects(surface_ready, rendered) == Seq::<Effect>::empty(),
        c.repainted(msg, surface_ready, rendered) == c,
        c.repaint_effects(msg, surface_ready, rendered) == Seq::<Effect>::empty(),
{
    assert(c.repaint_effects(msg, surface_ready, rendered) =~= Seq::<Effect>::empty());
}

/// A surface that is not ready is reported as such in every state of the
/// compositor, and nothing is done.
pub proof fn lemma_unready_surface_is_reported(
    c: IOCompositorView,
    target: CompositeTarget,
    rendered: Seq<Entry<Epoch>>,
)
    ensures
        c.composite_result(target, false) == Err::<(), UnableToComposite>(
            UnableToComposite::WindowUnprepared,
        ),
        c.composited(target, false, rendered) == c,
        c.composite_effects(target, false, rendered) == Seq::<Effect>::empty(),
{
}

/// While the shutdown is under way or over no frame is composited: a
/// ready surface is answered with the word that the compositor shuts down.
pub proof fn lemma_no_composite_while_shutting_down(
    c: IOCompositorView,
    target: CompositeTarget,
    surface_ready: bool,
    rendered: Seq<Entry<Epoch>>,
)
    requires
        !(c.shutdown_state is NotShuttingDown),
    ensures
        c.composite_result(target, surface_ready) == Err::<(), UnableToComposite>(
            if surface_ready {
                UnableToComposite::ShuttingDown
            } else {
                UnableToComposite::WindowUnprepared
            },
        ),
        c.composited(target, surface_ready, rendered) == c,
        c.composite_effects(target, surface_ready, rendered) == Seq::<Effect>::empty(),
{
}

/// Whether an effect is a tick for a pipeline.
pub open spec fn is_tick_for(effect: Effect, id: PipelineId) -> bool {
    effect matches Effect::Constellation(ConstellationMsg::TickAnimation(ticked, _)) && ticked == id
}

/// A pipeline that is not visible gets no tick, whatever its animations.
pub proof fn lemma_invisible_pipeline_is_not_ticked(
    entries: Seq<Entry<PipelineDetails>>,
    id: PipelineId,
)
    requires
        forall|i: int|
            0 <= i < entries.len() && (#[trigger] entries[i]).id == id ==> !entries[i].value.visible,
    ensures
        forall|k: int|
            0 <= k < animation_effects(entries).len() ==> !is_tick_for(
                #[trigger] animation_effects(entries)[k],
                id,
            ),
{
    lemma_ticks_skip_invisible(entries, id);
}

proof fn lemma_ticks_skip_invisible(entries: Seq<Entry<PipelineDetails>>, id: PipelineId)
    requires
        forall|i: int|
            0 <= i < entries.len() && (#[trigger] entries[i]).id == id ==> !entries[i].value.visible,
    ensures
        forall|k: int|
            0 <= k < all_ticks(entries).len() ==> !is_tick_for(#[trigger] all_ticks(entries)[k], id),
    decreases entries.len(),
{
    if entries.len() > 0 {
        let shorter = entries.drop_last();
        assert forall|i: int| 0 <= i < shorter.len() && (#[trigger] shorter[i]).id == id implies
            !shorter[i].value.visible by {
            assert(shorter[i] == entries[i]);
        }
        lemma_ticks_skip_invisible(shorter, id);
        let last = entries.last();
        assert(last == entries[entries.len() - 1]);
        let head = all_ticks(shorter);
        let tail = if is_ticked(last.value) {
            tick_effects(last.id, last.value)
        } else {
            Seq::empty()
        };
        assert(all_ticks(entries) == head + tail);
        assert forall|k: int| 0 <= k < all_ticks(entries).len() implies !is_tick_for(
            #[trigger] all_ticks(entries)[k],
            id,
        ) by {
            if k < head.len() {
                assert(all_ticks(entries)[k] == head[k]);
            } else {
                assert(all_ticks(entries)[k] == tail[k - head.len()]);
            }
        }
    }
}

/// A pipeline that is visible and animates gets its ticks whenever the
/// animations are driven.
pub proof fn lemma_visible_animating_pipeline_is_ticked(
    entries: Seq<Entry<PipelineDetails>>,
    at: int,
)
    requires
        0 <= at < entries.len(),
        is_ticked(entries[at].value),
    ensures
        any_ticked(entries),
        exists|k: int|
            0 <= k < all_ticks(entries).len() && is_tick_for(
                #[trigger] all_ticks(entries)[k],
                entries[at].id,
            ),
    decreases entries.len(),
{
    let shorter = entries.drop_last();
    let tail = if is_ticked(entries.last().value) {
        tick_effects(entries.last().id, entries.last().value)
    } else {
        Seq::empty()
    };
    if at == entries.len() - 1 {
        let k = all_ticks(shorter).len() as int;
        assert(tail.len() >= 1);
        assert(all_ticks(entries)[k] == tail[0]);
        assert(is_tick_for(all_ticks(entries)[k], entries[at].id));
    } else {
        assert(shorter[at] == entries[at]);
        lemma_visible_animating_pipeline_is_ticked(shorter, at);
        let k = choose|k: int|
            0 <= k < all_ticks(shorter).len() && is_tick_for(
                #[trigger] all_ticks(shorter)[k],
                entries[at].id,
            );
        assert(all_ticks(entries)[k] == all_ticks(shorter)[k]);
        assert(is_tick_for(all_ticks(entries)[k], entries[at].id));
    }
}

/// Changing what is known of a pipeline, without binding it to another
/// pipeline, keeps the table well formed.
pub proof fn lemma_details_keep_table(
    entries: Seq<Entry<PipelineDetails>>,
    id: PipelineId,
    details: PipelineDetails,
)
    requires
        pipelines_wf(entries),
        details.pipeline matches Some(pipeline) ==> pipeline.id == id,
    ensures
        pipelines_wf(inserted(entries, id, details)),
{
    crate::pipeline::lemma_entries_are_a_map(entries, id, details, id);
    crate::pipeline::lemma_position_of(entries, id);
}

/// The pipeline that is bound to an identifier carries that identifier.
pub proof fn lemma_bound_pipeline_has_its_id(entries: Seq<Entry<PipelineDetails>>, id: PipelineId)
    requires
        pipelines_wf(entries),
    ensures
        details_of(entries, id).pipeline matches Some(pipeline) ==> pipeline.id == id,
{
    crate::pipeline::lemma_position_of(entries, id);
}

/// Binding the pipelines of a frame tree keeps the table well formed.
pub proof fn lemma_bound_keeps_table(
    entries: Seq<Entry<PipelineDetails>>,
    pipelines: Seq<CompositionPipeline>,
)
    requires
        pipelines_wf(entries),
    ensures
        pipelines_wf(bound(entries, pipelines)),
    decreases pipelines.len(),
{
    if pipelines.len() > 0 {
        lemma_bound_keeps_table(entries, pipelines.drop_last());
        let before = bound(entries, pipelines.drop_last());
        let pipeline = pipelines.last();
        lemma_bound_pipeline_has_its_id(before, pipeline.id);
        lemma_details_keep_table(
            before,
            pipeline.id,
            PipelineDetails { pipeline: Some(pipeline), ..details_of(before, pipeline.id) },
        );
    }
}

/// Forgetting a pipeline keeps the table well formed.
pub proof fn lemma_removed_keeps_table(entries: Seq<Entry<PipelineDetails>>, id: PipelineId)
    requires
        pipelines_wf(entries),
    ensures
        pipelines_wf(removed(entries, id)),
{
    crate::pipeline::lemma_entries_are_a_map(entries, id, PipelineDetails::spec_new(), id);
    crate::pipeline::lemma_position_of(entries, id);
}

/// The paint-time requests that stay pending are among those that were
/// pending, and no pipeline has two of them.
pub proof fn lemma_unresolved_stay_distinct(
    pending: Seq<Entry<Epoch>>,
    rendered: Seq<Entry<Epoch>>,
)
    requires
        crate::pipeline::distinct(pending),
    ensures
        crate::pipeline::distinct(unresolved(pending, rendered)),
        forall|k: int|
            0 <= k < unresolved(pending, rendered).len() ==> exists|i: int|
                0 <= i < pending.len() && pending[i] == #[trigger] unresolved(pending, rendered)[k],
    decreases pending.len(),
{
    if pending.len() > 0 {
        let shorter = pending.drop_last();
        lemma_unresolved_stay_distinct(shorter, rendered);
        let kept = unresolved(shorter, rendered);
        let all = unresolved(pending, rendered);
        assert forall|k: int| 0 <= k < all.len() implies exists|i: int|
            0 <= i < pending.len() && pending[i] == #[trigger] all[k] by {
            if k < kept.len() {
                let i = choose|i: int| 0 <= i < shorter.len() && shorter[i] == kept[k];
                assert(pending[i] == all[k]);
            } else {
                assert(pending[pending.len() - 1] == all[k]);
            }
        }
        assert forall|a: int, b: int| 0 <= a < b < all.len() implies (#[trigger] all[a]).id != (
        #[trigger] all[b]).id by {
            if b == kept.len() {
                let i = choose|i: int| 0 <= i < shorter.len() && shorter[i] == kept[a];
                assert(pending[i] == all[a]);
                assert(pending[pending.len() - 1] == all[b]);
            }
        }
    }
}

/// A compositor is well formed when it is created and stays so whatever
/// message it handles, whenever it composites, and in every round of updates.
pub proof fn lemma_compositor_stays_well_formed(
    c: IOCompositorView,
    msg: Msg,
    target: CompositeTarget,
    surface_ready: bool,
    rendered: Seq<Entry<Epoch>>,
)
    requires
        c.wf(),
    ensures
        IOCompositorView::created(c.embedder_coordinates, c.options).wf(),
        c.handled(msg).wf(),
        c.composited(target, surface_ready, rendered).wf(),
        c.composite_pass(surface_ready, rendered).wf(),
        c.updated(surface_ready, rendered).wf(),
        c.repainted(msg, surface_ready, rendered).wf(),
{
    lemma_handled_is_well_formed(c, msg);
    lemma_composited_is_well_formed(c, target, surface_ready, rendered);
    lemma_composited_is_well_formed(c, c.composite_target, surface_ready, rendered);
    let handled = c.handled(msg);
    lemma_composited_is_well_formed(handled, handled.composite_target, surface_ready, rendered);
    let passed = c.composite_pass(surface_ready, rendered);
    assert(passed.wf());
    assert(c.updated(surface_ready, rendered).wf()) by {
        let after = if c.composition_request is CompositeNow {
            passed
        } else {
            c
        };
        assert forall|i: int| 0 <= i < flushed_all(after.areas).len() implies (
        #[trigger] flushed_all(after.areas)[i]).wf() by {
            assert(after.areas[i].wf());
        }
    }
}

/// An attempt to composite a frame keeps the compositor well formed.
pub proof fn lemma_composited_is_well_formed(
    c: IOCompositorView,
    target: CompositeTarget,
    surface_ready: bool,
    rendered: Seq<Entry<Epoch>>,
)
    requires
        c.wf(),
    ensures
        c.composited(target, surface_ready, rendered).wf(),
{
    lemma_unresolved_stay_distinct(c.pending_paint_metrics, rendered);
    let after = c.composited(target, surface_ready, rendered);
    assert forall|i: int| 0 <= i < after.areas.len() implies (#[trigger] after.areas[i]).wf() by {
        assert(c.areas[i].wf());
    }
}


proof fn lemma_area_change_is_well_formed(c: IOCompositorView, at: int, area: AreaView)
    requires
        c.wf(),
        area.wf(),
    ensures
        c.with_area(at, area).wf(),
{
    let after = c.with_area(at, area);
    assert forall|i: int| 0 <= i < after.areas.len() implies (#[trigger] after.areas[i]).wf() by {
        if i != at {
            assert(c.areas[i].wf());
        }
    }
}

/// Handling a message keeps the compositor well formed.
pub proof fn lemma_handled_is_well_formed(c: IOCompositorView, msg: Msg)
    requires
        c.wf(),
    ensures
        c.handled(msg).wf(),
{
    if c.shutdown_state is FinishedShuttingDown {
        return ;
    }
    match msg {
        Msg::ShutdownComplete => {},
        Msg::PipelineExited(id, _) => {
            lemma_removed_keeps_table(c.pipeline_details, id);
        },
        Msg::PendingPaintMetric(id, epoch) => {
            crate::pipeline::lemma_entries_are_a_map(c.pending_paint_metrics, id, epoch, id);
        },
        Msg::ChangeRunningAnimationsState(id, state) => {
            let details = c.details(id);
            lemma_bound_pipeline_has_its_id(c.pipeline_details, id);
            lemma_details_keep_table(
                c.pipeline_details,
                id,
                PipelineDetails { animations_running: true, ..details },
            );
            lemma_details_keep_table(
                c.pipeline_details,
                id,
                PipelineDetails { animations_running: false, ..details },
            );
            lemma_details_keep_table(
                c.pipeline_details,
                id,
                PipelineDetails { animation_callbacks_running: true, ..details },
            );
            lemma_details_keep_table(
                c.pipeline_details,
                id,
                PipelineDetails { animation_callbacks_running: false, ..details },
            );
        },
        Msg::SetFrameTree(document, tree) => {
            lemma_bound_keeps_table(c.pipeline_details, tree_pipelines(tree));
            let at = c.area_for_document(document);
            lemma_first_index_in_range(
                c.areas,
                |a: AreaView| a.webrender_document == document,
            );
            if at < c.areas.len() {
                let known = IOCompositorView {
                    pipeline_details: bound(c.pipeline_details, tree_pipelines(tree)),
                    ..c
                };
                assert(c.areas[at].wf());
                lemma_area_change_is_well_formed(known, at, c.areas[at].rooted(tree.pipeline));
            }
        },
        Msg::ViewportConstrained(id, constraints) => {
            match c.pipeline(id) {
                Some(pipeline) => {
                    let at = c.area_for_pipeline(pipeline.id);
                    lemma_first_index_in_range(
                        c.areas,
                        |a: AreaView| a.root_pipeline matches Some(root) && root.id == pipeline.id,
                    );
                    if at < c.areas.len() {
                        assert(c.areas[at].wf());
                        lemma_area_change_is_well_formed(
                            c,
                            at,
                            c.areas[at].constrained(constraints),
                        );
                    }
                },
                None => {},
            }
        },
        Msg::PipelineVisibilityChanged(id, visible) => {
            let details = c.details(id);
            lemma_bound_pipeline_has_its_id(c.pipeline_details, id);
            lemma_details_keep_table(
                c.pipeline_details,
                id,
                PipelineDetails { visible, ..details },
            );
        },
        Msg::NewScrollFrameReady(document, _) => {
            let at = c.area_for_document(document);
            lemma_first_index_in_range(
                c.areas,
                |a: AreaView| a.webrender_document == document,
            );
            if at < c.areas.len() {
                assert(c.areas[at].wf());
                lemma_area_change_is_well_formed(
                    c,
                    at,
                    AreaView { waiting_for_results_of_scroll: false, ..c.areas[at] },
                );
            }
        },
        _ => {},
    }
}

/// Events of the embedder's window never move the shutdown backward and
/// keep the compositor well formed; and once the shutdown has finished, a
/// refresh or a request to quit changes nothing and asks for nothing.
pub proof fn lemma_window_events_keep_order_and_form(
    c: IOCompositorView,
    event: WindowEvent,
    seen: Observations,
)
    ensures
        shutdown_rank(c.window_event_handled(event, seen).shutdown_state) >= shutdown_rank(
            c.shutdown_state,
        ),
        c.wf() ==> c.window_event_handled(event, seen).wf(),
        c.shutdown_state is FinishedShuttingDown && (event is Refresh || event is Quit) ==> {
            &&& c.window_event_handled(event, seen) == c
            &&& c.window_event_effects(event, seen) == Seq::<Effect>::empty()
        },
{
    let after = c.window_event_handled(event, seen);
    if c.wf() {
        lemma_composited_is_well_formed(c, c.composite_target, seen.surface_ready, seen.rendered@);
        assert forall|i: int| 0 <= i < after.areas.len() implies (#[trigger] after.areas[i]).wf() by {
            if i < c.areas.len() {
                assert(c.areas[i].wf());
            }
        }
    }
}

/// A change of one viewport that keeps every well-formed viewport well
/// formed keeps the compositor well formed.
pub proof fn lemma_area_change_keeps_form(
    c: IOCompositorView,
    document: DocumentId,
    change: spec_fn(AreaView) -> AreaView,
)
    requires
        c.wf(),
        forall|a: AreaView| a.wf() ==> (#[trigger] change(a)).wf(),
    ensures
        c.with_area_of(document, change).wf(),
{
    let after = c.with_area_of(document, change);
    let at = c.area_for_document(document);
    assert forall|i: int| 0 <= i < after.areas.len() implies (#[trigger] after.areas[i]).wf() by {
        assert(c.areas[i].wf());
    }
}

/// A new viewport that is well formed keeps the compositor well formed.
pub proof fn lemma_new_area_keeps_form(c: IOCompositorView, area: AreaView)
    requires
        c.wf(),
        area.wf(),
    ensures
        c.with_new_area(area).wf(),
{
    let more = c.with_new_area(area);
    assert forall|i: int| 0 <= i < more.areas.len() implies (#[trigger] more.areas[i]).wf() by {
        if i < c.areas.len() {
            assert(c.areas[i].wf());
        }
    }
}

/// A request to quit, a readiness check and a resize keep the compositor
/// well formed.
pub proof fn lemma_bookkeeping_keeps_form(c: IOCompositorView, coordinates: EmbedderCoordinates)
    requires
        c.wf(),
    ensures
        c.quit().wf(),
        c.shutting_down().wf(),
        c.ready_checked().wf(),
        c.resized(coordinates).wf(),
{
    let resized = c.resized(coordinates);
    assert forall|i: int| 0 <= i < resized.areas.len() implies (#[trigger] resized.areas[i]).wf() by {
        assert(c.areas[i].wf());
    }
}

/// Message handling goes on as long as the shutdown has not finished and
/// no message says that it is complete; so whether a batch of messages is
/// handled to its end shows in the state before the batch and in the
/// messages alone.
pub proof fn lemma_handling_goes_on_until_refused(c: IOCompositorView, msg: Msg)
    requires
        c.keeps_going(msg),
    ensures
        !(c.handled(msg).shutdown_state is FinishedShuttingDown),
        forall|next: Msg| c.handled(msg).keeps_going(next) == c.keeps_going(next),
{
    lemma_handling_keeps_shutdown_order(c, msg);
}

/// Sending the pending events of every viewport keeps the compositor well
/// formed.
pub proof fn lemma_flush_all_keeps_form(c: IOCompositorView)
    requires
        c.wf(),
    ensures
        (IOCompositorView { areas: flushed_all(c.areas), ..c }).wf(),
{
    let after = IOCompositorView { areas: flushed_all(c.areas), ..c };
    assert forall|i: int| 0 <= i < after.areas.len() implies (#[trigger] after.areas[i]).wf() by {
        assert(c.areas[i].wf());
    }
}

/// Handling messages after which handling goes on does not change after
/// which messages it goes on.
pub proof fn lemma_keeps_going_is_kept(c: IOCompositorView, msgs: Seq<Msg>, next: Msg)
    requires
        forall|j: int| 0 <= j < msgs.len() ==> c.keeps_going(#[trigger] msgs[j]),
    ensures
        c.handled_in_order(msgs).keeps_going(next) == c.keeps_going(next),
    decreases msgs.len(),
{
    if msgs.len() > 0 {
        let before = msgs.drop_last();
        assert forall|j: int| 0 <= j < before.len() implies c.keeps_going(
            #[trigger] before[j],
        ) by {
            assert(before[j] == msgs[j]);
        }
        lemma_keeps_going_is_kept(c, before, msgs.last());
        lemma_keeps_going_is_kept(c, before, next);
        lemma_handling_goes_on_until_refused(c.handled_in_order(before), msgs.last());
    }
}

/// A mailbox is drained as foreseen. When the messages that are to be
/// handled are handled one after the other, handling goes on after each
/// but the last; after the last it goes on exactly if the whole batch is
/// handled, and the messages after it were dropped.
pub proof fn lemma_batch_is_handled_as_foreseen(c: IOCompositorView, kept: Seq<Msg>, i: int)
    requires
        0 <= i < c.to_handle(kept).len(),
    ensures
        c.to_handle(kept).len() <= kept.len(),
        c.to_handle(kept)[i] == kept[i],
        c.handled_in_order(c.to_handle(kept).take(i)).keeps_going(c.to_handle(kept)[i]) == (i
            < c.to_handle(kept).len() - 1 || c.handles_all(kept)),
        c.handles_all(kept) <==> c.to_handle(kept) == kept && c.first_refused(kept) >= kept.len(),
{
    let refuses = |m: Msg| !c.keeps_going(m);
    lemma_first_index_finds(kept, refuses);
    let at = c.first_refused(kept);
    let chosen = c.to_handle(kept);
    let before = chosen.take(i);
    assert forall|j: int| 0 <= j < before.len() implies c.keeps_going(#[trigger] before[j]) by {
        assert(before[j] == kept[j]);
        assert(!refuses(kept[j]));
    }
    lemma_keeps_going_is_kept(c, before, chosen[i]);
    if at < kept.len() {
        assert(refuses(kept[at]));
        if i < at {
            assert(!refuses(kept[i]));
        }
    } else {
        assert(!refuses(kept[i]));
        assert forall|j: int| 0 <= j < kept.len() implies c.keeps_going(#[trigger] kept[j]) by {
            assert(!refuses(kept[j]));
        }
    }
}

} // verus!
