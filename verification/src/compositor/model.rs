//! What each step of the compositor does to its state, and what it asks
//! for, as functions of the state before the step.

use vstd::prelude::*;
use crate::area::model::{AreaView, mouse_button_effects, touch_effects};
use crate::area::HitTestItem;
use crate::compositor::{
    AnimationState, CompositeTarget, CompositingReason, CompositionRequest, CompositorOptions,
    Msg, NotReadyToPaint, Observations, ReadyState, ScrollNodeState, ShutdownState,
    UnableToComposite,
};
use crate::effects::{
    AnimationTickType, ConstellationMsg, Effect, LayoutControlMsg, ScrollState, TouchEventType,
    TouchId,
};
use crate::msg::{CompositionPipeline, DocumentId, Epoch, PipelineId, tree_pipelines};
use crate::pipeline::{Entry, PipelineDetails, distinct, inserted, removed, value_of};
use crate::search::first_index;
use crate::units::{Fixed, Point2D, UNIT};
use crate::windowing::{EmbedderCoordinates, MouseWindowEvent, WindowEvent};

verus! {

/// The state of the compositor as the contracts see it.
pub struct IOCompositorView {
    pub embedder_coordinates: EmbedderCoordinates,
    pub pipeline_details: Seq<Entry<PipelineDetails>>,
    pub composite_target: CompositeTarget,
    pub composition_request: CompositionRequest,
    pub shutdown_state: ShutdownState,
    pub ready_to_save_state: ReadyState,
    pub pending_paint_metrics: Seq<Entry<Epoch>>,
    pub areas: Seq<AreaView>,
    pub options: CompositorOptions,
}

/// The ticks that advance the animations of one pipeline: one for its
/// animation callbacks, then one for its animations in layout.
pub open spec fn tick_effects(id: PipelineId, details: PipelineDetails) -> Seq<Effect> {
    (if details.animation_callbacks_running {
        seq![Effect::Constellation(ConstellationMsg::TickAnimation(id, AnimationTickType::Script))]
    } else {
        Seq::<Effect>::empty()
    }) + (if details.animations_running {
        seq![Effect::Constellation(ConstellationMsg::TickAnimation(id, AnimationTickType::Layout))]
    } else {
        Seq::<Effect>::empty()
    })
}

/// Whether a pipeline is ticked: it animates in some way, and it is visible.
pub open spec fn is_ticked(details: PipelineDetails) -> bool {
    (details.animations_running || details.animation_callbacks_running) && details.visible
}

/// Whether any of the pipelines is ticked.
pub open spec fn any_ticked(entries: Seq<Entry<PipelineDetails>>) -> bool {
    exists|i: int| 0 <= i < entries.len() && is_ticked((#[trigger] entries[i]).value)
}

/// Whether any of the pipelines animates, visible or not.
pub open spec fn any_animating(entries: Seq<Entry<PipelineDetails>>) -> bool {
    exists|i: int|
        0 <= i < entries.len() && ((#[trigger] entries[i]).value.animations_running
            || entries[i].value.animation_callbacks_running)
}

/// The ticks for all pipelines that are ticked, in the order of the table.
pub open spec fn all_ticks(entries: Seq<Entry<PipelineDetails>>) -> Seq<Effect>
    decreases entries.len(),
{
    if entries.len() == 0 {
        Seq::empty()
    } else {
        all_ticks(entries.drop_last()) + (if is_ticked(entries.last().value) {
            tick_effects(entries.last().id, entries.last().value)
        } else {
            Seq::empty()
        })
    }
}

/// What driving the animations asks for: the window learns whether anything
/// animates, and every pipeline that is ticked gets its ticks.
pub open spec fn animation_effects(entries: Seq<Entry<PipelineDetails>>) -> Seq<Effect> {
    seq![
        Effect::SetAnimationState(
            if any_ticked(entries) {
                crate::windowing::AnimationState::Animating
            } else {
                crate::windowing::AnimationState::Idle
            },
        ),
    ] + all_ticks(entries)
}

/// What is known of a pipeline, or assumed of one that nothing is known of.
pub open spec fn details_of(entries: Seq<Entry<PipelineDetails>>, id: PipelineId) -> PipelineDetails {
    match value_of(entries, id) {
        Some(details) => details,
        None => PipelineDetails::spec_new(),
    }
}

/// The table after the pipelines of a frame tree were bound, in order.
pub open spec fn bound(
    entries: Seq<Entry<PipelineDetails>>,
    pipelines: Seq<CompositionPipeline>,
) -> Seq<Entry<PipelineDetails>>
    decreases pipelines.len(),
{
    if pipelines.len() == 0 {
        entries
    } else {
        let before = bound(entries, pipelines.drop_last());
        let pipeline = pipelines.last();
        inserted(
            before,
            pipeline.id,
            PipelineDetails { pipeline: Some(pipeline), ..details_of(before, pipeline.id) },
        )
    }
}

/// The frames that the readiness question names: for each pipeline of the
/// table, in order, the epoch that the renderer shows of it, if any.
pub open spec fn epoch_entries(
    entries: Seq<Entry<PipelineDetails>>,
    rendered: Seq<Entry<Epoch>>,
) -> Seq<Effect>
    decreases entries.len(),
{
    if entries.len() == 0 {
        Seq::empty()
    } else {
        epoch_entries(entries.drop_last(), rendered) + (match value_of(
            rendered,
            entries.last().id,
        ) {
            Some(epoch) => seq![Effect::PipelineEpoch(entries.last().id, epoch)],
            None => Seq::empty(),
        })
    }
}

/// Whether the frame that was asked about is the one that the renderer shows.
pub open spec fn is_painted(pending: Entry<Epoch>, rendered: Seq<Entry<Epoch>>) -> bool {
    value_of(rendered, pending.id) == Some(pending.value)
}

/// The paint-time requests that stay pending: those whose frame the
/// renderer does not show.
pub open spec fn unresolved(pending: Seq<Entry<Epoch>>, rendered: Seq<Entry<Epoch>>) -> Seq<
    Entry<Epoch>,
>
    decreases pending.len(),
{
    if pending.len() == 0 {
        Seq::empty()
    } else if is_painted(pending.last(), rendered) {
        unresolved(pending.drop_last(), rendered)
    } else {
        unresolved(pending.drop_last(), rendered).push(pending.last())
    }
}

/// The paint-time answers: one for each pending request whose frame the
/// renderer shows and whose pipeline is bound.
pub open spec fn metric_effects(
    entries: Seq<Entry<PipelineDetails>>,
    pending: Seq<Entry<Epoch>>,
    rendered: Seq<Entry<Epoch>>,
) -> Seq<Effect>
    decreases pending.len(),
{
    if pending.len() == 0 {
        Seq::empty()
    } else {
        metric_effects(entries, pending.drop_last(), rendered) + (if is_painted(
            pending.last(),
            rendered,
        ) && details_of(entries, pending.last().id).pipeline is Some {
            seq![
                Effect::Layout(pending.last().id, LayoutControlMsg::PaintMetric(pending.last().value)),
            ]
        } else {
            Seq::empty()
        })
    }
}

/// The viewports after each has sent its pending events, where it may.
pub open spec fn flushed_all(areas: Seq<AreaView>) -> Seq<AreaView> {
    Seq::new(
        areas.len(),
        |i: int|
            if areas[i].flush_needed() {
                areas[i].flushed()
            } else {
                areas[i]
            },
    )
}

/// What sending the pending events of all viewports asks for, in the order
/// of the viewports.
pub open spec fn flush_all_effects(areas: Seq<AreaView>) -> Seq<Effect>
    decreases areas.len(),
{
    if areas.len() == 0 {
        Seq::empty()
    } else {
        flush_all_effects(areas.drop_last()) + (if areas.last().flush_needed() {
            areas.last().flush_effects()
        } else {
            Seq::empty()
        })
    }
}

/// The viewports after the frames of their scrolls were drawn.
pub open spec fn acknowledged_all(areas: Seq<AreaView>) -> Seq<AreaView> {
    Seq::new(
        areas.len(),
        |i: int| AreaView { waiting_for_results_of_scroll: false, ..areas[i] },
    )
}

/// The viewports on a surface of another geometry.
pub open spec fn resized_all(areas: Seq<AreaView>, coordinates: EmbedderCoordinates) -> Seq<
    AreaView,
> {
    Seq::new(areas.len(), |i: int| areas[i].resized(coordinates))
}

/// The size reports of all viewports after a resize, in their order.
pub open spec fn resize_effects(areas: Seq<AreaView>, coordinates: EmbedderCoordinates) -> Seq<
    Effect,
>
    decreases areas.len(),
{
    if areas.len() == 0 {
        Seq::empty()
    } else {
        resize_effects(areas.drop_last(), coordinates) + areas.last().resized(
            coordinates,
        ).window_size_effects(crate::effects::WindowSizeType::Resize)
    }
}

/// One request for a new frame per viewport, in their order.
pub open spec fn frame_requests(areas: Seq<AreaView>) -> Seq<Effect> {
    Seq::new(
        areas.len(),
        |i: int|
            Effect::SendTransaction(
                areas[i].webrender_document,
                crate::effects::Transaction {
                    generate_frame: true,
                    ..crate::effects::Transaction::spec_new()
                },
            ),
    )
}

/// The messages of a drained mailbox that are handled: of each run of
/// composite requests only the first.
pub open spec fn collapsed(msgs: Seq<Msg>) -> Seq<Msg>
    decreases msgs.len(),
{
    if msgs.len() == 0 {
        Seq::empty()
    } else if msgs.len() >= 2 && msgs.last() is Recomposite && msgs[msgs.len() - 2] is Recomposite {
        collapsed(msgs.drop_last())
    } else {
        collapsed(msgs.drop_last()).push(msgs.last())
    }
}

/// Whether a node is the first of its pipeline among the nodes.
pub open spec fn leads_its_pipeline(nodes: Seq<ScrollNodeState>, at: int) -> bool {
    forall|j: int| 0 <= j < at ==> (#[trigger] nodes[j]).pipeline != nodes[at].pipeline
}

/// The scroll offsets of the nodes of one pipeline among the first `upto`
/// nodes, in order.
pub open spec fn scroll_entries(nodes: Seq<ScrollNodeState>, pipeline: PipelineId, upto: int) -> Seq<
    Effect,
>
    decreases upto,
{
    if upto <= 0 {
        Seq::empty()
    } else {
        scroll_entries(nodes, pipeline, upto - 1) + (if nodes[upto - 1].pipeline == pipeline {
            seq![
                Effect::ScrollState(
                    pipeline,
                    ScrollState {
                        scroll_id: nodes[upto - 1].scroll_id,
                        scroll_offset: nodes[upto - 1].scroll_offset,
                    },
                ),
            ]
        } else {
            Seq::empty()
        })
    }
}

/// The reports of scroll offsets to layout: for each pipeline that is bound,
/// in the order in which the pipelines first occur among the first `upto`
/// nodes, the offsets of all its nodes and then the message that delivers
/// them.
pub open spec fn scroll_state_effects(
    entries: Seq<Entry<PipelineDetails>>,
    nodes: Seq<ScrollNodeState>,
    upto: int,
) -> Seq<Effect>
    decreases upto,
{
    if upto <= 0 {
        Seq::empty()
    } else {
        let node = nodes[upto - 1];
        scroll_state_effects(entries, nodes, upto - 1) + (if leads_its_pipeline(nodes, upto - 1)
            && details_of(entries, node.pipeline).pipeline is Some {
            scroll_entries(nodes, node.pipeline, nodes.len() as int).push(
                Effect::Layout(node.pipeline, LayoutControlMsg::SetScrollStates),
            )
        } else {
            Seq::empty()
        })
    }
}

impl IOCompositorView {
    /// The compositor as it is created: no viewport, no pipeline, nothing asked for.
    pub open spec fn created(
        embedder_coordinates: EmbedderCoordinates,
        options: CompositorOptions,
    ) -> IOCompositorView {
        IOCompositorView {
            embedder_coordinates,
            pipeline_details: Seq::empty(),
            composite_target: if options.output_file {
                CompositeTarget::PngFile
            } else {
                CompositeTarget::Window
            },
            composition_request: CompositionRequest::NoCompositingNecessary,
            shutdown_state: ShutdownState::NotShuttingDown,
            ready_to_save_state: ReadyState::Unknown,
            pending_paint_metrics: Seq::empty(),
            areas: Seq::empty(),
            options,
        }
    }

    /// What is known of a pipeline, or assumed of one that nothing is known of.
    pub open spec fn details(self, id: PipelineId) -> PipelineDetails {
        details_of(self.pipeline_details, id)
    }

    /// The compositor with other details for a pipeline.
    pub open spec fn with_details(self, id: PipelineId, details: PipelineDetails) -> IOCompositorView {
        IOCompositorView { pipeline_details: inserted(self.pipeline_details, id, details), ..self }
    }

    /// The pipeline that is bound to an identifier, if any.
    pub open spec fn pipeline(self, id: PipelineId) -> Option<CompositionPipeline> {
        self.details(id).pipeline
    }

    /// The compositor after a composite was asked for: the reason is
    /// remembered unless one is remembered already.
    pub open spec fn requested(self, reason: CompositingReason) -> IOCompositorView {
        if self.composition_request is NoCompositingNecessary {
            IOCompositorView {
                composition_request: CompositionRequest::CompositeNow(reason),
                ..self
            }
        } else {
            self
        }
    }

    /// The position of the viewport that draws a document, or the number of
    /// viewports if none does.
    pub open spec fn area_for_document(self, document: DocumentId) -> int {
        first_index(self.areas, |a: AreaView| a.webrender_document == document)
    }

    /// The position of the viewport whose root is a pipeline, or the number
    /// of viewports if there is none.
    pub open spec fn area_for_pipeline(self, id: PipelineId) -> int {
        first_index(self.areas, |a: AreaView| a.root_pipeline matches Some(root) && root.id == id)
    }

    /// The compositor with another state of the viewport at a position.
    pub open spec fn with_area(self, at: int, area: AreaView) -> IOCompositorView {
        if 0 <= at < self.areas.len() {
            IOCompositorView { areas: self.areas.update(at, area), ..self }
        } else {
            self
        }
    }

    /// The compositor with one more viewport.
    pub open spec fn with_new_area(self, area: AreaView) -> IOCompositorView {
        IOCompositorView { areas: self.areas.push(area), ..self }
    }

    /// The compositor once the shutdown was started.
    pub open spec fn shutting_down(self) -> IOCompositorView {
        IOCompositorView { shutdown_state: ShutdownState::ShuttingDown, ..self }
    }

    /// The compositor after content reported a change of its animations.
    pub open spec fn animation_state_changed(
        self,
        id: PipelineId,
        state: AnimationState,
    ) -> IOCompositorView {
        let details = self.details(id);
        match state {
            AnimationState::AnimationsPresent => {
                let changed = self.with_details(
                    id,
                    PipelineDetails { animations_running: true, ..details },
                );
                if details.visible {
                    changed.requested(CompositingReason::Animation)
                } else {
                    changed
                }
            },
            AnimationState::AnimationCallbacksPresent => self.with_details(
                id,
                PipelineDetails { animation_callbacks_running: true, ..details },
            ),
            AnimationState::NoAnimationsPresent => self.with_details(
                id,
                PipelineDetails { animations_running: false, ..details },
            ),
            AnimationState::NoAnimationCallbacksPresent => self.with_details(
                id,
                PipelineDetails { animation_callbacks_running: false, ..details },
            ),
        }
    }

    /// What a change of animations asks for: a pipeline that is visible and
    /// has animation callbacks now is ticked at once.
    pub open spec fn animation_state_effects(self, id: PipelineId, state: AnimationState) -> Seq<
        Effect,
    > {
        let details = self.details(id);
        if state is AnimationCallbacksPresent && details.visible {
            tick_effects(id, PipelineDetails { animation_callbacks_running: true, ..details })
        } else {
            Seq::empty()
        }
    }

    /// Whether a message may be handled now: an answer to the readiness
    /// question must have been asked for.
    pub open spec fn expects(self, msg: Msg) -> bool {
        msg is IsReadyToSaveImageReply && self.shutdown_state is NotShuttingDown
            ==> self.ready_to_save_state is WaitingForConstellationReply
    }

    /// Whether further messages are to be handled after this one.
    pub open spec fn keeps_going(self, msg: Msg) -> bool {
        !(self.shutdown_state is FinishedShuttingDown) && !(msg is ShutdownComplete)
    }

    /// The compositor after a message while it runs normally.
    pub open spec fn handled_running(self, msg: Msg) -> IOCompositorView {
        match msg {
            Msg::ChangeRunningAnimationsState(id, state) => self.animation_state_changed(
                id,
                state,
            ),
            Msg::SetFrameTree(document, tree) => {
                let known = IOCompositorView {
                    pipeline_details: bound(self.pipeline_details, tree_pipelines(tree)),
                    ..self
                };
                let at = self.area_for_document(document);
                if at < self.areas.len() {
                    known.with_area(at, self.areas[at].rooted(tree.pipeline))
                } else {
                    known
                }
            },
            Msg::Recomposite(reason) => self.requested(reason),
            Msg::TouchEventProcessed(id, result) => match self.pipeline(id) {
                Some(pipeline) => {
                    let at = self.area_for_pipeline(pipeline.id);
                    if at < self.areas.len() {
                        self.with_area(at, self.areas[at].touch_processed(result))
                    } else {
                        self
                    }
                },
                None => self,
            },
            Msg::ViewportConstrained(id, constraints) => match self.pipeline(id) {
                Some(pipeline) => {
                    let at = self.area_for_pipeline(pipeline.id);
                    if at < self.areas.len() {
                        self.with_area(at, self.areas[at].constrained(constraints))
                    } else {
                        self
                    }
                },
                None => self,
            },
            Msg::IsReadyToSaveImageReply(is_ready) => IOCompositorView {
                ready_to_save_state: if is_ready {
                    ReadyState::ReadyToSaveImage
                } else {
                    ReadyState::Unknown
                },
                ..self
            }.requested(CompositingReason::Headless),
            Msg::PipelineVisibilityChanged(id, visible) => self.with_details(
                id,
                PipelineDetails { visible, ..self.details(id) },
            ),
            Msg::NewScrollFrameReady(document, recomposite_needed) => {
                let at = self.area_for_document(document);
                let acknowledged = if at < self.areas.len() {
                    self.with_area(
                        at,
                        AreaView { waiting_for_results_of_scroll: false, ..self.areas[at] },
                    )
                } else {
                    self
                };
                if recomposite_needed {
                    acknowledged.requested(CompositingReason::NewWebRenderScrollFrame)
                } else {
                    acknowledged
                }
            },
            Msg::LoadComplete(_) => if self.options.output_file || self.options.exit_after_load {
                self.requested(CompositingReason::Headless)
            } else {
                self
            },
            _ => self,
        }
    }

    /// The compositor after a message. Once the shutdown has finished nothing
    /// changes any more; while it is under way only the exit of a pipeline, a
    /// request for a paint time and the end of the shutdown are taken in.
    pub open spec fn handled(self, msg: Msg) -> IOCompositorView {
        if self.shutdown_state is FinishedShuttingDown {
            self
        } else {
            match msg {
                Msg::ShutdownComplete => IOCompositorView {
                    shutdown_state: ShutdownState::FinishedShuttingDown,
                    ..self
                },
                Msg::PipelineExited(id, _) => IOCompositorView {
                    pipeline_details: removed(self.pipeline_details, id),
                    ..self
                },
                Msg::PendingPaintMetric(id, epoch) => IOCompositorView {
                    pending_paint_metrics: inserted(self.pending_paint_metrics, id, epoch),
                    ..self
                },
                other => if self.shutdown_state is NotShuttingDown {
                    self.handled_running(other)
                } else {
                    self
                },
            }
        }
    }

    /// What a message asks for while the compositor runs normally.
    pub open spec fn running_effects(self, msg: Msg) -> Seq<Effect> {
        match msg {
            Msg::ChangeRunningAnimationsState(id, state) => self.animation_state_effects(
                id,
                state,
            ),
            Msg::SetFrameTree(document, tree) => {
                let at = self.area_for_document(document);
                if at < self.areas.len() {
                    self.areas[at].root_effects(tree.pipeline)
                } else {
                    Seq::empty()
                }
            },
            Msg::CreatePng(reply) => seq![Effect::CreatePng(reply)],
            Msg::PipelineVisibilityChanged(id, visible) => if visible {
                animation_effects(self.handled_running(msg).pipeline_details)
            } else {
                Seq::empty()
            },
            Msg::Dispatch(callback) => seq![Effect::RunCallback(callback)],
            Msg::GetClientWindow(reply) => seq![
                Effect::ReplyClientWindow(
                    reply,
                    self.embedder_coordinates.window_size,
                    self.embedder_coordinates.window_position,
                ),
            ],
            Msg::GetScreenSize(reply) => seq![
                Effect::ReplySize(reply, self.embedder_coordinates.screen),
            ],
            Msg::GetScreenAvailSize(reply) => seq![
                Effect::ReplySize(reply, self.embedder_coordinates.screen_avail),
            ],
            _ => Seq::empty(),
        }
    }

    /// What a message asks for.
    pub open spec fn handle_effects(self, msg: Msg) -> Seq<Effect> {
        if self.shutdown_state is FinishedShuttingDown {
            Seq::empty()
        } else {
            match msg {
                Msg::ShutdownComplete => seq![Effect::DrainMailbox, Effect::StopProfiler],
                Msg::PipelineExited(_, reply) => seq![Effect::AcknowledgeExit(reply)],
                Msg::PendingPaintMetric(_, _) => Seq::empty(),
                other => if self.shutdown_state is NotShuttingDown {
                    self.running_effects(other)
                } else {
                    Seq::empty()
                },
            }
        }
    }

    /// What the readiness check answers: ready exactly when a positive
    /// answer has come in since the last check.
    pub open spec fn ready_check(self) -> Result<(), NotReadyToPaint> {
        match self.ready_to_save_state {
            ReadyState::Unknown => Err(NotReadyToPaint::JustNotifiedConstellation),
            ReadyState::WaitingForConstellationReply => Err(
                NotReadyToPaint::WaitingOnConstellation,
            ),
            ReadyState::ReadyToSaveImage => Ok(()),
        }
    }

    /// The compositor after the readiness check: a question was sent and
    /// its answer is awaited, or a positive answer was used up.
    pub open spec fn ready_checked(self) -> IOCompositorView {
        IOCompositorView {
            ready_to_save_state: match self.ready_to_save_state {
                ReadyState::Unknown => ReadyState::WaitingForConstellationReply,
                ReadyState::WaitingForConstellationReply => ReadyState::WaitingForConstellationReply,
                ReadyState::ReadyToSaveImage => ReadyState::Unknown,
            },
            ..self
        }
    }

    /// What the readiness check asks for: the question, if none is
    /// outstanding and no answer is at hand.
    pub open spec fn ready_check_effects(self, rendered: Seq<Entry<Epoch>>) -> Seq<Effect> {
        if self.ready_to_save_state is Unknown {
            epoch_entries(self.pipeline_details, rendered).push(
                Effect::Constellation(ConstellationMsg::IsReadyToSaveImage),
            )
        } else {
            Seq::empty()
        }
    }

    /// Whether a frame for this target is drawn only once the scene is stable.
    pub open spec fn waits_for_stable_image(self, target: CompositeTarget) -> bool {
        match target {
            CompositeTarget::Window => self.options.exit_after_load,
            _ => true,
        }
    }

    /// Whether a frame is composited, and if not, why not. A surface that
    /// is not ready comes first, whatever the state of the compositor; then
    /// a shutdown that is under way or over.
    pub open spec fn composite_result(self, target: CompositeTarget, surface_ready: bool) -> Result<
        (),
        UnableToComposite,
    > {
        if !surface_ready {
            Err(UnableToComposite::WindowUnprepared)
        } else if !(self.shutdown_state is NotShuttingDown) {
            Err(UnableToComposite::ShuttingDown)
        } else if self.waits_for_stable_image(target) && any_animating(self.pipeline_details) {
            Err(UnableToComposite::NotReadyToPaintImage(NotReadyToPaint::AnimationsActive))
        } else if self.waits_for_stable_image(target) {
            match self.ready_check() {
                Ok(_) => Ok(()),
                Err(why) => Err(UnableToComposite::NotReadyToPaintImage(why)),
            }
        } else {
            Ok(())
        }
    }

    /// The compositor after an attempt to composite a frame.
    pub open spec fn composited(
        self,
        target: CompositeTarget,
        surface_ready: bool,
        rendered: Seq<Entry<Epoch>>,
    ) -> IOCompositorView {
        match self.composite_result(target, surface_ready) {
            Ok(_) => IOCompositorView {
                ready_to_save_state: if self.waits_for_stable_image(target) {
                    ReadyState::Unknown
                } else {
                    self.ready_to_save_state
                },
                pending_paint_metrics: unresolved(self.pending_paint_metrics, rendered),
                composition_request: CompositionRequest::NoCompositingNecessary,
                areas: acknowledged_all(self.areas),
                ..self
            },
            Err(UnableToComposite::NotReadyToPaintImage(why)) => if why is AnimationsActive {
                self
            } else {
                self.ready_checked()
            },
            Err(_) => self,
        }
    }

    /// What becomes of the frame that was drawn.
    pub open spec fn output_effects(target: CompositeTarget) -> Seq<Effect> {
        match target {
            CompositeTarget::Window => Seq::empty(),
            CompositeTarget::WindowAndPng => seq![Effect::CaptureImage],
            CompositeTarget::PngFile => seq![Effect::SaveImage],
        }
    }

    /// What an attempt to composite a frame asks for. A frame that is
    /// composited is drawn, the paint times that were asked for are
    /// answered, the frame is put out and shown, and the animations are
    /// driven. While animations hold up a stable image they are driven
    /// instead; while it is not known whether the scene is stable, that is asked.
    pub open spec fn composite_effects(
        self,
        target: CompositeTarget,
        surface_ready: bool,
        rendered: Seq<Entry<Epoch>>,
    ) -> Seq<Effect> {
        match self.composite_result(target, surface_ready) {
            Ok(_) => seq![Effect::Render(self.embedder_coordinates.framebuffer)] + metric_effects(
                self.pipeline_details,
                self.pending_paint_metrics,
                rendered,
            ) + IOCompositorView::output_effects(target) + seq![Effect::Present]
                + animation_effects(self.pipeline_details),
            Err(UnableToComposite::NotReadyToPaintImage(why)) => if why is AnimationsActive {
                animation_effects(self.pipeline_details)
            } else {
                self.ready_check_effects(rendered)
            },
            Err(_) => Seq::empty(),
        }
    }

    /// Whether the compositor exits once it has composited a frame.
    pub open spec fn exits_after_composite(self) -> bool {
        self.options.output_file || self.options.exit_after_load
    }

    /// The compositor after a composite to its own target.
    pub open spec fn composite_pass(
        self,
        surface_ready: bool,
        rendered: Seq<Entry<Epoch>>,
    ) -> IOCompositorView {
        let after = self.composited(self.composite_target, surface_ready, rendered);
        if self.composite_result(self.composite_target, surface_ready) is Ok
            && self.exits_after_composite() {
            after.shutting_down()
        } else {
            after
        }
    }

    /// What a composite to the compositor's own target asks for.
    pub open spec fn composite_pass_effects(
        self,
        surface_ready: bool,
        rendered: Seq<Entry<Epoch>>,
    ) -> Seq<Effect> {
        let effects = self.composite_effects(self.composite_target, surface_ready, rendered);
        if self.composite_result(self.composite_target, surface_ready) is Ok
            && self.exits_after_composite() {
            effects.push(Effect::Constellation(ConstellationMsg::Exit))
        } else {
            effects
        }
    }

    /// The compositor after one round of updates: a frame is composited if
    /// one was asked for, and then every viewport sends its pending events.
    pub open spec fn updated(
        self,
        surface_ready: bool,
        rendered: Seq<Entry<Epoch>>,
    ) -> IOCompositorView {
        if self.shutdown_state is FinishedShuttingDown {
            self
        } else {
            let after = if self.composition_request is CompositeNow {
                self.composite_pass(surface_ready, rendered)
            } else {
                self
            };
            IOCompositorView { areas: flushed_all(after.areas), ..after }
        }
    }

    /// What one round of updates asks for.
    pub open spec fn update_effects(self, surface_ready: bool, rendered: Seq<Entry<Epoch>>) -> Seq<
        Effect,
    > {
        if self.shutdown_state is FinishedShuttingDown {
            Seq::empty()
        } else if self.composition_request is CompositeNow {
            self.composite_pass_effects(surface_ready, rendered) + flush_all_effects(
                self.composite_pass(surface_ready, rendered).areas,
            )
        } else {
            flush_all_effects(self.areas)
        }
    }
}

impl IOCompositorView {
    /// The compositor after the viewport that draws a document changed as
    /// `change` says. Nothing changes where no viewport draws the document.
    pub open spec fn with_area_of(
        self,
        document: DocumentId,
        change: spec_fn(AreaView) -> AreaView,
    ) -> IOCompositorView {
        let at = self.area_for_document(document);
        if at < self.areas.len() {
            self.with_area(at, change(self.areas[at]))
        } else {
            self
        }
    }

    /// What the viewport that draws a document asks for, as `effects` says.
    /// Nothing is asked for where no viewport draws the document.
    pub open spec fn effects_of_area(
        self,
        document: DocumentId,
        effects: spec_fn(AreaView) -> Seq<Effect>,
    ) -> Seq<Effect> {
        let at = self.area_for_document(document);
        if at < self.areas.len() {
            effects(self.areas[at])
        } else {
            Seq::empty()
        }
    }

    /// The compositor after a mouse button event at the viewport of a
    /// document. Where mouse events are treated as touches, a press is a
    /// finger that comes down, a release one that is lifted, and a click is
    /// nothing; else nothing changes.
    pub open spec fn mouse_handled(
        self,
        document: DocumentId,
        event: MouseWindowEvent,
    ) -> IOCompositorView {
        if self.options.convert_mouse_to_touch {
            match event {
                MouseWindowEvent::Click(_, _) => self,
                MouseWindowEvent::MouseDown(_, p) => self.with_area_of(
                    document,
                    |a: AreaView| a.touched(TouchEventType::Down, TouchId(0), p),
                ),
                MouseWindowEvent::MouseUp(_, p) => self.with_area_of(
                    document,
                    |a: AreaView| a.touched(TouchEventType::Up, TouchId(0), p),
                ),
            }
        } else {
            self
        }
    }

    /// What a mouse button event at the viewport of a document leads to.
    pub open spec fn mouse_effects(
        self,
        document: DocumentId,
        event: MouseWindowEvent,
        hit: Option<HitTestItem>,
    ) -> Seq<Effect> {
        self.effects_of_area(
            document,
            |a: AreaView|
                if self.options.convert_mouse_to_touch {
                    match event {
                        MouseWindowEvent::Click(_, _) => Seq::empty(),
                        MouseWindowEvent::MouseDown(_, _) => touch_effects(
                            TouchEventType::Down,
                            TouchId(0),
                            hit,
                        ),
                        MouseWindowEvent::MouseUp(_, p) => a.touch_up_effects(TouchId(0), p, hit),
                    }
                } else {
                    mouse_button_effects(event, hit)
                },
        )
    }

    /// The compositor after the pointer moved over the viewport of a
    /// document: where mouse events are treated as touches, a finger moved.
    pub open spec fn mouse_moved(self, document: DocumentId, cursor: Point2D) -> IOCompositorView {
        if self.options.convert_mouse_to_touch {
            self.with_area_of(document, |a: AreaView| a.touch_moved(TouchId(0), cursor))
        } else {
            self
        }
    }

    /// What a move of the pointer over the viewport of a document leads to.
    pub open spec fn mouse_move_effects(
        self,
        document: DocumentId,
        cursor: Point2D,
        hit: Option<HitTestItem>,
    ) -> Seq<Effect> {
        self.effects_of_area(
            document,
            |a: AreaView|
                if self.options.convert_mouse_to_touch {
                    a.touch_move_effects(TouchId(0), cursor, hit)
                } else {
                    a.mouse_move_effects(hit)
                },
        )
    }

    /// The compositor on a surface of another geometry.
    pub open spec fn resized(self, coordinates: EmbedderCoordinates) -> IOCompositorView {
        IOCompositorView {
            embedder_coordinates: coordinates,
            areas: resized_all(self.areas, coordinates),
            ..self
        }
    }

    /// The compositor after a request to quit: the shutdown starts unless
    /// it is under way or over.
    pub open spec fn quit(self) -> IOCompositorView {
        if self.shutdown_state is NotShuttingDown {
            self.shutting_down()
        } else {
            self
        }
    }

    /// What a request to quit asks for: the constellation is told to exit,
    /// once.
    pub open spec fn quit_effects(self) -> Seq<Effect> {
        if self.shutdown_state is NotShuttingDown {
            seq![Effect::Constellation(ConstellationMsg::Exit)]
        } else {
            Seq::empty()
        }
    }

    /// The compositor after an event of the embedder's window. `seen` is
    /// what the embedder observed for the event.
    pub open spec fn window_event_handled(
        self,
        event: WindowEvent,
        seen: Observations,
    ) -> IOCompositorView {
        match event {
            WindowEvent::Refresh => self.composite_pass(seen.surface_ready, seen.rendered@),
            WindowEvent::Resize => self.resized(seen.coordinates),
            WindowEvent::MouseWindowEventClass(document, event) => self.mouse_handled(
                document,
                event,
            ),
            WindowEvent::MouseWindowMoveEventClass(document, cursor) => self.mouse_moved(
                document,
                cursor,
            ),
            WindowEvent::Touch(document, event_type, identifier, location) => self.with_area_of(
                document,
                |a: AreaView| a.touched(event_type, identifier, location),
            ),
            WindowEvent::Scroll(document, delta, cursor, phase) => self.with_area_of(
                document,
                |a: AreaView| a.scrolled(delta, cursor, phase),
            ),
            WindowEvent::Zoom(document, magnification) => self.with_area_of(
                document,
                |a: AreaView| a.page_zoomed_by(magnification),
            ),
            WindowEvent::ResetZoom(document) => self.with_area_of(
                document,
                |a: AreaView| a.with_page_zoom(Fixed { raw: UNIT }),
            ),
            WindowEvent::PinchZoom(document, magnification) => self.with_area_of(
                document,
                |a: AreaView| a.pinch_zoom_queued(magnification),
            ),
            WindowEvent::Quit => self.quit(),
            _ => self,
        }
    }

    /// What an event of the embedder's window asks for.
    pub open spec fn window_event_effects(self, event: WindowEvent, seen: Observations) -> Seq<
        Effect,
    > {
        match event {
            WindowEvent::Refresh => self.composite_pass_effects(
                seen.surface_ready,
                seen.rendered@,
            ),
            WindowEvent::Resize => resize_effects(self.areas, seen.coordinates),
            WindowEvent::MouseWindowEventClass(document, event) => self.mouse_effects(
                document,
                event,
                seen.hit,
            ),
            WindowEvent::MouseWindowMoveEventClass(document, cursor) => self.mouse_move_effects(
                document,
                cursor,
                seen.hit,
            ),
            WindowEvent::Touch(document, event_type, identifier, location) => self.effects_of_area(
                document,
                |a: AreaView| a.touch_event_effects(event_type, identifier, location, seen.hit),
            ),
            WindowEvent::Zoom(document, magnification) => self.effects_of_area(
                document,
                |a: AreaView| a.page_zoomed_by(magnification).page_zoom_effects(),
            ),
            WindowEvent::ResetZoom(document) => self.effects_of_area(
                document,
                |a: AreaView| a.with_page_zoom(Fixed { raw: UNIT }).page_zoom_effects(),
            ),
            WindowEvent::Quit => self.quit_effects(),
            WindowEvent::ToggleWebRenderDebug(option) => seq![Effect::ToggleDebug(option)]
                + frame_requests(self.areas),
            WindowEvent::CaptureWebRender => seq![Effect::SaveCapture],
            _ => Seq::empty(),
        }
    }

    /// The compositor after one message of a synchronous repaint.
    pub open spec fn repainted(
        self,
        msg: Msg,
        surface_ready: bool,
        rendered: Seq<Entry<Epoch>>,
    ) -> IOCompositorView {
        if msg is Recomposite {
            self.handled(msg).composite_pass(surface_ready, rendered)
        } else {
            self.handled(msg)
        }
    }

    /// What one message of a synchronous repaint asks for.
    pub open spec fn repaint_effects(
        self,
        msg: Msg,
        surface_ready: bool,
        rendered: Seq<Entry<Epoch>>,
    ) -> Seq<Effect> {
        if msg is Recomposite {
            self.handle_effects(msg) + self.handled(msg).composite_pass_effects(
                surface_ready,
                rendered,
            )
        } else {
            self.handle_effects(msg)
        }
    }

    /// Whether a synchronous repaint waits for a further message: not after
    /// a composite request, not once message handling has stopped, and not
    /// while the shutdown is under way.
    pub open spec fn repaint_continues(self, msg: Msg) -> bool {
        !(msg is Recomposite) && self.keeps_going(msg) && !(self.handled(msg).shutdown_state
            is ShuttingDown)
    }
}

/// The pipelines of a run of entries, in order.
pub open spec fn entry_ids<V>(entries: Seq<Entry<V>>) -> Seq<PipelineId> {
    Seq::new(entries.len(), |i: int| entries[i].id)
}


/// Binding the pipelines of two runs one after the other binds the
/// pipelines of the joined run.
pub proof fn lemma_bound_concat(
    entries: Seq<Entry<PipelineDetails>>,
    first: Seq<CompositionPipeline>,
    second: Seq<CompositionPipeline>,
)
    ensures
        bound(entries, first + second) == bound(bound(entries, first), second),
    decreases second.len(),
{
    if second.len() == 0 {
        assert(first + second =~= first);
    } else {
        lemma_bound_concat(entries, first, second.drop_last());
        assert((first + second).drop_last() =~= first + second.drop_last());
        assert((first + second).last() == second.last());
    }
}

/// Keeping a value for a pipeline and then another keeps the other.
pub proof fn lemma_insert_twice<V>(entries: Seq<Entry<V>>, id: PipelineId, first: V, second: V)
    ensures
        inserted(inserted(entries, id, first), id, second) == inserted(entries, id, second),
{
    crate::pipeline::lemma_position_of(entries, id);
    let once = inserted(entries, id, first);
    let at = crate::pipeline::position_of(entries, id);
    crate::pipeline::lemma_position_is_first(once, id, at);
    assert(inserted(once, id, second) =~= inserted(entries, id, second));
}

/// Whether every pipeline that is bound is bound under its own identifier.
pub open spec fn bound_by_own_id(entries: Seq<Entry<PipelineDetails>>) -> bool {
    forall|i: int|
        0 <= i < entries.len() ==> ((#[trigger] entries[i]).value.pipeline matches Some(pipeline)
            ==> pipeline.id == entries[i].id)
}

/// Whether the table of pipelines is a map whose bound pipelines carry
/// the identifier that they are kept under.
pub open spec fn pipelines_wf(entries: Seq<Entry<PipelineDetails>>) -> bool {
    distinct(entries) && bound_by_own_id(entries)
}

impl IOCompositorView {
    /// What holds of every compositor: no pipeline has two entries in the
    /// table or two pending paint-time requests, every bound pipeline is
    /// kept under its own identifier, and every viewport is well formed.
    pub open spec fn wf(self) -> bool {
        &&& pipelines_wf(self.pipeline_details)
        &&& distinct(self.pending_paint_metrics)
        &&& forall|i: int| 0 <= i < self.areas.len() ==> (#[trigger] self.areas[i]).wf()
    }
}


impl IOCompositorView {
    /// The position of the first message of a batch after which message
    /// handling stops, or the length of the batch if it is handled to its end.
    pub open spec fn first_refused(self, msgs: Seq<Msg>) -> int {
        first_index(msgs, |m: Msg| !self.keeps_going(m))
    }

    /// The messages of a batch that are handled, in their order: all of
    /// them up to and including the first after which message handling
    /// stops. The messages after that one are dropped.
    pub open spec fn to_handle(self, msgs: Seq<Msg>) -> Seq<Msg> {
        let at = self.first_refused(msgs);
        if at < msgs.len() {
            msgs.take(at + 1)
        } else {
            msgs
        }
    }

    /// The compositor after the messages of a run were handled one after
    /// the other.
    pub open spec fn handled_in_order(self, msgs: Seq<Msg>) -> IOCompositorView
        decreases msgs.len(),
    {
        if msgs.len() == 0 {
            self
        } else {
            self.handled_in_order(msgs.drop_last()).handled(msgs.last())
        }
    }

    /// Whether a batch of messages is handled to its end.
    pub open spec fn handles_all(self, msgs: Seq<Msg>) -> bool {
        forall|i: int| 0 <= i < msgs.len() ==> self.keeps_going(#[trigger] msgs[i])
    }
}

} // verus!
