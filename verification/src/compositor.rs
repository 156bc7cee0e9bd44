//! The compositor: it owns the viewports and the table of pipelines, handles
//! the messages of its mailbox, decides when a frame is composited, and
//! drives the shutdown.
//!
//! The module `model` says what each step does to the state of the
//! compositor and what it asks for; the module `laws` holds what follows
//! from that for every run.

pub mod model;
pub mod laws;

use vstd::prelude::*;
use crate::area::model::AreaView;
use crate::area::{Area, HitTestItem, ViewportConstraints};
use crate::compositor::laws::{
    lemma_area_change_keeps_form, lemma_bookkeeping_keeps_form,
    lemma_composited_is_well_formed, lemma_flush_all_keeps_form, lemma_handled_is_well_formed,
    lemma_new_area_keeps_form, lemma_unresolved_stay_distinct,
};
use crate::compositor::model::{
    IOCompositorView, acknowledged_all, all_ticks, animation_effects, any_animating, any_ticked,
    bound, collapsed, entry_ids, epoch_entries, flush_all_effects, flushed_all, frame_requests,
    is_ticked, lemma_bound_concat, lemma_insert_twice, metric_effects,
    resize_effects, resized_all, scroll_entries, scroll_state_effects, tick_effects, unresolved,
};
use crate::effects::{
    AnimationTickType, ConstellationMsg, Effect, EventResult, LayoutControlMsg, ScrollState,
    TouchEventType, TouchId,
};
use crate::msg::{
    CallbackId, CompositionPipeline, DocumentId, Epoch, PipelineId, ReplyId, SendableFrameTree,
    TopLevelBrowsingContextId, forest_pipelines, tree_pipelines,
};
use crate::pipeline::{Entry, PipelineDetails, PipelineMap, removed, value_of};
use crate::scroll::ScrollLocation;
use crate::search::lemma_first_index_is;
use crate::units::{Fixed, IntPoint, Point2D, UNIT, Vector2D};
use crate::windowing::{
    AreaCoordinates, EmbedderCoordinates, MouseWindowEvent, WebRenderDebugOption, WindowEvent,
};

verus! {

/// Why a frame could not be composited.
#[derive(Clone, Copy, Debug, PartialEq, Eq, Structural)]
pub enum UnableToComposite {
    /// The embedder's surface is not ready.
    WindowUnprepared,
    /// A stable image was asked for and the scene is not stable yet.
    NotReadyToPaintImage(NotReadyToPaint),
    /// The surface is ready, but the compositor is shutting down or has
    /// shut down.
    ShuttingDown,
}

/// Why the scene is not stable yet.
#[derive(Clone, Copy, Debug, PartialEq, Eq, Structural)]
pub enum NotReadyToPaint {
    AnimationsActive,
    JustNotifiedConstellation,
    WaitingOnConstellation,
}

/// Where the compositor stands in finding out whether the rendered frames
/// show the latest content.
#[derive(Clone, Copy, Debug, PartialEq, Eq, Structural)]
pub enum ReadyState {
    Unknown,
    WaitingForConstellationReply,
    ReadyToSaveImage,
}

/// Whether a frame is to be composited.
#[derive(Clone, Copy, Debug, PartialEq, Eq, Structural)]
pub enum CompositionRequest {
    NoCompositingNecessary,
    CompositeNow(CompositingReason),
}

/// How far the shutdown has come.
#[derive(Clone, Copy, Debug, PartialEq, Eq, Structural)]
pub enum ShutdownState {
    NotShuttingDown,
    ShuttingDown,
    FinishedShuttingDown,
}

/// Where a composited frame goes.
#[derive(Clone, Copy, Debug, PartialEq, Eq, Structural)]
pub enum CompositeTarget {
    /// To the window.
    Window,
    /// To the window, and back to the caller as an image.
    WindowAndPng,
    /// To an image file.
    PngFile,
}

/// Why a composite was asked for.
#[derive(Clone, Copy, Debug, PartialEq, Eq, Structural)]
pub enum CompositingReason {
    /// We hit the delayed composition timeout.
    DelayedCompositeTimeout,
    /// The window has been scrolled and we're starting the first recomposite.
    Scroll,
    /// A scroll has continued and we need to recomposite again.
    ContinueScroll,
    /// We're performing the single composite in headless mode.
    Headless,
    /// We're performing a composite to run an animation.
    Animation,
    /// A new frame tree has been loaded.
    NewFrameTree,
    /// New painted buffers have been received.
    NewPaintedBuffers,
    /// The window has been zoomed.
    Zoom,
    /// A new frame of the backend has arrived.
    NewWebRenderFrame,
    /// The backend has processed a scroll event and has generated a new frame.
    NewWebRenderScrollFrame,
}

/// What content reports of its animations.
#[derive(Clone, Copy, Debug, PartialEq, Eq, Structural)]
pub enum AnimationState {
    AnimationsPresent,
    AnimationCallbacksPresent,
    NoAnimationsPresent,
    NoAnimationCallbacksPresent,
}

/// The settings that the compositor runs under.
#[derive(Clone, Copy, Debug, PartialEq, Eq, Structural)]
pub struct CompositorOptions {
    /// Whether the frame is to be written to a file.
    pub output_file: bool,
    /// Whether to exit once the page has loaded.
    pub exit_after_load: bool,
    /// Whether mouse events are treated as touches.
    pub convert_mouse_to_touch: bool,
}

/// The scroll offset of one node as the backend reports it.
#[derive(Clone, Copy, Debug, PartialEq, Eq, Structural)]
pub struct ScrollNodeState {
    /// The pipeline that the node belongs to.
    pub pipeline: PipelineId,
    pub scroll_id: u64,
    pub scroll_offset: Vector2D,
}

/// What the embedder observed for an event of its window.
pub struct Observations<'a> {
    /// Whether the surface is ready for a frame.
    pub surface_ready: bool,
    /// The epoch that the renderer shows of each pipeline.
    pub rendered: &'a PipelineMap<Epoch>,
    /// The geometry of the surface.
    pub coordinates: EmbedderCoordinates,
    /// What lies under the event.
    pub hit: Option<HitTestItem>,
}

/// A message of the compositor's mailbox.
#[derive(Debug)]
pub enum Msg {
    /// The constellation has shut down.
    ShutdownComplete,
    /// The animations of a pipeline started or stopped.
    ChangeRunningAnimationsState(PipelineId, AnimationState),
    /// A document shows a new tree of pipelines.
    SetFrameTree(DocumentId, SendableFrameTree),
    /// A frame is to be composited.
    Recomposite(CompositingReason),
    /// Content has handled a touch event.
    TouchEventProcessed(PipelineId, EventResult),
    /// An image of the scene is asked for.
    CreatePng(ReplyId),
    /// Content constrains the viewport of a pipeline.
    ViewportConstrained(PipelineId, ViewportConstraints),
    /// The answer to the question whether the rendered frames are the latest.
    IsReadyToSaveImageReply(bool),
    /// A pipeline became visible or invisible.
    PipelineVisibilityChanged(PipelineId, bool),
    /// A pipeline has exited and waits for an acknowledgement.
    PipelineExited(PipelineId, ReplyId),
    /// The backend has drawn the frame of a scroll; whether to composite it.
    NewScrollFrameReady(DocumentId, bool),
    /// Run a callback on the compositor's thread.
    Dispatch(CallbackId),
    /// A page has loaded.
    LoadComplete(TopLevelBrowsingContextId),
    /// The paint time of this epoch of a pipeline is asked for.
    PendingPaintMetric(PipelineId, Epoch),
    /// The size and position of the window are asked for.
    GetClientWindow(ReplyId),
    /// The size of the screen is asked for.
    GetScreenSize(ReplyId),
    /// The size of the usable part of the screen is asked for.
    GetScreenAvailSize(ReplyId),
}

/// The states of a run of viewports.
pub open spec fn area_views(areas: Seq<Area>) -> Seq<AreaView> {
    Seq::new(areas.len(), |i: int| areas[i]@)
}

/// The compositor.
pub struct IOCompositor {
    embedder_coordinates: EmbedderCoordinates,
    /// What is known of each pipeline that a message has named.
    pipeline_details: PipelineMap<PipelineDetails>,
    /// Where composited frames go.
    composite_target: CompositeTarget,
    /// Whether a frame is to be composited.
    composition_request: CompositionRequest,
    /// How far the shutdown has come.
    shutdown_state: ShutdownState,
    /// Where the compositor stands in finding out whether the scene is stable.
    ready_to_save_state: ReadyState,
    /// For each pipeline the epoch whose paint time layout has asked for.
    pending_paint_metrics: PipelineMap<Epoch>,
    areas: Vec<Area>,
    options: CompositorOptions,
}

impl View for IOCompositor {
    type V = IOCompositorView;

    closed spec fn view(&self) -> IOCompositorView {
        IOCompositorView {
            embedder_coordinates: self.embedder_coordinates,
            pipeline_details: self.pipeline_details@,
            composite_target: self.composite_target,
            composition_request: self.composition_request,
            shutdown_state: self.shutdown_state,
            ready_to_save_state: self.ready_to_save_state,
            pending_paint_metrics: self.pending_paint_metrics@,
            areas: area_views(self.areas@),
            options: self.options,
        }
    }
}

impl IOCompositor {
    /// Creates a compositor for a surface of the given geometry.
    pub fn new(embedder_coordinates: EmbedderCoordinates, options: CompositorOptions) -> (compositor:
        IOCompositor)
        ensures
            compositor@ == IOCompositorView::created(embedder_coordinates, options),
            compositor@.wf(),
    {
        let composite_target = if options.output_file {
            CompositeTarget::PngFile
        } else {
            CompositeTarget::Window
        };
        let compositor = IOCompositor {
            embedder_coordinates,
            pipeline_details: PipelineMap::new(),
            composite_target,
            composition_request: CompositionRequest::NoCompositingNecessary,
            shutdown_state: ShutdownState::NotShuttingDown,
            ready_to_save_state: ReadyState::Unknown,
            pending_paint_metrics: PipelineMap::new(),
            areas: Vec::new(),
            options,
        };
        proof {
            assert(compositor@.areas =~= Seq::<AreaView>::empty());
        }
        compositor
    }

    /// How far the shutdown has come.
    pub fn shutdown_state(&self) -> (state: ShutdownState)
        ensures
            state == self@.shutdown_state,
    {
        self.shutdown_state
    }

    /// Whether a frame is to be composited, and why.
    pub fn composition_request(&self) -> (request: CompositionRequest)
        ensures
            request == self@.composition_request,
    {
        self.composition_request
    }

    /// Where the compositor stands in finding out whether the scene is stable.
    pub fn ready_to_save_state(&self) -> (state: ReadyState)
        ensures
            state == self@.ready_to_save_state,
    {
        self.ready_to_save_state
    }

    /// Where composited frames go.
    pub fn composite_target(&self) -> (target: CompositeTarget)
        ensures
            target == self@.composite_target,
    {
        self.composite_target
    }

    /// The number of viewports.
    pub fn area_count(&self) -> (n: usize)
        ensures
            n == self@.areas.len(),
    {
        self.areas.len()
    }

    /// The viewport at a position.
    pub fn area(&self, at: usize) -> (area: &Area)
        requires
            at < self@.areas.len(),
        ensures
            area@ == self@.areas[at as int],
    {
        &self.areas[at]
    }

    /// The number of pipelines that the compositor knows of.
    pub fn pipeline_count(&self) -> (n: usize)
        ensures
            n == self@.pipeline_details.len(),
    {
        self.pipeline_details.len()
    }

    /// The pipeline at a position of the table, and what is known of it.
    pub fn pipeline_entry(&self, at: usize) -> (entry: Entry<PipelineDetails>)
        requires
            at < self@.pipeline_details.len(),
        ensures
            entry == self@.pipeline_details[at as int],
    {
        self.pipeline_details.entry(at)
    }

    /// The epoch of a pipeline whose paint time is asked for, if any.
    pub fn pending_paint_metric(&self, id: PipelineId) -> (epoch: Option<Epoch>)
        ensures
            epoch == value_of(self@.pending_paint_metrics, id),
    {
        self.pending_paint_metrics.get(id)
    }

    /// Adds a viewport for a document that the backend has added, and
    /// reports its size.
    pub fn create_area(
        &mut self,
        coords: AreaCoordinates,
        document: DocumentId,
        effects: &mut Vec<Effect>,
    ) -> (id: DocumentId)
        ensures
            id == document,
            final(self)@ == old(self)@.with_new_area(
                AreaView::created(coords, old(self)@.embedder_coordinates, document),
            ),
            final(effects)@ == old(effects)@ + AreaView::created(
                coords,
                old(self)@.embedder_coordinates,
                document,
            ).window_size_effects(crate::effects::WindowSizeType::Initial),
            old(self)@.wf() ==> final(self)@.wf(),
    {
        proof {
            if self@.wf() {
                lemma_new_area_keeps_form(
                    self@,
                    AreaView::created(coords, self@.embedder_coordinates, document),
                );
            }
        }
        let area = Area::new(coords, self.embedder_coordinates, document, effects);
        let id = area.get_id();
        self.areas.push(area);
        proof {
            assert(self@.areas =~= old(self)@.areas.push(
                AreaView::created(coords, old(self)@.embedder_coordinates, document),
            ));
        }
        id
    }

    /// Starts the shutdown unless it is under way or over.
    pub fn maybe_start_shutting_down(&mut self, effects: &mut Vec<Effect>)
        ensures
            final(self)@ == old(self)@.quit(),
            final(effects)@ == old(effects)@ + old(self)@.quit_effects(),
            old(self)@.wf() ==> final(self)@.wf(),
    {
        proof {
            if self@.wf() {
                lemma_bookkeeping_keeps_form(self@, self@.embedder_coordinates);
            }
        }
        if self.shutdown_state == ShutdownState::NotShuttingDown {
            self.start_shutting_down(effects);
        }
        proof {
            assert(effects@ =~= old(effects)@ + old(self)@.quit_effects());
        }
    }

    fn start_shutting_down(&mut self, effects: &mut Vec<Effect>)
        ensures
            final(self)@ == old(self)@.shutting_down(),
            final(effects)@ == old(effects)@.push(Effect::Constellation(ConstellationMsg::Exit)),
            old(self)@.wf() ==> final(self)@.wf(),
    {
        proof {
            if self@.wf() {
                lemma_bookkeeping_keeps_form(self@, self@.embedder_coordinates);
            }
        }
        effects.push(Effect::Constellation(ConstellationMsg::Exit));
        self.shutdown_state = ShutdownState::ShuttingDown;
    }

    fn finish_shutting_down(&mut self, effects: &mut Vec<Effect>)
        ensures
            final(self)@ == (IOCompositorView {
                shutdown_state: ShutdownState::FinishedShuttingDown,
                ..old(self)@
            }),
            final(effects)@ == old(effects)@ + seq![Effect::DrainMailbox, Effect::StopProfiler],
    {
        // Messages that are still in the mailbox may hold channels that block
        // another thread from finishing.
        effects.push(Effect::DrainMailbox);
        // The profiler is told to exit, and its acknowledgement is awaited.
        effects.push(Effect::StopProfiler);
        self.shutdown_state = ShutdownState::FinishedShuttingDown;
        proof {
            assert(effects@ =~= old(effects)@ + seq![Effect::DrainMailbox, Effect::StopProfiler]);
        }
    }

    fn get_area_for_wrdoc(&self, wrdoc: DocumentId) -> (at: Option<usize>)
        ensures
            match at {
                Some(at) => at < self@.areas.len() && at == self@.area_for_document(wrdoc),
                None => self@.area_for_document(wrdoc) >= self@.areas.len(),
            },
    {
        let ghost found = |a: AreaView| a.webrender_document == wrdoc;
        let mut i: usize = 0;
        while i < self.areas.len()
            invariant
                i <= self.areas.len(),
                self@.areas.len() == self.areas.len(),
                found == (|a: AreaView| a.webrender_document == wrdoc),
                forall|j: int| 0 <= j < i ==> !found(#[trigger] self@.areas[j]),
            decreases self.areas.len() - i,
        {
            if self.areas[i].get_id() == wrdoc {
                proof {
                    lemma_first_index_is(self@.areas, found, i as int);
                }
                return Some(i);
            }
            i += 1;
        }
        proof {
            lemma_first_index_is(self@.areas, found, i as int);
        }
        None
    }

    fn get_area_for_root(&self, id: PipelineId) -> (at: Option<usize>)
        ensures
            match at {
                Some(at) => at < self@.areas.len() && at == self@.area_for_pipeline(id),
                None => self@.area_for_pipeline(id) >= self@.areas.len(),
            },
    {
        let ghost found = |a: AreaView| a.root_pipeline matches Some(root) && root.id == id;
        let mut i: usize = 0;
        while i < self.areas.len()
            invariant
                i <= self.areas.len(),
                self@.areas.len() == self.areas.len(),
                found == (|a: AreaView| a.root_pipeline matches Some(root) && root.id == id),
                forall|j: int| 0 <= j < i ==> !found(#[trigger] self@.areas[j]),
            decreases self.areas.len() - i,
        {
            let is_root = match self.areas[i].root_pipeline() {
                Some(root) => root.id == id,
                None => false,
            };
            if is_root {
                proof {
                    lemma_first_index_is(self@.areas, found, i as int);
                }
                return Some(i);
            }
            i += 1;
        }
        proof {
            lemma_first_index_is(self@.areas, found, i as int);
        }
        None
    }

    /// What is known of a pipeline. A pipeline that nothing is known of is
    /// entered into the table with what is assumed of it.
    fn pipeline_details(&mut self, pipeline_id: PipelineId) -> (details: PipelineDetails)
        ensures
            details == old(self)@.details(pipeline_id),
            final(self)@ == old(self)@.with_details(pipeline_id, details),
    {
        let details = match self.pipeline_details.get(pipeline_id) {
            Some(details) => details,
            None => PipelineDetails::new(),
        };
        self.pipeline_details.insert(pipeline_id, details);
        details
    }

    /// The pipeline that is bound to an identifier, if any.
    pub fn pipeline(&self, pipeline_id: PipelineId) -> (pipeline: Option<CompositionPipeline>)
        ensures
            pipeline == self@.pipeline(pipeline_id),
    {
        match self.pipeline_details.get(pipeline_id) {
            Some(details) => details.pipeline,
            None => None,
        }
    }

    fn remove_pipeline_root_layer(&mut self, pipeline_id: PipelineId)
        ensures
            final(self)@ == (IOCompositorView {
                pipeline_details: removed(old(self)@.pipeline_details, pipeline_id),
                ..old(self)@
            }),
            final(self)@.pipeline(pipeline_id) is None,
    {
        self.pipeline_details.remove(pipeline_id);
    }

    fn composite_if_necessary(&mut self, reason: CompositingReason)
        ensures
            final(self)@ == old(self)@.requested(reason),
    {
        if self.composition_request == CompositionRequest::NoCompositingNecessary {
            self.composition_request = CompositionRequest::CompositeNow(reason);
        }
    }
}

impl IOCompositor {
    /// Sets or clears a flag of a pipeline's animations, and asks for a
    /// composite or ticks the pipeline as far as it is visible.
    fn change_running_animations_state(
        &mut self,
        pipeline_id: PipelineId,
        animation_state: AnimationState,
        effects: &mut Vec<Effect>,
    )
        ensures
            final(self)@ == old(self)@.animation_state_changed(pipeline_id, animation_state),
            final(effects)@ == old(effects)@ + old(self)@.animation_state_effects(
                pipeline_id,
                animation_state,
            ),
    {
        let details = match self.pipeline_details.get(pipeline_id) {
            Some(details) => details,
            None => PipelineDetails::new(),
        };
        match animation_state {
            AnimationState::AnimationsPresent => {
                let changed = PipelineDetails {
                    pipeline: details.pipeline,
                    animations_running: true,
                    animation_callbacks_running: details.animation_callbacks_running,
                    visible: details.visible,
                };
                self.pipeline_details.insert(pipeline_id, changed);
                if details.visible {
                    self.composite_if_necessary(CompositingReason::Animation);
                }
            },
            AnimationState::AnimationCallbacksPresent => {
                let changed = PipelineDetails {
                    pipeline: details.pipeline,
                    animations_running: details.animations_running,
                    animation_callbacks_running: true,
                    visible: details.visible,
                };
                self.pipeline_details.insert(pipeline_id, changed);
                if details.visible {
                    Self::tick_animations_for_pipeline(pipeline_id, changed, effects);
                }
            },
            AnimationState::NoAnimationsPresent => {
                let changed = PipelineDetails {
                    pipeline: details.pipeline,
                    animations_running: false,
                    animation_callbacks_running: details.animation_callbacks_running,
                    visible: details.visible,
                };
                self.pipeline_details.insert(pipeline_id, changed);
            },
            AnimationState::NoAnimationCallbacksPresent => {
                let changed = PipelineDetails {
                    pipeline: details.pipeline,
                    animations_running: details.animations_running,
                    animation_callbacks_running: false,
                    visible: details.visible,
                };
                self.pipeline_details.insert(pipeline_id, changed);
            },
        }
        proof {
            assert(effects@ =~= old(effects)@ + old(self)@.animation_state_effects(
                pipeline_id,
                animation_state,
            ));
        }
    }

    fn create_pipeline_details_for_frame_tree(&mut self, frame_tree: &SendableFrameTree)
        ensures
            final(self)@ == (IOCompositorView {
                pipeline_details: bound(old(self)@.pipeline_details, tree_pipelines(*frame_tree)),
                ..old(self)@
            }),
        decreases frame_tree,
    {
        let details = match self.pipeline_details.get(frame_tree.pipeline.id) {
            Some(details) => details,
            None => PipelineDetails::new(),
        };
        self.pipeline_details.insert(
            frame_tree.pipeline.id,
            PipelineDetails {
                pipeline: Some(frame_tree.pipeline),
                animations_running: details.animations_running,
                animation_callbacks_running: details.animation_callbacks_running,
                visible: details.visible,
            },
        );
        proof {
            let one = seq![frame_tree.pipeline];
            assert(one.drop_last() =~= Seq::<CompositionPipeline>::empty());
            assert(bound(old(self)@.pipeline_details, one.drop_last()) == old(
                self,
            )@.pipeline_details);
            assert(one.last() == frame_tree.pipeline);
            assert(self@.pipeline_details == bound(
                old(self)@.pipeline_details,
                seq![frame_tree.pipeline],
            ));
            assert(seq![frame_tree.pipeline] + Seq::<CompositionPipeline>::empty()
                =~= seq![frame_tree.pipeline]);
        }
        let ghost root = seq![frame_tree.pipeline];
        let ghost kids = frame_tree.children@;
        let ghost mut done: Seq<CompositionPipeline> = Seq::empty();
        let mut i: usize = 0;
        while i < frame_tree.children.len()
            invariant
                i <= frame_tree.children.len(),
                kids == frame_tree.children@,
                root == seq![frame_tree.pipeline],
                done + forest_pipelines(kids, i as int) == forest_pipelines(kids, 0),
                self@ == (IOCompositorView {
                    pipeline_details: bound(old(self)@.pipeline_details, root + done),
                    ..old(self)@
                }),
            decreases frame_tree.children.len() - i,
        {
            let kid = &frame_tree.children[i];
            self.create_pipeline_details_for_frame_tree(kid);
            proof {
                let more = tree_pipelines(*kid);
                lemma_bound_concat(old(self)@.pipeline_details, root + done, more);
                assert((root + done) + more =~= root + (done + more));
                assert((done + more) + forest_pipelines(kids, i + 1) =~= done + forest_pipelines(
                    kids,
                    i as int,
                ));
                done = done + more;
            }
            i += 1;
        }
        proof {
            assert(done + forest_pipelines(kids, i as int) =~= done);
        }
    }

    /// Tells the window whether anything animates, and ticks every pipeline
    /// that animates and is visible.
    pub fn process_animations(&self, effects: &mut Vec<Effect>)
        ensures
            final(effects)@ == old(effects)@ + animation_effects(self@.pipeline_details),
    {
        let ghost entries = self@.pipeline_details;
        let mut animating = false;
        let mut i: usize = 0;
        while i < self.pipeline_details.len()
            invariant
                i <= self.pipeline_details@.len(),
                entries == self.pipeline_details@,
                animating == any_ticked(entries.take(i as int)),
            decreases self.pipeline_details@.len() - i,
        {
            let details = self.pipeline_details.entry(i).value;
            proof {
                let shorter = entries.take(i as int);
                let longer = entries.take(i + 1);
                assert(longer[i as int] == entries[i as int]);
                if any_ticked(shorter) {
                    let k = choose|k: int| 0 <= k < shorter.len() && is_ticked(shorter[k].value);
                    assert(longer[k] == shorter[k]);
                }
                if any_ticked(longer) && !is_ticked(details) {
                    let k = choose|k: int| 0 <= k < longer.len() && is_ticked(longer[k].value);
                    assert(shorter[k] == longer[k]);
                }
            }
            if (details.animations_running || details.animation_callbacks_running)
                && details.visible {
                animating = true;
            }
            i += 1;
        }
        proof {
            assert(entries.take(entries.len() as int) =~= entries);
        }
        let animation_state = if animating {
            crate::windowing::AnimationState::Animating
        } else {
            crate::windowing::AnimationState::Idle
        };
        effects.push(Effect::SetAnimationState(animation_state));
        let ghost start = effects@;
        let mut i: usize = 0;
        while i < self.pipeline_details.len()
            invariant
                i <= self.pipeline_details@.len(),
                entries == self.pipeline_details@,
                effects@ == start + all_ticks(entries.take(i as int)),
            decreases self.pipeline_details@.len() - i,
        {
            let entry = self.pipeline_details.entry(i);
            proof {
                assert(entries.take(i + 1).drop_last() =~= entries.take(i as int));
            }
            if (entry.value.animations_running || entry.value.animation_callbacks_running)
                && entry.value.visible {
                Self::tick_animations_for_pipeline(entry.id, entry.value, effects);
            }
            proof {
                assert(effects@ =~= start + all_ticks(entries.take(i + 1)));
            }
            i += 1;
        }
        proof {
            assert(entries.take(entries.len() as int) =~= entries);
            assert(effects@ =~= old(effects)@ + animation_effects(self@.pipeline_details));
        }
    }

    fn tick_animations_for_pipeline(
        pipeline_id: PipelineId,
        details: PipelineDetails,
        effects: &mut Vec<Effect>,
    )
        ensures
            final(effects)@ == old(effects)@ + tick_effects(pipeline_id, details),
    {
        if details.animation_callbacks_running {
            effects.push(
                Effect::Constellation(
                    ConstellationMsg::TickAnimation(pipeline_id, AnimationTickType::Script),
                ),
            );
        }
        // Animations may need a tick in layout too.
        if details.animations_running {
            effects.push(
                Effect::Constellation(
                    ConstellationMsg::TickAnimation(pipeline_id, AnimationTickType::Layout),
                ),
            );
        }
        proof {
            assert(effects@ =~= old(effects)@ + tick_effects(pipeline_id, details));
        }
    }

    /// Whether any pipeline has animations or animation callbacks, visible or not.
    pub fn animations_active(&self) -> (active: bool)
        ensures
            active == any_animating(self@.pipeline_details),
    {
        let mut i: usize = 0;
        while i < self.pipeline_details.len()
            invariant
                i <= self.pipeline_details@.len(),
                forall|j: int|
                    0 <= j < i ==> !(#[trigger] self.pipeline_details@[j]).value.animations_running
                        && !self.pipeline_details@[j].value.animation_callbacks_running,
            decreases self.pipeline_details@.len() - i,
        {
            let details = self.pipeline_details.entry(i).value;
            if details.animations_running {
                return true;
            }
            if details.animation_callbacks_running {
                return true;
            }
            i += 1;
        }
        false
    }

    /// Finds out whether the rendered frames show the latest content and
    /// content is idle. `rendered` holds the epoch that the renderer shows
    /// of each pipeline. A positive answer counts once: the check that
    /// reports it also forgets it.
    pub fn is_ready_to_paint_image_output(
        &mut self,
        rendered: &PipelineMap<Epoch>,
        effects: &mut Vec<Effect>,
    ) -> (ready: Result<(), NotReadyToPaint>)
        ensures
            ready == old(self)@.ready_check(),
            final(self)@ == old(self)@.ready_checked(),
            final(effects)@ == old(effects)@ + old(self)@.ready_check_effects(rendered@),
            old(self)@.wf() ==> final(self)@.wf(),
    {
        proof {
            if self@.wf() {
                lemma_bookkeeping_keeps_form(self@, self@.embedder_coordinates);
            }
        }
        match self.ready_to_save_state {
            ReadyState::Unknown => {
                // The epoch of each pipeline that the renderer shows goes to
                // the constellation, which compares it with the frame tree.
                let ghost entries = self@.pipeline_details;
                let mut i: usize = 0;
                while i < self.pipeline_details.len()
                    invariant
                        i <= self.pipeline_details@.len(),
                        entries == self.pipeline_details@,
                        self@ == old(self)@,
                        effects@ == old(effects)@ + epoch_entries(
                            entries.take(i as int),
                            rendered@,
                        ),
                    decreases self.pipeline_details@.len() - i,
                {
                    let id = self.pipeline_details.entry(i).id;
                    proof {
                        assert(entries.take(i + 1).drop_last() =~= entries.take(i as int));
                    }
                    if let Some(epoch) = rendered.get(id) {
                        effects.push(Effect::PipelineEpoch(id, epoch));
                    }
                    proof {
                        assert(effects@ =~= old(effects)@ + epoch_entries(
                            entries.take(i + 1),
                            rendered@,
                        ));
                    }
                    i += 1;
                }
                proof {
                    assert(entries.take(entries.len() as int) =~= entries);
                }
                effects.push(Effect::Constellation(ConstellationMsg::IsReadyToSaveImage));
                self.ready_to_save_state = ReadyState::WaitingForConstellationReply;
                proof {
                    assert(effects@ =~= old(effects)@ + old(self)@.ready_check_effects(rendered@));
                }
                Err(NotReadyToPaint::JustNotifiedConstellation)
            },
            ReadyState::WaitingForConstellationReply => {
                // A question is outstanding: not ready yet.
                proof {
                    assert(effects@ =~= old(effects)@ + old(self)@.ready_check_effects(rendered@));
                }
                Err(NotReadyToPaint::WaitingOnConstellation)
            },
            ReadyState::ReadyToSaveImage => {
                // The answer is used up, so that the next check asks again.
                self.ready_to_save_state = ReadyState::Unknown;
                proof {
                    assert(effects@ =~= old(effects)@ + old(self)@.ready_check_effects(rendered@));
                }
                Ok(())
            },
        }
    }
}

impl IOCompositor {
    fn acknowledge_all(areas: &mut Vec<Area>)
        ensures
            area_views(final(areas)@) == acknowledged_all(area_views(old(areas)@)),
    {
        let mut i: usize = 0;
        while i < areas.len()
            invariant
                i <= areas.len(),
                areas.len() == old(areas).len(),
                forall|j: int|
                    0 <= j < i ==> (#[trigger] areas@[j])@ == (AreaView {
                        waiting_for_results_of_scroll: false,
                        ..old(areas)@[j]@
                    }),
                forall|j: int| i <= j < areas.len() ==> (#[trigger] areas@[j]) == old(areas)@[j],
            decreases areas.len() - i,
        {
            areas[i].composite_done();
            i += 1;
        }
        proof {
            assert(area_views(areas@) =~= acknowledged_all(area_views(old(areas)@)));
        }
    }

    fn flush_all(areas: &mut Vec<Area>, effects: &mut Vec<Effect>)
        ensures
            area_views(final(areas)@) == flushed_all(area_views(old(areas)@)),
            final(effects)@ == old(effects)@ + flush_all_effects(area_views(old(areas)@)),
    {
        let ghost before = area_views(old(areas)@);
        let mut i: usize = 0;
        while i < areas.len()
            invariant
                i <= areas.len(),
                areas.len() == old(areas).len(),
                before == area_views(old(areas)@),
                forall|j: int| 0 <= j < i ==> (#[trigger] areas@[j])@ == flushed_all(before)[j],
                forall|j: int| i <= j < areas.len() ==> (#[trigger] areas@[j]) == old(areas)@[j],
                effects@ == old(effects)@ + flush_all_effects(before.take(i as int)),
            decreases areas.len() - i,
        {
            proof {
                assert(before.take(i + 1).drop_last() =~= before.take(i as int));
                assert(before.take(i + 1).last() == before[i as int]);
            }
            areas[i].process_pending_scroll_events_if_needed(effects);
            proof {
                assert(effects@ =~= old(effects)@ + flush_all_effects(before.take(i + 1)));
            }
            i += 1;
        }
        proof {
            assert(before.take(before.len() as int) =~= before);
            assert(area_views(areas@) =~= flushed_all(before));
        }
    }

    fn resize_all(
        areas: &mut Vec<Area>,
        coordinates: EmbedderCoordinates,
        effects: &mut Vec<Effect>,
    )
        ensures
            area_views(final(areas)@) == resized_all(area_views(old(areas)@), coordinates),
            final(effects)@ == old(effects)@ + resize_effects(area_views(old(areas)@), coordinates),
    {
        let ghost before = area_views(old(areas)@);
        let mut i: usize = 0;
        while i < areas.len()
            invariant
                i <= areas.len(),
                areas.len() == old(areas).len(),
                before == area_views(old(areas)@),
                forall|j: int|
                    0 <= j < i ==> (#[trigger] areas@[j])@ == before[j].resized(coordinates),
                forall|j: int| i <= j < areas.len() ==> (#[trigger] areas@[j]) == old(areas)@[j],
                effects@ == old(effects)@ + resize_effects(before.take(i as int), coordinates),
            decreases areas.len() - i,
        {
            proof {
                assert(before.take(i + 1).drop_last() =~= before.take(i as int));
                assert(before.take(i + 1).last() == before[i as int]);
            }
            areas[i].on_resize_window_event(coordinates, effects);
            proof {
                assert(effects@ =~= old(effects)@ + resize_effects(
                    before.take(i + 1),
                    coordinates,
                ));
            }
            i += 1;
        }
        proof {
            assert(before.take(before.len() as int) =~= before);
            assert(area_views(areas@) =~= resized_all(before, coordinates));
        }
    }

    fn resolve_paint_metrics(&mut self, rendered: &PipelineMap<Epoch>, effects: &mut Vec<Effect>)
        ensures
            final(self)@ == (IOCompositorView {
                pending_paint_metrics: unresolved(old(self)@.pending_paint_metrics, rendered@),
                ..old(self)@
            }),
            final(effects)@ == old(effects)@ + metric_effects(
                old(self)@.pipeline_details,
                old(self)@.pending_paint_metrics,
                rendered@,
            ),
    {
        let ghost pending = self@.pending_paint_metrics;
        let ghost entries = self@.pipeline_details;
        let mut kept: Vec<Entry<Epoch>> = Vec::new();
        let mut i: usize = 0;
        while i < self.pending_paint_metrics.len()
            invariant
                i <= pending.len(),
                self@ == old(self)@,
                pending == self.pending_paint_metrics@,
                entries == self.pipeline_details@,
                kept@ == unresolved(pending.take(i as int), rendered@),
                effects@ == old(effects)@ + metric_effects(
                    entries,
                    pending.take(i as int),
                    rendered@,
                ),
            decreases pending.len() - i,
        {
            let entry = self.pending_paint_metrics.entry(i);
            proof {
                assert(pending.take(i + 1).drop_last() =~= pending.take(i as int));
                assert(pending.take(i + 1).last() == pending[i as int]);
            }
            // The renderer tells the frame that it has painted last. Where
            // that is the frame that layout asked about, the request is
            // answered and forgotten.
            let painted = match rendered.get(entry.id) {
                Some(epoch) => epoch == entry.value,
                None => false,
            };
            if painted {
                if self.pipeline(entry.id).is_some() {
                    effects.push(
                        Effect::Layout(entry.id, LayoutControlMsg::PaintMetric(entry.value)),
                    );
                }
            } else {
                kept.push(entry);
            }
            proof {
                assert(effects@ =~= old(effects)@ + metric_effects(
                    entries,
                    pending.take(i + 1),
                    rendered@,
                ));
            }
            i += 1;
        }
        proof {
            assert(pending.take(pending.len() as int) =~= pending);
            use_type_invariant(&self.pending_paint_metrics);
            lemma_unresolved_stay_distinct(pending, rendered@);
        }
        self.pending_paint_metrics = PipelineMap::from_entries(kept);
    }

    /// Composites a frame for a target, if the surface is ready, the
    /// shutdown has not begun and, where the target needs a stable image,
    /// the scene is stable. A surface that is not ready is reported as such
    /// in every state. `rendered` holds the epoch that the renderer shows of
    /// each pipeline, after it has taken in the frames that were built.
    #[verifier::rlimit(40)]
    pub fn composite_specific_target(
        &mut self,
        target: CompositeTarget,
        surface_ready: bool,
        rendered: &PipelineMap<Epoch>,
        effects: &mut Vec<Effect>,
    ) -> (result: Result<(), UnableToComposite>)
        ensures
            result == old(self)@.composite_result(target, surface_ready),
            final(self)@ == old(self)@.composited(target, surface_ready, rendered@),
            final(effects)@ == old(effects)@ + old(self)@.composite_effects(
                target,
                surface_ready,
                rendered@,
            ),
            old(self)@.wf() ==> final(self)@.wf(),
    {
        proof {
            if self@.wf() {
                lemma_composited_is_well_formed(self@, target, surface_ready, rendered@);
            }
        }
        if !surface_ready {
            proof {
                assert(effects@ =~= old(effects)@ + Seq::<Effect>::empty());
            }
            return Err(UnableToComposite::WindowUnprepared);
        }
        if self.shutdown_state != ShutdownState::NotShuttingDown {
            // Nothing is painted once the shutdown has begun.
            proof {
                assert(effects@ =~= old(effects)@ + Seq::<Effect>::empty());
            }
            return Err(UnableToComposite::ShuttingDown);
        }
        let wait_for_stable_image = match target {
            CompositeTarget::WindowAndPng | CompositeTarget::PngFile => true,
            CompositeTarget::Window => self.options.exit_after_load,
        };
        if wait_for_stable_image {
            // The image may be ready. But while animations are active they
            // are ticked instead, until the image is stable and all of them
            // have come to an end.
            if self.animations_active() {
                self.process_animations(effects);
                return Err(UnableToComposite::NotReadyToPaintImage(NotReadyToPaint::AnimationsActive));
            }
            if let Err(result) = self.is_ready_to_paint_image_output(rendered, effects) {
                return Err(UnableToComposite::NotReadyToPaintImage(result));
            }
        }
        // Paint the scene.
        effects.push(Effect::Render(self.embedder_coordinates.framebuffer));
        self.resolve_paint_metrics(rendered, effects);
        match target {
            CompositeTarget::Window => {},
            CompositeTarget::WindowAndPng => {
                effects.push(Effect::CaptureImage);
            },
            CompositeTarget::PngFile => {
                effects.push(Effect::SaveImage);
            },
        }
        // Perform the page flip.
        effects.push(Effect::Present);
        self.composition_request = CompositionRequest::NoCompositingNecessary;
        self.process_animations(effects);
        Self::acknowledge_all(&mut self.areas);
        proof {
            assert(effects@ =~= old(effects)@ + old(self)@.composite_effects(
                target,
                surface_ready,
                rendered@,
            ));
        }
        Ok(())
    }

    /// Composites a frame for the compositor's own target. A compositor that
    /// writes its frame to a file, or exits after the page has loaded, starts
    /// the shutdown once the frame is there.
    pub fn composite(
        &mut self,
        surface_ready: bool,
        rendered: &PipelineMap<Epoch>,
        effects: &mut Vec<Effect>,
    ) -> (result: Result<(), UnableToComposite>)
        ensures
            result == old(self)@.composite_result(old(self)@.composite_target, surface_ready),
            final(self)@ == old(self)@.composite_pass(surface_ready, rendered@),
            final(effects)@ == old(effects)@ + old(self)@.composite_pass_effects(
                surface_ready,
                rendered@,
            ),
            old(self)@.wf() ==> final(self)@.wf(),
    {
        let target = self.composite_target;
        let result = self.composite_specific_target(target, surface_ready, rendered, effects);
        if result.is_ok() {
            if self.options.output_file || self.options.exit_after_load {
                self.start_shutting_down(effects);
            }
        }
        proof {
            assert(effects@ =~= old(effects)@ + old(self)@.composite_pass_effects(
                surface_ready,
                rendered@,
            ));
        }
        result
    }

    /// Composites a frame to an image and answers the request for it:
    /// with the image, or with none where no frame could be composited.
    pub fn create_png(
        &mut self,
        reply: ReplyId,
        surface_ready: bool,
        rendered: &PipelineMap<Epoch>,
        effects: &mut Vec<Effect>,
    ) -> (result: Result<(), UnableToComposite>)
        ensures
            result == old(self)@.composite_result(CompositeTarget::WindowAndPng, surface_ready),
            final(self)@ == old(self)@.composited(
                CompositeTarget::WindowAndPng,
                surface_ready,
                rendered@,
            ),
            final(effects)@ == (old(effects)@ + old(self)@.composite_effects(
                CompositeTarget::WindowAndPng,
                surface_ready,
                rendered@,
            )).push(Effect::ReplyImage(reply, result is Ok)),
            old(self)@.wf() ==> final(self)@.wf(),
    {
        let result = self.composite_specific_target(
            CompositeTarget::WindowAndPng,
            surface_ready,
            rendered,
            effects,
        );
        effects.push(Effect::ReplyImage(reply, result.is_ok()));
        result
    }

    /// One round of updates: a frame is composited if one was asked for,
    /// and then every viewport sends its pending scroll and zoom events.
    /// Returns whether the compositor is still alive.
    pub fn perform_updates(
        &mut self,
        surface_ready: bool,
        rendered: &PipelineMap<Epoch>,
        effects: &mut Vec<Effect>,
    ) -> (alive: bool)
        ensures
            alive == !(old(self)@.shutdown_state is FinishedShuttingDown),
            final(self)@ == old(self)@.updated(surface_ready, rendered@),
            final(effects)@ == old(effects)@ + old(self)@.update_effects(surface_ready, rendered@),
            old(self)@.wf() ==> final(self)@.wf(),
    {
        if self.shutdown_state == ShutdownState::FinishedShuttingDown {
            proof {
                assert(effects@ =~= old(effects)@ + Seq::<Effect>::empty());
            }
            return false;
        }
        match self.composition_request {
            CompositionRequest::NoCompositingNecessary => {},
            CompositionRequest::CompositeNow(_) => {
                let _ = self.composite(surface_ready, rendered, effects);
            },
        }
        proof {
            if self@.wf() {
                lemma_flush_all_keeps_form(self@);
            }
        }
        Self::flush_all(&mut self.areas, effects);
        proof {
            assert(effects@ =~= old(effects)@ + old(self)@.update_effects(surface_ready, rendered@));
        }
        self.shutdown_state != ShutdownState::FinishedShuttingDown
    }
}

impl IOCompositor {
    /// Whether a message may be handled now.
    pub fn expects(&self, msg: &Msg) -> (expected: bool)
        ensures
            expected == self@.expects(*msg),
    {
        match msg {
            Msg::IsReadyToSaveImageReply(_) => self.shutdown_state
                != ShutdownState::NotShuttingDown || self.ready_to_save_state
                == ReadyState::WaitingForConstellationReply,
            _ => true,
        }
    }

    fn handle_running_message(&mut self, msg: Msg, effects: &mut Vec<Effect>)
        requires
            old(self)@.expects(msg),
            old(self)@.shutdown_state is NotShuttingDown,
            !(msg is ShutdownComplete),
            !(msg is PipelineExited),
            !(msg is PendingPaintMetric),
        ensures
            final(self)@ == old(self)@.handled_running(msg),
            final(effects)@ == old(effects)@ + old(self)@.running_effects(msg),
    {
        match msg {
            Msg::ChangeRunningAnimationsState(pipeline_id, animation_state) => {
                self.change_running_animations_state(pipeline_id, animation_state, effects);
            },
            Msg::SetFrameTree(wrdoc, frame_tree) => {
                let at = self.get_area_for_wrdoc(wrdoc);
                self.create_pipeline_details_for_frame_tree(&frame_tree);
                if let Some(at) = at {
                    self.areas[at].set_frame_tree(&frame_tree, effects);
                    proof {
                        assert(self@.areas =~= old(self)@.areas.update(
                            at as int,
                            old(self)@.areas[at as int].rooted(frame_tree.pipeline),
                        ));
                    }
                }
            },
            Msg::Recomposite(reason) => {
                self.composite_if_necessary(reason);
            },
            Msg::TouchEventProcessed(pipeline_id, result) => {
                if let Some(pipeline) = self.pipeline(pipeline_id) {
                    if let Some(at) = self.get_area_for_root(pipeline.id) {
                        self.areas[at].on_touch_event_processed(result);
                        proof {
                            assert(self@.areas =~= old(self)@.areas.update(
                                at as int,
                                old(self)@.areas[at as int].touch_processed(result),
                            ));
                        }
                    }
                }
            },
            Msg::CreatePng(reply) => {
                effects.push(Effect::CreatePng(reply));
            },
            Msg::ViewportConstrained(pipeline_id, constraints) => {
                if let Some(pipeline) = self.pipeline(pipeline_id) {
                    if let Some(at) = self.get_area_for_root(pipeline.id) {
                        self.areas[at].constrain_viewport(constraints);
                        proof {
                            assert(self@.areas =~= old(self)@.areas.update(
                                at as int,
                                old(self)@.areas[at as int].constrained(constraints),
                            ));
                        }
                    }
                }
            },
            Msg::IsReadyToSaveImageReply(is_ready) => {
                if is_ready {
                    self.ready_to_save_state = ReadyState::ReadyToSaveImage;
                } else {
                    self.ready_to_save_state = ReadyState::Unknown;
                }
                self.composite_if_necessary(CompositingReason::Headless);
            },
            Msg::PipelineVisibilityChanged(pipeline_id, visible) => {
                let details = self.pipeline_details(pipeline_id);
                self.pipeline_details.insert(
                    pipeline_id,
                    PipelineDetails {
                        pipeline: details.pipeline,
                        animations_running: details.animations_running,
                        animation_callbacks_running: details.animation_callbacks_running,
                        visible,
                    },
                );
                proof {
                    lemma_insert_twice(
                        old(self)@.pipeline_details,
                        pipeline_id,
                        details,
                        PipelineDetails { visible, ..details },
                    );
                }
                if visible {
                    self.process_animations(effects);
                }
            },
            Msg::NewScrollFrameReady(wrdoc, recomposite_needed) => {
                if let Some(at) = self.get_area_for_wrdoc(wrdoc) {
                    self.areas[at].composite_done();
                    proof {
                        assert(self@.areas =~= old(self)@.areas.update(
                            at as int,
                            AreaView {
                                waiting_for_results_of_scroll: false,
                                ..old(self)@.areas[at as int]
                            },
                        ));
                    }
                }
                if recomposite_needed {
                    self.composite_if_necessary(CompositingReason::NewWebRenderScrollFrame);
                }
            },
            Msg::Dispatch(callback) => {
                effects.push(Effect::RunCallback(callback));
            },
            Msg::LoadComplete(_) => {
                // A compositor that paints for a file or for a single run
                // composites once the page is there.
                if self.options.output_file || self.options.exit_after_load {
                    self.composite_if_necessary(CompositingReason::Headless);
                }
            },
            Msg::GetClientWindow(reply) => {
                effects.push(
                    Effect::ReplyClientWindow(
                        reply,
                        self.embedder_coordinates.window_size,
                        self.embedder_coordinates.window_position,
                    ),
                );
            },
            Msg::GetScreenSize(reply) => {
                effects.push(Effect::ReplySize(reply, self.embedder_coordinates.screen));
            },
            Msg::GetScreenAvailSize(reply) => {
                effects.push(Effect::ReplySize(reply, self.embedder_coordinates.screen_avail));
            },
            _ => {},
        }
        proof {
            assert(effects@ =~= old(effects)@ + old(self)@.running_effects(msg));
        }
    }

    /// Handles one message of the mailbox. Returns whether further
    /// messages are to be handled.
    pub fn handle_browser_message(&mut self, msg: Msg, effects: &mut Vec<Effect>) -> (keep_going:
        bool)
        requires
            old(self)@.expects(msg),
        ensures
            keep_going == old(self)@.keeps_going(msg),
            final(self)@ == old(self)@.handled(msg),
            final(effects)@ == old(effects)@ + old(self)@.handle_effects(msg),
            old(self)@.wf() ==> final(self)@.wf(),
            msg is PipelineExited && !(old(self)@.shutdown_state is FinishedShuttingDown)
                ==> final(self)@.pipeline(msg->PipelineExited_0) is None,
    {
        proof {
            if self@.wf() {
                lemma_handled_is_well_formed(self@, msg);
            }
        }
        if self.shutdown_state == ShutdownState::FinishedShuttingDown {
            // Nothing is handled once the shutdown is over.
            proof {
                assert(effects@ =~= old(effects)@ + Seq::<Effect>::empty());
            }
            return false;
        }
        match msg {
            Msg::ShutdownComplete => {
                self.finish_shutting_down(effects);
                return false;
            },
            Msg::PipelineExited(pipeline_id, reply) => {
                self.remove_pipeline_root_layer(pipeline_id);
                effects.push(Effect::AcknowledgeExit(reply));
            },
            Msg::PendingPaintMetric(pipeline_id, epoch) => {
                self.pending_paint_metrics.insert(pipeline_id, epoch);
            },
            other => {
                // While the shutdown is under way nothing else is done:
                // what a message asks for may rest on what is torn down.
                if self.shutdown_state == ShutdownState::NotShuttingDown {
                    self.handle_running_message(other, effects);
                }
            },
        }
        proof {
            assert(effects@ =~= old(effects)@ + old(self)@.handle_effects(msg));
        }
        true
    }
}

/// What the backend's notifier posts to the mailbox.
pub struct RenderNotifier {}

impl RenderNotifier {
    pub fn new() -> RenderNotifier {
        RenderNotifier {  }
    }

    /// The backend has something new: a frame is to be composited.
    pub fn wake_up(&self) -> (msg: Msg)
        ensures
            msg == Msg::Recomposite(CompositingReason::NewWebRenderFrame),
    {
        Msg::Recomposite(CompositingReason::NewWebRenderFrame)
    }

    /// The backend has built a frame. The frame of a scroll is announced
    /// as such, with the word whether it is to be composited; any other
    /// frame is to be composited.
    pub fn new_frame_ready(
        &self,
        document_id: DocumentId,
        scrolled: bool,
        composite_needed: bool,
    ) -> (msg: Msg)
        ensures
            msg == (if scrolled {
                Msg::NewScrollFrameReady(document_id, composite_needed)
            } else {
                Msg::Recomposite(CompositingReason::NewWebRenderFrame)
            }),
    {
        if scrolled {
            Msg::NewScrollFrameReady(document_id, composite_needed)
        } else {
            self.wake_up()
        }
    }
}

impl IOCompositor {
    /// Takes what was drained from the mailbox and gives back the messages
    /// that count, in their order: of each run of composite requests only
    /// the first is kept. `messages_to_handle` says which of them are
    /// handled.
    pub fn receive_messages(msgs: Vec<Msg>) -> (kept: Vec<Msg>)
        ensures
            kept@ == collapsed(msgs@),
    {
        let ghost all = msgs@;
        let mut kept: Vec<Msg> = Vec::new();
        let mut found_recomposite_msg = false;
        for msg in it: msgs
            invariant
                it.seq() == all,
                kept@ == collapsed(all.take(it.index())),
                found_recomposite_msg == (it.index() > 0 && all[it.index() - 1] is Recomposite),
        {
            proof {
                assert(all.take(it.index() + 1).drop_last() =~= all.take(it.index()));
                assert(all.take(it.index() + 1).last() == msg);
                if it.index() > 0 {
                    assert(all.take(it.index() + 1)[it.index() - 1] == all[it.index() - 1]);
                }
            }
            let is_recomposite = match &msg {
                Msg::Recomposite(_) => true,
                _ => false,
            };
            if !(is_recomposite && found_recomposite_msg) {
                kept.push(msg);
            }
            found_recomposite_msg = is_recomposite;
        }
        proof {
            assert(all.take(all.len() as int) =~= all);
        }
        kept
    }

    /// The position in content space at which the backend is to be asked
    /// what lies under a position of the surface of a document's viewport.
    pub fn hit_test_at_point(&self, wrdoc: DocumentId, point: Point2D) -> (world: Option<Point2D>)
        ensures
            ({
                let at = self@.area_for_document(wrdoc);
                if at < self@.areas.len() {
                    world == Some(self@.areas[at].hit_test_point(point))
                } else {
                    world is None
                }
            }),
    {
        match self.get_area_for_wrdoc(wrdoc) {
            Some(at) => Some(self.areas[at].hit_test_at_point(point)),
            None => None,
        }
    }

    /// The geometry of the embedder's surface as the compositor knows it.
    pub fn embedder_coordinates(&self) -> (coordinates: EmbedderCoordinates)
        ensures
            coordinates == self@.embedder_coordinates,
    {
        self.embedder_coordinates
    }

    /// The pipelines whose rendered epoch a composite looks at: those of
    /// the table, and then those whose paint time is asked for.
    pub fn epoch_queries(&self) -> (ids: Vec<PipelineId>)
        ensures
            ids@ == entry_ids(self@.pipeline_details) + entry_ids(self@.pending_paint_metrics),
    {
        let mut ids: Vec<PipelineId> = Vec::new();
        let mut i: usize = 0;
        while i < self.pipeline_details.len()
            invariant
                i <= self.pipeline_details@.len(),
                ids@ == entry_ids(self.pipeline_details@).take(i as int),
            decreases self.pipeline_details@.len() - i,
        {
            ids.push(self.pipeline_details.entry(i).id);
            proof {
                assert(ids@ =~= entry_ids(self.pipeline_details@).take(i + 1));
            }
            i += 1;
        }
        let ghost first = ids@;
        let mut j: usize = 0;
        while j < self.pending_paint_metrics.len()
            invariant
                j <= self.pending_paint_metrics@.len(),
                first =~= entry_ids(self.pipeline_details@),
                ids@ == first + entry_ids(self.pending_paint_metrics@).take(j as int),
            decreases self.pending_paint_metrics@.len() - j,
        {
            ids.push(self.pending_paint_metrics.entry(j).id);
            proof {
                assert(ids@ =~= first + entry_ids(self.pending_paint_metrics@).take(j + 1));
            }
            j += 1;
        }
        proof {
            assert(ids@ =~= entry_ids(self@.pipeline_details) + entry_ids(
                self@.pending_paint_metrics,
            ));
        }
        ids
    }

    /// Whether a composite can do anything: it can until the shutdown
    /// begins. From then on no frame is composited, whatever the surface
    /// and the renderer are like, so a caller need not look at them.
    pub fn composites(&self) -> (composites: bool)
        ensures
            composites == (self@.shutdown_state is NotShuttingDown),
            !composites ==> forall|target: CompositeTarget, ready: bool, rendered: Seq<Entry<Epoch>>|
                {
                    &&& (#[trigger] self@.composited(target, ready, rendered)) == self@
                    &&& self@.composite_effects(target, ready, rendered) == Seq::<Effect>::empty()
                    &&& self@.composite_result(target, ready) is Err
                },
    {
        self.shutdown_state == ShutdownState::NotShuttingDown
    }

    /// The messages of a drained mailbox that are handled, and whether
    /// message handling goes on after them. The messages are handled in
    /// their order, up to and including the first after which handling
    /// stops: that is the word that the shutdown is complete, or any message
    /// once the shutdown has finished. The messages after that one are
    /// dropped unhandled.
    pub fn messages_to_handle(&self, kept: Vec<Msg>) -> (r: (Vec<Msg>, bool))
        ensures
            r.0@ == self@.to_handle(kept@),
            r.1 == self@.handles_all(kept@),
            r.1 == (self@.first_refused(kept@) >= kept@.len()),
    {
        let ghost all = kept@;
        let ghost refuses = |m: Msg| !self@.keeps_going(m);
        let finished = self.shutdown_state == ShutdownState::FinishedShuttingDown;
        let mut to_handle: Vec<Msg> = Vec::new();
        let mut keep_going = true;
        let ghost mut stopped_at: int = 0;
        for msg in it: kept
            invariant
                it.seq() == all,
                refuses == (|m: Msg| !self@.keeps_going(m)),
                finished == (self@.shutdown_state is FinishedShuttingDown),
                keep_going ==> to_handle@ == all.take(it.index()) && forall|j: int|
                    0 <= j < it.index() ==> !refuses(#[trigger] all[j]),
                !keep_going ==> 0 <= stopped_at < it.index() && refuses(all[stopped_at])
                    && to_handle@ == all.take(stopped_at + 1) && forall|j: int|
                    0 <= j < stopped_at ==> !refuses(#[trigger] all[j]),
        {
            if keep_going {
                let stops = finished || match &msg {
                    Msg::ShutdownComplete => true,
                    _ => false,
                };
                proof {
                    assert(all.take(it.index() + 1) =~= all.take(it.index()).push(msg));
                    if stops {
                        stopped_at = it.index();
                    }
                }
                to_handle.push(msg);
                if stops {
                    keep_going = false;
                }
            }
        }
        proof {
            if keep_going {
                assert(all.take(all.len() as int) =~= all);
                lemma_first_index_is(all, refuses, all.len() as int);
            } else {
                lemma_first_index_is(all, refuses, stopped_at);
            }
        }
        (to_handle, keep_going)
    }

    /// Whether the next round of updates composites, as far as the
    /// compositor can tell: a composite is asked for, and the shutdown has
    /// not begun. Only then what the caller observed of the surface and of
    /// the renderer bears on the round.
    pub fn composite_due(&self) -> (due: bool)
        ensures
            due == (self@.composition_request is CompositeNow && self@.shutdown_state
                is NotShuttingDown),
            !due ==> forall|ready: bool, rendered: Seq<Entry<Epoch>>|
                {
                    &&& (#[trigger] self@.updated(ready, rendered)) == self@.updated(
                        false,
                        Seq::empty(),
                    )
                    &&& self@.update_effects(ready, rendered) == self@.update_effects(
                        false,
                        Seq::empty(),
                    )
                },
    {
        let requested = match self.composition_request {
            CompositionRequest::NoCompositingNecessary => false,
            CompositionRequest::CompositeNow(_) => true,
        };
        requested && self.shutdown_state == ShutdownState::NotShuttingDown
    }

    /// Whether a frame is to be composited at the next round of updates.
    pub fn composite_requested(&self) -> (requested: bool)
        ensures
            requested == (self@.composition_request is CompositeNow),
    {
        match self.composition_request {
            CompositionRequest::NoCompositingNecessary => false,
            CompositionRequest::CompositeNow(_) => true,
        }
    }

    /// Reports the scroll offsets of a document's nodes to the layout of
    /// each pipeline that is bound: all nodes of a pipeline in one message.
    pub fn update_scroll_states(&self, nodes: &Vec<ScrollNodeState>, effects: &mut Vec<Effect>)
        ensures
            final(effects)@ == old(effects)@ + scroll_state_effects(
                self@.pipeline_details,
                nodes@,
                nodes@.len() as int,
            ),
    {
        let ghost entries = self@.pipeline_details;
        let mut i: usize = 0;
        while i < nodes.len()
            invariant
                i <= nodes.len(),
                entries == self@.pipeline_details,
                effects@ == old(effects)@ + scroll_state_effects(entries, nodes@, i as int),
            decreases nodes.len() - i,
        {
            let pipeline_id = nodes[i].pipeline;
            let mut leads = true;
            let mut j: usize = 0;
            while j < i
                invariant
                    j <= i,
                    i < nodes.len(),
                    pipeline_id == nodes@[i as int].pipeline,
                    leads == (forall|k: int|
                        0 <= k < j ==> (#[trigger] nodes@[k]).pipeline != pipeline_id),
                decreases i - j,
            {
                if nodes[j].pipeline == pipeline_id {
                    leads = false;
                }
                j += 1;
            }
            if leads && self.pipeline(pipeline_id).is_some() {
                let ghost start = effects@;
                let mut k: usize = 0;
                while k < nodes.len()
                    invariant
                        k <= nodes.len(),
                        effects@ == start + scroll_entries(nodes@, pipeline_id, k as int),
                    decreases nodes.len() - k,
                {
                    if nodes[k].pipeline == pipeline_id {
                        effects.push(
                            Effect::ScrollState(
                                pipeline_id,
                                ScrollState {
                                    scroll_id: nodes[k].scroll_id,
                                    scroll_offset: nodes[k].scroll_offset,
                                },
                            ),
                        );
                    }
                    proof {
                        assert(effects@ =~= start + scroll_entries(
                            nodes@,
                            pipeline_id,
                            k as int + 1,
                        ));
                    }
                    k += 1;
                }
                effects.push(Effect::Layout(pipeline_id, LayoutControlMsg::SetScrollStates));
            }
            proof {
                assert(effects@ =~= old(effects)@ + scroll_state_effects(
                    entries,
                    nodes@,
                    i as int + 1,
                ));
            }
            i += 1;
        }
    }

    /// A mouse button event at the viewport of a document. `hit` is what
    /// lies under the event.
    pub fn on_mouse_window_event_class(
        &mut self,
        wrdoc: DocumentId,
        mouse_window_event: MouseWindowEvent,
        hit: Option<HitTestItem>,
        effects: &mut Vec<Effect>,
    )
        ensures
            final(self)@ == old(self)@.mouse_handled(wrdoc, mouse_window_event),
            final(effects)@ == old(effects)@ + old(self)@.mouse_effects(
                wrdoc,
                mouse_window_event,
                hit,
            ),
            old(self)@.wf() ==> final(self)@.wf(),
    {
        proof {
            if self@.wf() {
                let at = mouse_window_event.spec_point();
                lemma_area_change_keeps_form(
                    self@,
                    wrdoc,
                    |a: AreaView| a.touched(TouchEventType::Down, TouchId(0), at),
                );
                lemma_area_change_keeps_form(
                    self@,
                    wrdoc,
                    |a: AreaView| a.touched(TouchEventType::Up, TouchId(0), at),
                );
            }
        }
        if let Some(at) = self.get_area_for_wrdoc(wrdoc) {
            if self.options.convert_mouse_to_touch {
                match mouse_window_event {
                    MouseWindowEvent::Click(_, _) => {},
                    MouseWindowEvent::MouseDown(_, p) => self.areas[at].on_touch_down(
                        TouchId(0),
                        p,
                        hit,
                        effects,
                    ),
                    MouseWindowEvent::MouseUp(_, p) => self.areas[at].on_touch_up(
                        TouchId(0),
                        p,
                        hit,
                        effects,
                    ),
                }
                proof {
                    assert(self@.areas =~= old(self)@.areas.update(
                        at as int,
                        self@.areas[at as int],
                    ));
                }
            } else {
                self.areas[at].dispatch_mouse_window_event_class(mouse_window_event, hit, effects);
            }
        }
        proof {
            assert(effects@ =~= old(effects)@ + old(self)@.mouse_effects(
                wrdoc,
                mouse_window_event,
                hit,
            ));
        }
    }

    /// The surface has another geometry: every viewport takes it over and
    /// reports its size.
    pub fn on_resize_window_event(
        &mut self,
        embedder_coordinates: EmbedderCoordinates,
        effects: &mut Vec<Effect>,
    )
        ensures
            final(self)@ == old(self)@.resized(embedder_coordinates),
            final(effects)@ == old(effects)@ + resize_effects(
                old(self)@.areas,
                embedder_coordinates,
            ),
            old(self)@.wf() ==> final(self)@.wf(),
    {
        proof {
            if self@.wf() {
                lemma_bookkeeping_keeps_form(self@, embedder_coordinates);
            }
        }
        self.embedder_coordinates = embedder_coordinates;
        Self::resize_all(&mut self.areas, embedder_coordinates, effects);
    }

    /// A touch event at the viewport of a document. `hit` is what lies
    /// under it.
    pub fn on_touch_event(
        &mut self,
        wrdoc: DocumentId,
        event_type: TouchEventType,
        identifier: TouchId,
        location: Point2D,
        hit: Option<HitTestItem>,
        effects: &mut Vec<Effect>,
    )
        ensures
            final(self)@ == old(self)@.with_area_of(
                wrdoc,
                |a: AreaView| a.touched(event_type, identifier, location),
            ),
            final(effects)@ == old(effects)@ + old(self)@.effects_of_area(
                wrdoc,
                |a: AreaView| a.touch_event_effects(event_type, identifier, location, hit),
            ),
            old(self)@.wf() ==> final(self)@.wf(),
    {
        proof {
            if self@.wf() {
                lemma_area_change_keeps_form(
                    self@,
                    wrdoc,
                    |a: AreaView| a.touched(event_type, identifier, location),
                );
            }
        }
        if let Some(at) = self.get_area_for_wrdoc(wrdoc) {
            self.areas[at].on_touch_event(event_type, identifier, location, hit, effects);
            proof {
                assert(self@.areas =~= old(self)@.areas.update(at as int, self@.areas[at as int]));
            }
        } else {
            proof {
                assert(effects@ =~= old(effects)@ + Seq::<Effect>::empty());
            }
        }
    }

    /// Multiplies the page zoom of a document's viewport by a factor.
    pub fn on_zoom_window_event(
        &mut self,
        wrdoc: DocumentId,
        magnification: Fixed,
        effects: &mut Vec<Effect>,
    )
        ensures
            final(self)@ == old(self)@.with_area_of(
                wrdoc,
                |a: AreaView| a.page_zoomed_by(magnification),
            ),
            final(effects)@ == old(effects)@ + old(self)@.effects_of_area(
                wrdoc,
                |a: AreaView| a.page_zoomed_by(magnification).page_zoom_effects(),
            ),
            old(self)@.wf() ==> final(self)@.wf(),
    {
        proof {
            if self@.wf() {
                lemma_area_change_keeps_form(
                    self@,
                    wrdoc,
                    |a: AreaView| a.page_zoomed_by(magnification),
                );
            }
        }
        if let Some(at) = self.get_area_for_wrdoc(wrdoc) {
            self.areas[at].on_zoom_window_event(magnification, effects);
            proof {
                assert(self@.areas =~= old(self)@.areas.update(at as int, self@.areas[at as int]));
            }
        } else {
            proof {
                assert(effects@ =~= old(effects)@ + Seq::<Effect>::empty());
            }
        }
    }

    /// Sets the page zoom of a document's viewport back to one.
    pub fn on_zoom_reset_window_event(&mut self, wrdoc: DocumentId, effects: &mut Vec<Effect>)
        ensures
            final(self)@ == old(self)@.with_area_of(
                wrdoc,
                |a: AreaView| a.with_page_zoom(Fixed { raw: UNIT }),
            ),
            final(effects)@ == old(effects)@ + old(self)@.effects_of_area(
                wrdoc,
                |a: AreaView| a.with_page_zoom(Fixed { raw: UNIT }).page_zoom_effects(),
            ),
            old(self)@.wf() ==> final(self)@.wf(),
    {
        proof {
            if self@.wf() {
                lemma_area_change_keeps_form(
                    self@,
                    wrdoc,
                    |a: AreaView| a.with_page_zoom(Fixed { raw: UNIT }),
                );
            }
        }
        if let Some(at) = self.get_area_for_wrdoc(wrdoc) {
            self.areas[at].on_zoom_reset_window_event(effects);
            proof {
                assert(self@.areas =~= old(self)@.areas.update(at as int, self@.areas[at as int]));
            }
        } else {
            proof {
                assert(effects@ =~= old(effects)@ + Seq::<Effect>::empty());
            }
        }
    }

    /// Queues a scroll event at the viewport of a document.
    pub fn on_scroll_event(
        &mut self,
        wrdoc: DocumentId,
        delta: ScrollLocation,
        cursor: IntPoint,
        phase: TouchEventType,
    )
        ensures
            final(self)@ == old(self)@.with_area_of(
                wrdoc,
                |a: AreaView| a.scrolled(delta, cursor, phase),
            ),
            old(self)@.wf() ==> final(self)@.wf(),
    {
        proof {
            if self@.wf() {
                lemma_area_change_keeps_form(
                    self@,
                    wrdoc,
                    |a: AreaView| a.scrolled(delta, cursor, phase),
                );
            }
        }
        if let Some(at) = self.get_area_for_wrdoc(wrdoc) {
            self.areas[at].on_scroll_event(delta, cursor, phase);
            proof {
                assert(self@.areas =~= old(self)@.areas.update(at as int, self@.areas[at as int]));
            }
        }
    }

    /// Queues a pinch zoom at the viewport of a document.
    pub fn on_pinch_zoom_window_event(&mut self, wrdoc: DocumentId, magnification: Fixed)
        ensures
            final(self)@ == old(self)@.with_area_of(
                wrdoc,
                |a: AreaView| a.pinch_zoom_queued(magnification),
            ),
            old(self)@.wf() ==> final(self)@.wf(),
    {
        proof {
            if self@.wf() {
                lemma_area_change_keeps_form(
                    self@,
                    wrdoc,
                    |a: AreaView| a.pinch_zoom_queued(magnification),
                );
            }
        }
        if let Some(at) = self.get_area_for_wrdoc(wrdoc) {
            self.areas[at].on_pinch_zoom_window_event(magnification);
            proof {
                assert(self@.areas =~= old(self)@.areas.update(at as int, self@.areas[at as int]));
            }
        }
    }

    /// The pointer moved over the viewport of a document. `hit` is what
    /// lies under the pointer.
    pub fn on_mouse_window_move_event_class(
        &mut self,
        wrdoc: DocumentId,
        cursor: Point2D,
        hit: Option<HitTestItem>,
        effects: &mut Vec<Effect>,
    )
        ensures
            final(self)@ == old(self)@.mouse_moved(wrdoc, cursor),
            final(effects)@ == old(effects)@ + old(self)@.mouse_move_effects(wrdoc, cursor, hit),
            old(self)@.wf() ==> final(self)@.wf(),
    {
        proof {
            if self@.wf() {
                lemma_area_change_keeps_form(
                    self@,
                    wrdoc,
                    |a: AreaView| a.touch_moved(TouchId(0), cursor),
                );
            }
        }
        if let Some(at) = self.get_area_for_wrdoc(wrdoc) {
            if self.options.convert_mouse_to_touch {
                self.areas[at].on_touch_move(TouchId(0), cursor, hit, effects);
                proof {
                    assert(self@.areas =~= old(self)@.areas.update(
                        at as int,
                        self@.areas[at as int],
                    ));
                }
            } else {
                self.areas[at].dispatch_mouse_window_move_event_class(hit, effects);
            }
        }
        proof {
            assert(effects@ =~= old(effects)@ + old(self)@.mouse_move_effects(wrdoc, cursor, hit));
        }
    }

    /// Asks for the state of the backend to be saved for debugging.
    pub fn capture_webrender(&self, effects: &mut Vec<Effect>)
        ensures
            final(effects)@ == old(effects)@.push(Effect::SaveCapture),
    {
        effects.push(Effect::SaveCapture);
    }

    /// Handles one event of the embedder's window. `seen` holds what the
    /// embedder observed for the event: the state of the surface and of the
    /// renderer for a refresh, the geometry of the surface for a resize, and
    /// for mouse and touch events what lies under the event.
    pub fn handle_window_event(
        &mut self,
        event: WindowEvent,
        seen: &Observations,
        effects: &mut Vec<Effect>,
    )
        ensures
            final(self)@ == old(self)@.window_event_handled(event, *seen),
            final(effects)@ == old(effects)@ + old(self)@.window_event_effects(event, *seen),
            old(self)@.wf() ==> final(self)@.wf(),
    {
        match event {
            WindowEvent::Idle => {},
            WindowEvent::Refresh => {
                let _ = self.composite(seen.surface_ready, seen.rendered, effects);
            },
            WindowEvent::Resize => {
                self.on_resize_window_event(seen.coordinates, effects);
            },
            WindowEvent::MouseWindowEventClass(wrdoc, mouse_window_event) => {
                self.on_mouse_window_event_class(wrdoc, mouse_window_event, seen.hit, effects);
            },
            WindowEvent::MouseWindowMoveEventClass(wrdoc, cursor) => {
                self.on_mouse_window_move_event_class(wrdoc, cursor, seen.hit, effects);
            },
            WindowEvent::Touch(wrdoc, event_type, identifier, location) => {
                self.on_touch_event(wrdoc, event_type, identifier, location, seen.hit, effects);
            },
            WindowEvent::Scroll(wrdoc, delta, cursor, phase) => {
                self.on_scroll_event(wrdoc, delta, cursor, phase);
            },
            WindowEvent::Zoom(wrdoc, magnification) => {
                self.on_zoom_window_event(wrdoc, magnification, effects);
            },
            WindowEvent::ResetZoom(wrdoc) => {
                self.on_zoom_reset_window_event(wrdoc, effects);
            },
            WindowEvent::PinchZoom(wrdoc, magnification) => {
                self.on_pinch_zoom_window_event(wrdoc, magnification);
            },
            WindowEvent::Quit => {
                self.maybe_start_shutting_down(effects);
            },
            WindowEvent::ToggleWebRenderDebug(option) => {
                self.toggle_webrender_debug(option, effects);
            },
            WindowEvent::CaptureWebRender => {
                self.capture_webrender(effects);
            },
        }
        proof {
            assert(effects@ =~= old(effects)@ + old(self)@.window_event_effects(event, *seen));
        }
    }

    /// Handles one message of a synchronous repaint, which waits for a
    /// composite request and composites at once. Returns whether the
    /// caller is to wait for a further message. A caller starts to wait
    /// only while the shutdown is not under way.
    pub fn repaint_synchronously(
        &mut self,
        msg: Msg,
        surface_ready: bool,
        rendered: &PipelineMap<Epoch>,
        effects: &mut Vec<Effect>,
    ) -> (again: bool)
        requires
            old(self)@.expects(msg),
        ensures
            again == old(self)@.repaint_continues(msg),
            final(self)@ == old(self)@.repainted(msg, surface_ready, rendered@),
            final(effects)@ == old(effects)@ + old(self)@.repaint_effects(
                msg,
                surface_ready,
                rendered@,
            ),
            old(self)@.wf() ==> final(self)@.wf(),
    {
        let need_recomposite = match &msg {
            Msg::Recomposite(_) => true,
            _ => false,
        };
        let keep_going = self.handle_browser_message(msg, effects);
        if need_recomposite {
            let _ = self.composite(surface_ready, rendered, effects);
            proof {
                assert(effects@ =~= old(effects)@ + old(self)@.repaint_effects(
                    msg,
                    surface_ready,
                    rendered@,
                ));
            }
            return false;
        }
        if !keep_going {
            return false;
        }
        self.shutdown_state != ShutdownState::ShuttingDown
    }

    /// Toggles a debugging overlay of the renderer and has every viewport
    /// drawn anew.
    pub fn toggle_webrender_debug(&self, option: WebRenderDebugOption, effects: &mut Vec<Effect>)
        ensures
            final(effects)@ == old(effects)@ + (seq![Effect::ToggleDebug(option)] + frame_requests(
                self@.areas,
            )),
    {
        effects.push(Effect::ToggleDebug(option));
        let ghost start = effects@;
        let mut i: usize = 0;
        while i < self.areas.len()
            invariant
                i <= self.areas.len(),
                self@.areas.len() == self.areas.len(),
                effects@ == start + frame_requests(self@.areas).take(i as int),
            decreases self.areas.len() - i,
        {
            self.areas[i].generate_frame(effects);
            proof {
                assert(effects@ =~= start + frame_requests(self@.areas).take(i + 1));
            }
            i += 1;
        }
        proof {
            assert(frame_requests(self@.areas).take(self@.areas.len() as int) =~= frame_requests(
                self@.areas,
            ));
        }
    }
}

} // verus!
