//! Identifiers of pipelines, documents and frames, and the tree of pipelines
//! that a viewport is bound to.

use vstd::prelude::*;

verus! {

/// Identifies one content pipeline.
#[derive(Clone, Copy, Debug, PartialEq, Eq, Hash, Structural)]
pub struct PipelineId {
    pub namespace_id: u32,
    pub index: u32,
}

/// The rendering backend's name for a pipeline.
#[derive(Clone, Copy, Debug, PartialEq, Eq, Hash, Structural)]
pub struct WebRenderPipelineId(pub u32, pub u32);

/// Identifies a top-level browsing context.
#[derive(Clone, Copy, Debug, PartialEq, Eq, Hash, Structural)]
pub struct TopLevelBrowsingContextId {
    pub namespace_id: u32,
    pub index: u32,
}

/// Identifies one document of the rendering backend.
#[derive(Clone, Copy, Debug, PartialEq, Eq, Hash, Structural)]
pub struct DocumentId {
    pub namespace: u32,
    pub id: u32,
}

/// The version of a pipeline's content that a frame shows.
#[derive(Clone, Copy, Debug, PartialEq, Eq, Hash, Structural)]
pub struct Epoch(pub u32);

/// Stands for the channel on which one request is answered.
#[derive(Clone, Copy, Debug, PartialEq, Eq, Hash, Structural)]
pub struct ReplyId(pub u64);

/// Stands for a callback that was posted to the compositor.
#[derive(Clone, Copy, Debug, PartialEq, Eq, Hash, Structural)]
pub struct CallbackId(pub u64);

/// What the compositor holds of one content pipeline.
#[derive(Clone, Copy, Debug, PartialEq, Eq, Hash, Structural)]
pub struct CompositionPipeline {
    pub id: PipelineId,
    pub top_level_browsing_context_id: TopLevelBrowsingContextId,
}

/// A pipeline and the pipelines nested in it.
#[derive(Debug)]
pub struct SendableFrameTree {
    pub pipeline: CompositionPipeline,
    pub children: Vec<SendableFrameTree>,
}

impl PipelineId {
    /// The backend's name for this pipeline.
    pub open spec fn spec_to_webrender(self) -> WebRenderPipelineId {
        WebRenderPipelineId(self.namespace_id, self.index)
    }

    /// The pipeline that the backend names `id`.
    pub open spec fn spec_from_webrender(id: WebRenderPipelineId) -> PipelineId {
        PipelineId { namespace_id: id.0, index: id.1 }
    }

    pub fn to_webrender(&self) -> (r: WebRenderPipelineId)
        ensures
            r == self.spec_to_webrender(),
    {
        WebRenderPipelineId(self.namespace_id, self.index)
    }

    /// The backend never names a pipeline with index zero.
    pub fn from_webrender(id: WebRenderPipelineId) -> (r: PipelineId)
        requires
            id.1 != 0,
        ensures
            r == PipelineId::spec_from_webrender(id),
            r.spec_to_webrender() == id,
    {
        PipelineId { namespace_id: id.0, index: id.1 }
    }
}

/// The pipelines of a tree in the order in which they are bound: a pipeline
/// before the pipelines nested in it, siblings from first to last.
pub open spec fn tree_pipelines(tree: SendableFrameTree) -> Seq<CompositionPipeline>
    decreases tree,
{
    seq![tree.pipeline] + forest_pipelines(tree.children@, 0)
}

/// The pipelines of the trees from position `from` on.
pub open spec fn forest_pipelines(trees: Seq<SendableFrameTree>, from: int) -> Seq<
    CompositionPipeline,
>
    decreases trees, trees.len() - from,
{
    if 0 <= from < trees.len() {
        tree_pipelines(trees[from]) + forest_pipelines(trees, from + 1)
    } else {
        Seq::empty()
    }
}

} // verus!
