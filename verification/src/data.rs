//! The two stores of one analysis: the model, and what has been derived from
//! it.

use crate::analysis::global::GlobalStiffness;
use crate::matrix::Matrix12;
use crate::models::frame::{FrameElement, FrameStiffness};
use crate::models::node::Node;
use crate::registry::Registry;
use vstd::prelude::*;

verus! {

/// The nodes and frame members of a model, each under its identifier.
#[derive(Debug)]
pub struct ElementData<S> {
    pub frames: Registry<FrameElement<S>>,
    pub nodes: Registry<Node<S>>,
}

impl<S> ElementData<S> {
    /// Both registries are well formed.
    pub open spec fn wf(&self) -> bool {
        self.frames.wf() && self.nodes.wf()
    }

    /// A model without nodes or members.
    pub fn new() -> (r: Self)
        ensures
            r.wf(),
            r.frames@ == Map::<Seq<char>, FrameElement<S>>::empty(),
            r.nodes@ == Map::<Seq<char>, Node<S>>::empty(),
            r.frames.ids() == Seq::<Seq<char>>::empty(),
            r.nodes.ids() == Seq::<Seq<char>>::empty(),
    {
        ElementData { frames: Registry::new(), nodes: Registry::new() }
    }
}

/// What an analysis has derived from the model: the forces applied at the
/// free degrees of freedom, the stiffness of each member under the member's
/// identifier, and the global stiffness.
#[derive(Debug)]
pub struct AnalysisData<S> {
    pub applied_forces: Vec<S>,
    pub frame_stiffnesses: Registry<FrameStiffness<S>>,
    pub world_stiffness: GlobalStiffness<S>,
}

impl<S> AnalysisData<S> {
    /// The registry of member stiffnesses and the global stiffness are well
    /// formed.
    pub open spec fn wf(&self) -> bool {
        self.frame_stiffnesses.wf() && self.world_stiffness.wf()
    }

    /// The results of an analysis that has not begun.
    pub fn new() -> (r: Self)
        ensures
            r.wf(),
            r.applied_forces@ == Seq::<S>::empty(),
            r.frame_stiffnesses@ == Map::<Seq<char>, FrameStiffness<S>>::empty(),
            r.frame_stiffnesses.ids() == Seq::<Seq<char>>::empty(),
            r.world_stiffness@ == Map::<(usize, usize), Seq<S>>::empty(),
            r.world_stiffness.keys() == Seq::<(usize, usize)>::empty(),
    {
        AnalysisData {
            applied_forces: Vec::new(),
            frame_stiffnesses: Registry::new(),
            world_stiffness: GlobalStiffness::new(),
        }
    }
}

/// Registers `node` under its identifier; a node already registered under that
/// identifier is replaced.
pub fn add_node<S>(data: &mut ElementData<S>, node: Node<S>)
    requires
        old(data).wf(),
    ensures
        final(data).wf(),
        final(data).nodes@ == old(data).nodes@.insert(node.id@, node),
        final(data).nodes.ids() == old(data).nodes.ids_with(node.id@),
        final(data).nodes.values() == old(data).nodes.values_with(node.id@, node),
        final(data).frames == old(data).frames,
{
    let id = node.id.clone();
    data.nodes.insert(id, node);
}

/// The node registered under `id`, if there is one.
pub fn get_node_by_id<'a, S>(data: &'a ElementData<S>, id: &str) -> (r: Option<&'a Node<S>>)
    requires
        data.wf(),
    ensures
        match r {
            Some(node) => data.nodes.contains(id@) && *node == data.nodes@[id@],
            None => !data.nodes.contains(id@),
        },
{
    data.nodes.get(id)
}

/// Registers `frame` under its identifier; a member already registered under
/// that identifier is replaced and keeps its place in the order of members.
pub fn add_frame_element<S>(data: &mut ElementData<S>, frame: FrameElement<S>)
    requires
        old(data).wf(),
    ensures
        final(data).wf(),
        final(data).frames@ == old(data).frames@.insert(frame.id@, frame),
        final(data).frames.ids() == old(data).frames.ids_with(frame.id@),
        final(data).frames.values() == old(data).frames.values_with(frame.id@, frame),
        final(data).nodes == old(data).nodes,
{
    let id = frame.id.clone();
    data.frames.insert(id, frame);
}

/// Stores the stiffness of `frame` in its own axes and in world axes under the
/// member's identifier, with the marks that tell which world coefficients are
/// significant; a stiffness stored for the member before is replaced.
pub fn update_frame_element_stiffness<S>(
    analysis: &mut AnalysisData<S>,
    frame: &FrameElement<S>,
    local: Matrix12<S>,
    world: Matrix12<S>,
    significant: Matrix12<bool>,
)
    requires
        old(analysis).wf(),
    ensures
        final(analysis).wf(),
        final(analysis).frame_stiffnesses@ == old(analysis).frame_stiffnesses@.insert(
            frame.id@,
            FrameStiffness { local, world, significant },
        ),
        final(analysis).frame_stiffnesses.ids() == old(analysis).frame_stiffnesses.ids_with(
            frame.id@,
        ),
        final(analysis).frame_stiffnesses.values() == old(analysis).frame_stiffnesses.values_with(
            frame.id@,
            FrameStiffness { local, world, significant },
        ),
        final(analysis).applied_forces == old(analysis).applied_forces,
        final(analysis).world_stiffness == old(analysis).world_stiffness,
{
    let id = frame.id.clone();
    analysis.frame_stiffnesses.insert(id, FrameStiffness { local, world, significant });
}

/// The member registered under `id`, if there is one.
pub fn get_frame_element_by_id<'a, S>(data: &'a ElementData<S>, id: &str) -> (r: Option<
    &'a FrameElement<S>,
>)
    requires
        data.wf(),
    ensures
        match r {
            Some(frame) => data.frames.contains(id@) && *frame == data.frames@[id@],
            None => !data.frames.contains(id@),
        },
{
    data.frames.get(id)
}

} // verus!
