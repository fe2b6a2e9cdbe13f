use crate::data::ElementData;
use crate::matrix::{Matrix12, Matrix3};
use crate::models::material::IsotropicMaterial;
use crate::models::node::Node;
use vstd::prelude::*;

verus! {

/// Whether a member end transmits an internal action (`Fixed`) or not (`Free`).
#[derive(Clone, Copy, Debug, PartialEq, Eq, Structural)]
pub enum FrameEndRelease {
    Fixed,
    Free,
}

/// The release state of one member end for the six internal actions: axial
/// force `A`, shear forces `Vy` and `Vz`, torsion `T`, bending moments `My`
/// and `Mz`.
#[allow(non_snake_case)]
#[derive(Clone, Copy, Debug, PartialEq, Eq, Structural)]
pub struct FrameEndReleases {
    pub A: FrameEndRelease,
    pub Vy: FrameEndRelease,
    pub Vz: FrameEndRelease,
    pub T: FrameEndRelease,
    pub My: FrameEndRelease,
    pub Mz: FrameEndRelease,
}

impl FrameEndReleases {
    /// An end that transmits every action.
    pub open spec fn all_fixed() -> FrameEndReleases {
        FrameEndReleases {
            A: FrameEndRelease::Fixed,
            Vy: FrameEndRelease::Fixed,
            Vz: FrameEndRelease::Fixed,
            T: FrameEndRelease::Fixed,
            My: FrameEndRelease::Fixed,
            Mz: FrameEndRelease::Fixed,
        }
    }

    /// A pinned end: bending and shear are released, axial force and torsion
    /// are transmitted.
    pub open spec fn pin() -> FrameEndReleases {
        FrameEndReleases {
            A: FrameEndRelease::Fixed,
            Vy: FrameEndRelease::Free,
            Vz: FrameEndRelease::Free,
            T: FrameEndRelease::Fixed,
            My: FrameEndRelease::Free,
            Mz: FrameEndRelease::Free,
        }
    }

    /// An end that transmits every action.
    #[verifier::when_used_as_spec(all_fixed)]
    pub fn fully_fixed() -> (r: FrameEndReleases)
        ensures
            r == FrameEndReleases::all_fixed(),
    {
        FrameEndReleases {
            A: FrameEndRelease::Fixed,
            Vy: FrameEndRelease::Fixed,
            Vz: FrameEndRelease::Fixed,
            T: FrameEndRelease::Fixed,
            My: FrameEndRelease::Fixed,
            Mz: FrameEndRelease::Fixed,
        }
    }

    /// A pinned end: bending and shear are released, axial force and torsion
    /// are transmitted.
    #[verifier::when_used_as_spec(pin)]
    pub fn pinned() -> (r: FrameEndReleases)
        ensures
            r == FrameEndReleases::pin(),
    {
        FrameEndReleases {
            A: FrameEndRelease::Fixed,
            Vy: FrameEndRelease::Free,
            Vz: FrameEndRelease::Free,
            T: FrameEndRelease::Fixed,
            My: FrameEndRelease::Free,
            Mz: FrameEndRelease::Free,
        }
    }
}

/// The properties of a cross-section: area `A`, shear areas `Avy` and `Avz`,
/// torsion constant `J`, and the moments of inertia `Iy` and `Iz`.
#[allow(non_snake_case)]
#[derive(Clone, Copy, Debug)]
pub struct CrossSection<S> {
    pub A: S,
    pub Avy: S,
    pub Avz: S,
    pub J: S,
    pub Iy: S,
    pub Iz: S,
}

/// The local axes of a member, one per column and not necessarily of unit
/// length, and its cross-section.
#[derive(Clone, Copy, Debug)]
pub struct FrameGeometry<S> {
    pub local_axes: Matrix3<S>,
    pub cross_section: CrossSection<S>,
}

impl<S> FrameGeometry<S> {
    pub fn new(local_axes: Matrix3<S>, cross_section: CrossSection<S>) -> (r: FrameGeometry<S>)
        ensures
            r.local_axes == local_axes,
            r.cross_section == cross_section,
    {
        FrameGeometry { local_axes, cross_section }
    }
}

/// A frame member between two nodes, which it names by their identifiers.
#[derive(Clone, Debug)]
pub struct FrameElement<S> {
    pub id: String,
    pub start_node_id: String,
    pub end_node_id: String,
    pub start_releases: FrameEndReleases,
    pub end_releases: FrameEndReleases,
    pub geometry: FrameGeometry<S>,
    pub material: IsotropicMaterial<S>,
}

impl<S: Copy> FrameElement<S> {
    /// The coordinates of the start and the end of the member, if `data`
    /// holds both of its nodes.
    pub fn ends(&self, data: &ElementData<S>) -> (r: Option<([S; 3], [S; 3])>)
        requires
            data.wf(),
        ensures
            match r {
                Some((start, end)) => data.nodes.contains(self.start_node_id@)
                    && data.nodes.contains(self.end_node_id@) && start
                    == data.nodes@[self.start_node_id@].coordinate && end
                    == data.nodes@[self.end_node_id@].coordinate,
                None => !data.nodes.contains(self.start_node_id@) || !data.nodes.contains(
                    self.end_node_id@,
                ),
            },
    {
        let start = self.start_node(data)?.coordinate;
        let end = self.end_node(data)?.coordinate;
        Some((start, end))
    }
}

impl<S> FrameElement<S> {
    /// The node at the start of the member, if `data` holds it.
    pub fn start_node<'a>(&self, data: &'a ElementData<S>) -> (r: Option<&'a Node<S>>)
        requires
            data.wf(),
        ensures
            match r {
                Some(node) => data.nodes.contains(self.start_node_id@) && *node
                    == data.nodes@[self.start_node_id@],
                None => !data.nodes.contains(self.start_node_id@),
            },
    {
        data.nodes.get(self.start_node_id.as_str())
    }

    /// The node at the end of the member, if `data` holds it.
    pub fn end_node<'a>(&self, data: &'a ElementData<S>) -> (r: Option<&'a Node<S>>)
        requires
            data.wf(),
        ensures
            match r {
                Some(node) => data.nodes.contains(self.end_node_id@) && *node
                    == data.nodes@[self.end_node_id@],
                None => !data.nodes.contains(self.end_node_id@),
            },
    {
        data.nodes.get(self.end_node_id.as_str())
    }
}

/// The stiffness of one member in its own axes and in world axes.
///
/// `significant[i][j]` tells whether `world[i][j]` is large enough to take
/// part in the assembly of the global stiffness; entries that are not are
/// treated as zero there.
#[derive(Clone, Copy, Debug)]
pub struct FrameStiffness<S> {
    pub local: Matrix12<S>,
    pub world: Matrix12<S>,
    pub significant: Matrix12<bool>,
}

} // verus!
