//! The failures that the library reports.

use vstd::prelude::*;
use vstd::string::*;

verus! {

/// Why a step of the analysis could not be carried out.
#[derive(Clone, Debug, PartialEq, Eq)]
pub enum AnalysisError {
    /// A member names a node that the model does not hold; the node's identifier.
    NodeNotFound(String),
    /// No stiffness has been stored for a member; the member's identifier.
    ElementStiffnessNotFound(String),
    /// The end releases of a member ask for a partial release of bending and
    /// shear, for which the library has no stiffness.
    UnsupportedEndReleases,
}

impl AnalysisError {
    /// The text of the failure.
    pub open spec fn text(&self) -> Seq<char> {
        match self {
            AnalysisError::NodeNotFound(id) => "node not found: id="@ + id@,
            AnalysisError::ElementStiffnessNotFound(id) => "element stiffness not found: id="@
                + id@,
            AnalysisError::UnsupportedEndReleases => "unsupported end-release combination"@,
        }
    }

    /// The failure as text, with the identifier it concerns.
    pub fn message(&self) -> (r: String)
        ensures
            r@ == self.text(),
    {
        match self {
            AnalysisError::NodeNotFound(id) => String::from_str("node not found: id=").concat(
                id.as_str(),
            ),
            AnalysisError::ElementStiffnessNotFound(id) => String::from_str(
                "element stiffness not found: id=",
            ).concat(id.as_str()),
            AnalysisError::UnsupportedEndReleases => String::from_str(
                "unsupported end-release combination",
            ),
        }
    }
}

} // verus!
