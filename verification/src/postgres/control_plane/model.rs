use vstd::prelude::*;
use vstd::std_specs::convert::FromSpec;

use crate::model::control_plane::ControlPlane as SdkControlPlane;

verus! {

/// A row of the `control_planes` table.
#[derive(Debug)]
pub struct ControlPlane {
    pub id: String,
    pub url: String,
}

impl Clone for ControlPlane {
    fn clone(&self) -> (res: Self)
        ensures
            res.id@ == self.id@,
            res.url@ == self.url@,
    {
        ControlPlane { id: self.id.clone(), url: self.url.clone() }
    }
}

impl PartialEq for ControlPlane {
    fn eq(&self, other: &Self) -> (res: bool)
        ensures
            res <==> (self.id@ == other.id@ && self.url@ == other.url@),
    {
        self.id == other.id && self.url == other.url
    }
}

impl vstd::std_specs::cmp::PartialEqSpecImpl for ControlPlane {
    open spec fn obeys_eq_spec() -> bool {
        true
    }

    open spec fn eq_spec(&self, other: &ControlPlane) -> bool {
        self.id@ == other.id@ && self.url@ == other.url@
    }
}

impl From<ControlPlane> for SdkControlPlane {
    /// The control plane that a row describes: the same id and url.
    fn from(control_plane: ControlPlane) -> (res: SdkControlPlane)
        ensures
            res.id@ == control_plane.id@,
            res.url@ == control_plane.url@,
    {
        SdkControlPlane { id: control_plane.id, url: control_plane.url }
    }
}

impl vstd::std_specs::convert::FromSpecImpl<ControlPlane> for SdkControlPlane {
    open spec fn obeys_from_spec() -> bool {
        true
    }

    open spec fn from_spec(control_plane: ControlPlane) -> SdkControlPlane {
        SdkControlPlane { id: control_plane.id, url: control_plane.url }
    }
}

/// Converting a row gives the control plane with the row's id as its id and the row's url
/// as its url, whatever the two strings are.
pub proof fn lemma_from_row_keeps_fields(row: ControlPlane)
    ensures
        SdkControlPlane::from_spec(row).id@ == row.id@,
        SdkControlPlane::from_spec(row).url@ == row.url@,
        SdkControlPlane::from_spec(row)@ == (crate::model::control_plane::ControlPlaneView {
            id: row.id@,
            url: row.url@,
        }),
{
}

} // verus!
