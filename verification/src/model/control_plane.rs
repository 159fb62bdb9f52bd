use vstd::prelude::*;
use vstd::std_specs::cmp::PartialEqSpec;

verus! {

/// A control plane that a data flow reports back to. The `url` is the base
/// address used to build control-plane notification callbacks. Data flows
/// reference a control plane by its `id`.
#[derive(Debug)]
pub struct ControlPlane {
    pub id: String,
    pub url: String,
}

/// What a control plane is, as plain values.
pub ghost struct ControlPlaneView {
    pub id: Seq<char>,
    pub url: Seq<char>,
}

impl View for ControlPlane {
    type V = ControlPlaneView;

    open spec fn view(&self) -> ControlPlaneView {
        ControlPlaneView { id: self.id@, url: self.url@ }
    }
}

impl ControlPlane {
    /// A control plane with the given id and base url.
    pub fn new(id: String, url: String) -> (res: ControlPlane)
        ensures
            res.id@ == id@,
            res.url@ == url@,
    {
        ControlPlane { id, url }
    }
}

impl Clone for ControlPlane {
    fn clone(&self) -> (res: Self)
        ensures
            res@ == self@,
    {
        ControlPlane { id: self.id.clone(), url: self.url.clone() }
    }
}

impl PartialEq for ControlPlane {
    fn eq(&self, other: &Self) -> (res: bool)
        ensures
            res <==> (self.id@ == other.id@ && self.url@ == other.url@),
    {
        self.id == other.id && self.url == other.url
    }
}

impl vstd::std_specs::cmp::PartialEqSpecImpl for ControlPlane {
    open spec fn obeys_eq_spec() -> bool {
        true
    }

    open spec fn eq_spec(&self, other: &ControlPlane) -> bool {
        self@ == other@
    }
}

/// Two control planes are equal exactly when their ids are the same strings and their
/// urls are the same strings, character for character and of the same length.
pub proof fn lemma_control_plane_eq(a: ControlPlane, b: ControlPlane)
    ensures
        a.eq_spec(&b) <==> (a.id@ == b.id@ && a.url@ == b.url@),
        a.eq_spec(&b) ==> a.url@.len() == b.url@.len() && a.id@.len() == b.id@.len(),
        a.eq_spec(&a),
        a.eq_spec(&b) == b.eq_spec(&a),
{
}

} // verus!
