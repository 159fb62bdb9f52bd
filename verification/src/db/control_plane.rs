use vstd::prelude::*;

use crate::error::DbResult;
use crate::model::control_plane::ControlPlane;

pub mod memory;

verus! {

/// A store of control planes, keyed by their ids.
pub trait ControlPlaneRepo {
    /// The unit of work that each operation runs in.
    type Transaction;

    /// Stores `control_plane`; fails if a control plane with its id is stored already.
    fn create(&mut self, tx: &mut Self::Transaction, control_plane: &ControlPlane) -> DbResult<()>;

    /// The control plane stored with the id `control_plane_id`, if there is one.
    fn fetch_by_id(
        &self,
        tx: &mut Self::Transaction,
        control_plane_id: &str,
    ) -> DbResult<Option<ControlPlane>>;
}

} // verus!
