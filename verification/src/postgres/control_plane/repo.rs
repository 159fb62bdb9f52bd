use vstd::prelude::*;

use super::model::ControlPlane as DbControlPlane;
use crate::error::{control_plane_exists_message, is_already_exists, DbError, DbResult};
use crate::model::control_plane::ControlPlane;

verus! {

/// The control-plane repository kept in Postgres. The queries run outside this
/// crate; what their outcomes mean for the caller is decided here.
#[derive(Default)]
pub struct PgControlPlaneRepo;

/// How an insert into the `control_planes` table ended.
pub enum InsertOutcome {
    /// The row was inserted.
    Inserted,
    /// The database refused the row: its id is taken.
    UniqueViolation,
    /// The insert failed for another reason, described by the message.
    Failed(String),
}

impl PgControlPlaneRepo {
    /// The result of `create` for a control plane whose insert ended with `outcome`.
    pub fn create_result(outcome: InsertOutcome, control_plane: &ControlPlane) -> (res: DbResult<
        (),
    >)
        ensures
            match outcome {
                InsertOutcome::Inserted => res is Ok,
                InsertOutcome::UniqueViolation => is_already_exists(res, control_plane.id@),
                InsertOutcome::Failed(e) => res matches Err(DbError::Generic(m)) && m@ == e@,
            },
    {
        match outcome {
            InsertOutcome::Inserted => Ok(()),
            InsertOutcome::UniqueViolation => Err(
                DbError::AlreadyExists(control_plane_exists_message(control_plane.id.as_str())),
            ),
            InsertOutcome::Failed(e) => Err(DbError::Generic(e)),
        }
    }

    /// The result of `fetch_by_id` for a select that gave `outcome`: the row as a
    /// control plane, nothing, or the failure as a generic error.
    pub fn fetch_result(outcome: Result<Option<DbControlPlane>, String>) -> (res: DbResult<
        Option<ControlPlane>,
    >)
        ensures
            match outcome {
                Ok(Some(row)) => res matches Ok(Some(cp)) && cp.id@ == row.id@ && cp.url@
                    == row.url@,
                Ok(None) => res matches Ok(None),
                Err(e) => res matches Err(DbError::Generic(m)) && m@ == e@,
            },
    {
        match outcome {
            Ok(Some(row)) => Ok(Some(ControlPlane::from(row))),
            Ok(None) => Ok(None),
            Err(e) => Err(DbError::Generic(e)),
        }
    }
}

} // verus!
