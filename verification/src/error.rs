use vstd::prelude::*;

verus! {

/// Errors of the repositories.
#[derive(Debug)]
pub enum DbError {
    /// An entity with the same id is already stored.
    AlreadyExists(String),
    /// The store failed for another reason, described by the message.
    Generic(String),
}

/// The result of a repository operation.
pub type DbResult<T> = Result<T, DbError>;

/// The message of the error that a second control plane with the id `id` gets.
pub open spec fn already_exists_message(id: Seq<char>) -> Seq<char> {
    "Control plane with id "@ + id + " already exists"@
}

/// Builds the message of the error that a second control plane with the id `id` gets.
pub fn control_plane_exists_message(id: &str) -> (msg: String)
    ensures
        msg@ == already_exists_message(id@),
{
    let mut msg = String::from_str("Control plane with id ");
    msg.append(id);
    msg.append(" already exists");
    msg
}

/// `res` is the error for a second control plane with the id `id`.
pub open spec fn is_already_exists<T>(res: DbResult<T>, id: Seq<char>) -> bool {
    res matches Err(DbError::AlreadyExists(msg)) && msg@ == already_exists_message(id)
}

} // verus!
