//! Replies and the decision each handler makes once its single storage
//! call has returned: every storage outcome maps to exactly one reply.
use vstd::prelude::*;
use crate::user::User;

verus! {

/// The reply a handler sends: a payload on success, or an error status.
pub enum Reply {
    /// Status 200, with one record in the body.
    OkUser(User),
    /// Status 200, with every record in the body.
    OkUsers(Vec<User>),
    /// Status 200, after a successful rename.
    OkUpdated,
    /// Status 200, after a successful removal.
    OkDeleted,
    /// Status 404: no record matched the email.
    NotFound,
    /// Status 500: the storage call itself failed.
    ServerError,
    /// Status 400: the request body could not be decoded.
    BadRequest,
}

impl Reply {
    /// The HTTP status code the reply is sent with.
    pub open spec fn spec_status(&self) -> u16 {
        match self {
            Reply::OkUser(_) => 200,
            Reply::OkUsers(_) => 200,
            Reply::OkUpdated => 200,
            Reply::OkDeleted => 200,
            Reply::NotFound => 404,
            Reply::ServerError => 500,
            Reply::BadRequest => 400,
        }
    }

    /// The HTTP status code the reply is sent with.
    pub fn status(&self) -> (s: u16)
        ensures
            s == self.spec_status(),
    {
        match self {
            Reply::OkUser(_) => 200,
            Reply::OkUsers(_) => 200,
            Reply::OkUpdated => 200,
            Reply::OkDeleted => 200,
            Reply::NotFound => 404,
            Reply::ServerError => 500,
            Reply::BadRequest => 400,
        }
    }
}

/// What the storage layer reported for an insertion.
pub enum InsertOutcome {
    /// The record was stored and this identifier was assigned to it.
    Inserted(String),
    /// The record was stored but no identifier came back.
    NoIdAssigned,
    /// The storage call failed.
    StoreFailed,
}

/// What the storage layer reported for an unfiltered find.
pub enum FindAllOutcome {
    /// Every record in the collection.
    Found(Vec<User>),
    /// The storage call failed, or a record could not be decoded.
    StoreFailed,
}

/// What the storage layer reported for a find by email.
pub enum FindOneOutcome {
    /// The first record whose email matched.
    Found(User),
    /// No record matched.
    Missing,
    /// The storage call failed, or the record could not be decoded.
    StoreFailed,
}

/// What the storage layer reported for an update by email.
pub enum UpdateOutcome {
    /// How many records matched the email.
    Matched(u64),
    /// The storage call failed.
    StoreFailed,
}

/// What the storage layer reported for a deletion by email.
pub enum DeleteOutcome {
    /// How many records were deleted.
    Deleted(u64),
    /// The storage call failed.
    StoreFailed,
}

/// Decide the reply to a create request: success carries the created
/// record under the assigned identifier; any storage failure is a
/// server error.
pub fn create_reply(name: String, email: String, outcome: InsertOutcome) -> (r: Reply)
    ensures
        match outcome {
            InsertOutcome::Inserted(id) => r matches Reply::OkUser(u) && u@.id == Some(id@)
                && u@.name == name@ && u@.email == email@,
            InsertOutcome::NoIdAssigned => r == Reply::ServerError,
            InsertOutcome::StoreFailed => r == Reply::ServerError,
        },
{
    match outcome {
        InsertOutcome::Inserted(id) => Reply::OkUser(User { id: Some(id), name, email }),
        InsertOutcome::NoIdAssigned => Reply::ServerError,
        InsertOutcome::StoreFailed => Reply::ServerError,
    }
}

/// Decide the reply to a list request: success carries every record
/// that was found, even none; a storage failure is a server error.
pub fn list_reply(outcome: FindAllOutcome) -> (r: Reply)
    ensures
        match outcome {
            FindAllOutcome::Found(users) => r matches Reply::OkUsers(v) && v@ == users@,
            FindAllOutcome::StoreFailed => r == Reply::ServerError,
        },
{
    match outcome {
        FindAllOutcome::Found(users) => Reply::OkUsers(users),
        FindAllOutcome::StoreFailed => Reply::ServerError,
    }
}

/// Decide the reply to a fetch by email: a found record is returned, a
/// miss is not found, and only a storage failure is a server error.
pub fn find_reply(outcome: FindOneOutcome) -> (r: Reply)
    ensures
        match outcome {
            FindOneOutcome::Found(u) => r matches Reply::OkUser(x) && x@ == u@,
            FindOneOutcome::Missing => r == Reply::NotFound,
            FindOneOutcome::StoreFailed => r == Reply::ServerError,
        },
{
    match outcome {
        FindOneOutcome::Found(u) => Reply::OkUser(u),
        FindOneOutcome::Missing => Reply::NotFound,
        FindOneOutcome::StoreFailed => Reply::ServerError,
    }
}

/// Decide the reply to a rename by email: success when a record
/// matched, not found when none did, server error on storage failure.
pub fn update_reply(outcome: UpdateOutcome) -> (r: Reply)
    ensures
        match outcome {
            UpdateOutcome::Matched(n) => r == if n > 0 {
                Reply::OkUpdated
            } else {
                Reply::NotFound
            },
            UpdateOutcome::StoreFailed => r == Reply::ServerError,
        },
{
    match outcome {
        UpdateOutcome::Matched(n) => if n > 0 {
            Reply::OkUpdated
        } else {
            Reply::NotFound
        },
        UpdateOutcome::StoreFailed => Reply::ServerError,
    }
}

/// Decide the reply to a deletion by email: success when a record was
/// deleted, not found when none was, server error on storage failure.
pub fn delete_reply(outcome: DeleteOutcome) -> (r: Reply)
    ensures
        match outcome {
            DeleteOutcome::Deleted(n) => r == if n > 0 {
                Reply::OkDeleted
            } else {
                Reply::NotFound
            },
            DeleteOutcome::StoreFailed => r == Reply::ServerError,
        },
{
    match outcome {
        DeleteOutcome::Deleted(n) => if n > 0 {
            Reply::OkDeleted
        } else {
            Reply::NotFound
        },
        DeleteOutcome::StoreFailed => Reply::ServerError,
    }
}

} // verus!
