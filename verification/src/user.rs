use crate::status::classify;
use crate::status::spec_classify;
use crate::status::ErrorKind;
use crate::status::StatusOutcome;
use vstd::prelude::*;

verus! {

/// Response of the collection-returning lookup: every matching record.
#[derive(Debug, Clone, PartialEq, Eq)]
pub struct GetResponse<U> {
    pub users: Vec<U>,
}

/// Response of the singular by-id lookup: the first matching record, if any;
/// an absent record is a successful, empty result, not an error.
#[derive(Debug, Clone, PartialEq, Eq)]
pub struct GetByIdResponse<U> {
    pub user: Option<U>,
}

/// Response of the update operation: the record as stored.
#[derive(Debug, Clone, PartialEq, Eq)]
pub struct UpdateResponse<U> {
    pub user: Option<U>,
}

/// Response of the profile lookup.
#[derive(Debug, Clone, PartialEq, Eq)]
pub struct GetProfileResponse<U> {
    pub user: Option<U>,
}

/// The per-operation dispatch rules of the user service. The remote store
/// client is an external collaborator: each operation here receives the
/// client's already-classified result and turns it into the RPC outcome, so
/// the dispatcher itself holds no state.
pub struct UserService {}

impl UserService {
    pub fn new() -> (s: Self) {
        UserService {}
    }

    /// Key/value lookup: a successful dependency result is wrapped whole —
    /// the full collection, however many records it holds — and a failure is
    /// routed through the uniform classifier.
    pub fn get<U>(&self, dep: Result<Vec<U>, ErrorKind>) -> (r: StatusOutcome<GetResponse<U>>)
        ensures
            dep matches Ok(users) ==> r == StatusOutcome::<GetResponse<U>>::Success(
                (GetResponse { users }),
            ),
            dep matches Err(e) ==> r == spec_classify::<GetResponse<U>>(e),
    {
        match dep {
            Ok(users) => StatusOutcome::Success(GetResponse { users }),
            Err(e) => classify(e),
        }
    }

    /// The by-id lookup queries the dependency on the fixed `"user_id"` key,
    /// with the caller's identifier as the value.
    pub fn get_by_id_query(&self, user_id: String) -> (q: (String, String))
        ensures
            q.0@ == "user_id"@,
            q.1 == user_id,
    {
        ("user_id".to_owned(), user_id)
    }

    /// Singular lookup: on success the first matching record if one exists,
    /// else an absent record — never an error; a failure is routed through
    /// the uniform classifier.
    pub fn get_by_id<U>(&self, dep: Result<Vec<U>, ErrorKind>) -> (r: StatusOutcome<
        GetByIdResponse<U>,
    >)
        ensures
            dep matches Ok(users) ==> r == StatusOutcome::<GetByIdResponse<U>>::Success(
                (GetByIdResponse {
                    user: if users@.len() > 0 {
                        Some(users@[0])
                    } else {
                        None
                    },
                }),
            ),
            dep matches Err(e) ==> r == spec_classify::<GetByIdResponse<U>>(e),
    {
        match dep {
            Ok(users) => {
                let mut users = users;
                if users.len() > 0 {
                    let first = users.remove(0);
                    StatusOutcome::Success(GetByIdResponse { user: Some(first) })
                } else {
                    StatusOutcome::Success(GetByIdResponse { user: None })
                }
            },
            Err(e) => classify(e),
        }
    }

    /// Update: a successful dependency result is wrapped as the stored
    /// record; a failure is routed through the uniform classifier.
    pub fn update<U>(&self, dep: Result<U, ErrorKind>) -> (r: StatusOutcome<UpdateResponse<U>>)
        ensures
            dep matches Ok(user) ==> r == StatusOutcome::<UpdateResponse<U>>::Success(
                (UpdateResponse { user: Some(user) }),
            ),
            dep matches Err(e) ==> r == spec_classify::<UpdateResponse<U>>(e),
    {
        match dep {
            Ok(user) => StatusOutcome::Success(UpdateResponse { user: Some(user) }),
            Err(e) => classify(e),
        }
    }

    /// Validation for the profile lookup, decided before the dependency is
    /// ever contacted: an empty identifier is rejected immediately with
    /// `InvalidArgument("user id cannot be empty")`; any non-empty
    /// identifier is accepted.
    pub fn get_profile_request<U>(&self, user_id: &str) -> (r: Result<
        (),
        StatusOutcome<GetProfileResponse<U>>,
    >)
        ensures
            user_id@.len() == 0 ==> (r matches Err(e) && e matches StatusOutcome::InvalidArgument(
                m,
            ) && m@ == "user id cannot be empty"@),
            user_id@.len() > 0 ==> r is Ok,
    {
        if user_id.is_empty() {
            Err(StatusOutcome::InvalidArgument("user id cannot be empty".to_owned()))
        } else {
            Ok(())
        }
    }

    /// Profile lookup: a successful dependency result is wrapped as the
    /// found record; a failure is routed through the uniform classifier.
    pub fn get_profile<U>(&self, dep: Result<U, ErrorKind>) -> (r: StatusOutcome<
        GetProfileResponse<U>,
    >)
        ensures
            dep matches Ok(user) ==> r == StatusOutcome::<GetProfileResponse<U>>::Success(
                (GetProfileResponse { user: Some(user) }),
            ),
            dep matches Err(e) ==> r == spec_classify::<GetProfileResponse<U>>(e),
    {
        match dep {
            Ok(user) => StatusOutcome::Success(GetProfileResponse { user: Some(user) }),
            Err(e) => classify(e),
        }
    }
}

} // verus!
