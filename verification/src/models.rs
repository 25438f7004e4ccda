//! The rows of the service's two tables.

use vstd::prelude::*;

verus! {

/// A request that waits for (or has received) the approval of another user.
/// `approver` and `requestor` are account ids; `filename` names the
/// document stored with the request under `uploads/`.
#[derive(Clone, Debug)]
pub struct Ticket {
    pub id: Option<i32>,
    pub description: String,
    pub approved: bool,
    pub approver: i32,
    pub requestor: i32,
    pub filename: String,
}

/// A user of the service. `password` holds the PHC string of the salted
/// Argon2 hash, never the password itself.
#[derive(Clone, Debug)]
pub struct Account {
    pub id: Option<i32>,
    pub email: String,
    pub firstname: String,
    pub lastname: String,
    pub password: String,
}

impl Ticket {
    /// A field-by-field copy of the row.
    pub(crate) fn duplicate(&self) -> (r: Ticket)
        ensures
            r == *self,
    {
        Ticket {
            id: self.id,
            description: self.description.clone(),
            approved: self.approved,
            approver: self.approver,
            requestor: self.requestor,
            filename: self.filename.clone(),
        }
    }
}

} // verus!
