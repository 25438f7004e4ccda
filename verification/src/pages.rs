//! The overview page and the redirects between the pages.

use vstd::prelude::*;
use crate::models::Ticket;
use crate::reply::{Reply, Target};
use crate::ticket::{all_to_approve, all_to_request, open_approval_of, open_request_of};
use crate::user::User;

verus! {

/// What the overview page shows a logged-in user.
pub struct TemplateContext {
    pub user_id: usize,
    pub request_ticket: Vec<Ticket>,
    pub approval_ticket: Vec<Ticket>,
    pub flash: Option<String>,
}

/// The overview of `user`: the user's open requests and the requests that
/// wait for the user's approval, both empty where the tickets could not be
/// read, and the flash message left by the last route.
pub fn user_index(user: User, tickets: Option<Vec<Ticket>>, flash: Option<String>) -> (r:
    TemplateContext)
    ensures
        r.user_id == user.0,
        r.flash == flash,
        match tickets {
            Some(ts) => r.request_ticket@ == ts@.filter(|t: Ticket| open_request_of(t, user.0))
                && r.approval_ticket@ == ts@.filter(|t: Ticket| open_approval_of(t, user.0)),
            None => r.request_ticket@.len() == 0 && r.approval_ticket@.len() == 0,
        },
{
    let (request_ticket, approval_ticket) = match &tickets {
        Some(ts) => (all_to_request(ts, user.0), all_to_approve(ts, user.0)),
        None => (Vec::new(), Vec::new()),
    };
    TemplateContext { user_id: user.0, request_ticket, approval_ticket, flash }
}

/// Where `/` sends a visitor who is not logged in: to the login form.
pub fn index() -> (r: Reply)
    ensures
        r == Reply::Redirect(Target::LoginPage),
{
    Reply::Redirect(Target::LoginPage)
}

/// Where the login and sign-up forms send a user who is logged in already:
/// to the overview.
pub fn logged_in_redirect() -> (r: Reply)
    ensures
        r == Reply::Redirect(Target::Index),
{
    Reply::Redirect(Target::Index)
}

} // verus!
