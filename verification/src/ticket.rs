//! Tickets: who sees which, who may download a ticket's document, and how a
//! new ticket row is made.

use vstd::prelude::*;
use crate::models::Ticket;
use crate::reply::{failure, success, FlashKind, Notice, Reply, Target};

verus! {

/// The text fields of a ticket that is about to be created.
pub struct TicketValues {
    pub description: String,
    pub approver_email: String,
    pub filename: String,
}

/// The account id under which the service stores a user id: the id cast to
/// `i32`, as the database column holds it.
pub open spec fn stored_id(user_id: usize) -> i32 {
    user_id as i32
}

/// A ticket that `user_id` asked for and that is still waiting.
pub open spec fn open_request_of(t: Ticket, user_id: usize) -> bool {
    t.requestor == stored_id(user_id) && !t.approved
}

/// A ticket that waits for the approval of `user_id`.
pub open spec fn open_approval_of(t: Ticket, user_id: usize) -> bool {
    t.approver == stored_id(user_id) && !t.approved
}

/// The path under which a ticket's document is stored.
pub open spec fn upload_path(name: Seq<char>) -> Seq<char> {
    "uploads/"@ + name
}

/// A ticket that lets `user_id` download the document `name`: one that
/// names that document and in which the user is the approver or the
/// requestor.
pub open spec fn grants_download(t: Ticket, name: Seq<char>, user_id: usize) -> bool {
    &&& t.filename@ == name
    &&& (t.approver == stored_id(user_id) || t.requestor == stored_id(user_id))
}

fn cast_id(user_id: usize) -> (r: i32)
    ensures
        r == stored_id(user_id),
{
    user_id as i32
}

/// The tickets, in table order, that are not approved yet and name
/// `user_id` as requestor (`as_requestor`) or as approver (otherwise).
fn open_tickets(tickets: &Vec<Ticket>, user_id: usize, as_requestor: bool) -> (r: Vec<Ticket>)
    ensures
        as_requestor ==> r@ == tickets@.filter(|t: Ticket| open_request_of(t, user_id)),
        !as_requestor ==> r@ == tickets@.filter(|t: Ticket| open_approval_of(t, user_id)),
{
    let uid = cast_id(user_id);
    let ghost pred = if as_requestor {
        |t: Ticket| open_request_of(t, user_id)
    } else {
        |t: Ticket| open_approval_of(t, user_id)
    };
    let mut r: Vec<Ticket> = Vec::new();
    let mut i: usize = 0;
    while i < tickets.len()
        invariant
            i <= tickets@.len(),
            uid == stored_id(user_id),
            pred == (if as_requestor {
                |t: Ticket| open_request_of(t, user_id)
            } else {
                |t: Ticket| open_approval_of(t, user_id)
            }),
            r@ == tickets@.take(i as int).filter(pred),
        decreases tickets@.len() - i,
    {
        let t = &tickets[i];
        let who = if as_requestor {
            t.requestor
        } else {
            t.approver
        };
        proof {
            reveal_with_fuel(Seq::<_>::filter, 1);
            assert(tickets@.take(i + 1).drop_last() =~= tickets@.take(i as int));
            assert(tickets@.take(i + 1).last() == tickets@[i as int]);
        }
        if who == uid && !t.approved {
            r.push(t.duplicate());
        }
        i = i + 1;
    }
    assert(tickets@.take(tickets@.len() as int) =~= tickets@);
    r
}

/// The user's own requests that still wait for approval, in table order.
pub fn all_to_request(tickets: &Vec<Ticket>, user_id: usize) -> (r: Vec<Ticket>)
    ensures
        r@ == tickets@.filter(|t: Ticket| open_request_of(t, user_id)),
{
    open_tickets(tickets, user_id, true)
}

/// The requests that wait for this user's approval, in table order.
pub fn all_to_approve(tickets: &Vec<Ticket>, user_id: usize) -> (r: Vec<Ticket>)
    ensures
        r@ == tickets@.filter(|t: Ticket| open_approval_of(t, user_id)),
{
    open_tickets(tickets, user_id, false)
}

/// The path of a stored document.
pub fn upload_file_path(name: &str) -> (r: String)
    ensures
        r@ == upload_path(name@),
{
    let mut p = String::from_str("uploads/");
    p.append(name);
    p
}

/// Where the document `name` lies, if `user_id` may download it: only the
/// approver and the requestor of a ticket that names the document may.
pub fn retrieve_file_path(tickets: &Vec<Ticket>, name: &String, user_id: usize) -> (r: Option<
    String,
>)
    ensures
        r.is_some() <==> exists|i: int|
            0 <= i < tickets@.len() && grants_download(#[trigger] tickets@[i], name@, user_id),
        r matches Some(p) ==> p@ == upload_path(name@),
{
    let uid = cast_id(user_id);
    let mut i: usize = 0;
    while i < tickets.len()
        invariant
            i <= tickets@.len(),
            uid == stored_id(user_id),
            forall|j: int| 0 <= j < i ==> !grants_download(#[trigger] tickets@[j], name@, user_id),
        decreases tickets@.len() - i,
    {
        let t = &tickets[i];
        if t.filename == *name && (t.approver == uid || t.requestor == uid) {
            return Some(upload_file_path(name.as_str()));
        }
        i = i + 1;
    }
    None
}

/// The row of a new ticket with the given values, approver and requestor.
pub open spec fn new_ticket_row(values: TicketValues, approver: i32, user_id: usize) -> Ticket {
    Ticket {
        id: None,
        description: values.description,
        approved: false,
        approver,
        requestor: stored_id(user_id),
        filename: values.filename,
    }
}

/// The row of a new ticket: unapproved, requested by `user_id` and to be
/// approved by the account that the approver's email named. There is none
/// where no account with an id was found for that email.
pub fn insert(ticket: &TicketValues, approver_id: Option<i32>, user_id: usize) -> (r: Option<
    Ticket,
>)
    ensures
        approver_id.is_none() ==> r.is_none(),
        approver_id matches Some(a) ==> r == Some(new_ticket_row(*ticket, a, user_id)),
{
    match approver_id {
        None => None,
        Some(a) => Some(
            Ticket {
                id: None,
                description: ticket.description.clone(),
                approved: false,
                approver: a,
                requestor: cast_id(user_id),
                filename: ticket.filename.clone(),
            },
        ),
    }
}

/// What the delete route answers once the ticket's row was deleted, or the
/// deletion failed.
pub fn delete(deleted: bool) -> (r: Reply)
    ensures
        deleted ==> r == success(Target::Index, Notice::TicketDeleted),
        !deleted ==> r == failure(Target::Index, Notice::TicketNotDeleted),
{
    if deleted {
        Reply::Flash(FlashKind::Success, Target::Index, Notice::TicketDeleted)
    } else {
        Reply::Flash(FlashKind::Error, Target::Index, Notice::TicketNotDeleted)
    }
}

/// A ticket row once it has been marked approved.
pub open spec fn marked_approved(t: Ticket) -> Ticket {
    Ticket { approved: true, ..t }
}

/// Who may download a ticket's document does not depend on whether the
/// ticket is approved: the approver and the requestor may, before and after
/// the approval, and nobody may download a document the ticket does not
/// name. So approving a ticket takes its document from nobody.
pub proof fn law_download_ignores_approval(
    tickets: Seq<Ticket>,
    i: int,
    t: Ticket,
    name: Seq<char>,
    user_id: usize,
)
    requires
        0 <= i < tickets.len(),
    ensures
        grants_download(Ticket { approved: true, ..t }, name, user_id) == grants_download(
            Ticket { approved: false, ..t },
            name,
            user_id,
        ),
        t.filename@ == name && (t.approver == stored_id(user_id) || t.requestor == stored_id(
            user_id,
        )) ==> grants_download(t, name, user_id),
        grants_download(t, name, user_id) ==> t.filename@ == name,
        (exists|j: int|
            0 <= j < tickets.len() && grants_download(#[trigger] tickets[j], name, user_id)) <==> (
        exists|j: int|
            0 <= j < tickets.len() && grants_download(
                #[trigger] tickets.update(i, marked_approved(tickets[i]))[j],
                name,
                user_id,
            )),
{
    let marked = tickets.update(i, marked_approved(tickets[i]));
    if exists|j: int| 0 <= j < tickets.len() && grants_download(#[trigger] tickets[j], name, user_id) {
        let j = choose|j: int| 0 <= j < tickets.len() && grants_download(#[trigger] tickets[j], name, user_id);
        assert(grants_download(marked[j], name, user_id));
    }
    if exists|j: int| 0 <= j < tickets.len() && grants_download(#[trigger] marked[j], name, user_id) {
        let j = choose|j: int| 0 <= j < tickets.len() && grants_download(#[trigger] marked[j], name, user_id);
        assert(grants_download(tickets[j], name, user_id));
    }
}

/// A new ticket waits: appended to the table, it comes last in its
/// requestor's open requests and, for an approver id that is not negative,
/// last in that approver's open approvals.
pub proof fn law_new_ticket_waits_for_approval(
    tickets: Seq<Ticket>,
    values: TicketValues,
    approver: i32,
    user_id: usize,
)
    requires
        approver >= 0,
    ensures
        tickets.push(new_ticket_row(values, approver, user_id)).filter(
            |t: Ticket| open_request_of(t, user_id),
        ) == tickets.filter(|t: Ticket| open_request_of(t, user_id)).push(
            new_ticket_row(values, approver, user_id),
        ),
        tickets.push(new_ticket_row(values, approver, user_id)).filter(
            |t: Ticket| open_approval_of(t, approver as usize),
        ) == tickets.filter(|t: Ticket| open_approval_of(t, approver as usize)).push(
            new_ticket_row(values, approver, user_id),
        ),
{
    let row = new_ticket_row(values, approver, user_id);
    reveal_with_fuel(Seq::<_>::filter, 1);
    assert(tickets.push(row).drop_last() =~= tickets);
    assert(stored_id(approver as usize) == approver);
}

proof fn lemma_marking_leaves_filter(
    tickets: Seq<Ticket>,
    i: int,
    pred: spec_fn(Ticket) -> bool,
)
    requires
        0 <= i < tickets.len(),
        !pred(marked_approved(tickets[i])),
    ensures
        tickets.update(i, marked_approved(tickets[i])).filter(pred).len() + (if pred(tickets[i]) {
            1int
        } else {
            0int
        }) == tickets.filter(pred).len(),
    decreases tickets.len(),
{
    reveal_with_fuel(Seq::<_>::filter, 1);
    let marked = tickets.update(i, marked_approved(tickets[i]));
    let last = tickets.len() - 1;
    if i == last {
        assert(marked.drop_last() =~= tickets.drop_last());
        assert(marked.last() == marked_approved(tickets[i]));
    } else {
        lemma_marking_leaves_filter(tickets.drop_last(), i, pred);
        assert(marked.drop_last() =~= tickets.drop_last().update(i, marked_approved(tickets[i])));
        assert(marked.last() == tickets.last());
        assert(tickets.drop_last()[i] == tickets[i]);
    }
}

/// Approving a ticket a second time changes nothing: marking a row that is
/// approved already leaves it, and so the table, as it is; marking twice is
/// marking once.
pub proof fn law_approval_is_idempotent(tickets: Seq<Ticket>, i: int)
    requires
        0 <= i < tickets.len(),
    ensures
        marked_approved(marked_approved(tickets[i])) == marked_approved(tickets[i]),
        tickets[i].approved ==> tickets.update(i, marked_approved(tickets[i])) == tickets,
        ({
            let once = tickets.update(i, marked_approved(tickets[i]));
            once.update(i, marked_approved(once[i])) == once
        }),
{
    let once = tickets.update(i, marked_approved(tickets[i]));
    assert(once.update(i, marked_approved(once[i])) =~= once);
    if tickets[i].approved {
        assert(marked_approved(tickets[i]) == tickets[i]);
        assert(tickets.update(i, marked_approved(tickets[i])) =~= tickets);
    }
}

/// Approving a ticket takes it off the open lists: once the row at `i` is
/// marked approved, each user's open requests and open approvals are one
/// shorter if they showed that ticket, and as long as before if not.
pub proof fn law_approval_closes_ticket(tickets: Seq<Ticket>, i: int, user_id: usize)
    requires
        0 <= i < tickets.len(),
    ensures
        tickets.update(i, marked_approved(tickets[i])).filter(
            |t: Ticket| open_request_of(t, user_id),
        ).len() + (if open_request_of(tickets[i], user_id) {
            1int
        } else {
            0int
        }) == tickets.filter(|t: Ticket| open_request_of(t, user_id)).len(),
        tickets.update(i, marked_approved(tickets[i])).filter(
            |t: Ticket| open_approval_of(t, user_id),
        ).len() + (if open_approval_of(tickets[i], user_id) {
            1int
        } else {
            0int
        }) == tickets.filter(|t: Ticket| open_approval_of(t, user_id)).len(),
{
    lemma_marking_leaves_filter(tickets, i, |t: Ticket| open_request_of(t, user_id));
    lemma_marking_leaves_filter(tickets, i, |t: Ticket| open_approval_of(t, user_id));
}

} // verus!
