//! Approving a ticket: mark it approved, then tell the administrator by
//! email. The steps that touch the database, the environment or the mail
//! server are the caller's; this machine decides what comes next and what
//! the user is told.

use vstd::prelude::*;
use crate::mail::{approval_email, approval_subject, approval_text, Contact, Email};
use crate::reply::{failure, Notice, Reply, Target, FlashKind};
use crate::ticket::upload_path;

verus! {

/// The fields of the approved ticket that the approval email needs.
pub struct TicketDetails {
    pub description: String,
    pub approver: i32,
    pub requestor: i32,
    pub filename: String,
}

/// How an approval ended: approved and reported; not approved; or approved,
/// but the report could not be sent.
#[derive(Clone, Copy, Debug, PartialEq, Eq, Structural)]
pub enum ToggleOutcome {
    Approved,
    NotApproved,
    ApprovedWithoutConfirmation,
}

/// Where an approval stands.
pub enum ToggleState {
    /// Waiting to learn whether the ticket exists.
    FindingTicket,
    /// Waiting for the ticket to be marked approved.
    MarkingApproved,
    /// Waiting for the ticket's fields.
    LoadingDetails,
    /// Waiting for the requestor's account.
    LoadingRequestor { details: TicketDetails },
    /// Waiting for the approver's account.
    LoadingApprover { details: TicketDetails, requestor: Contact },
    /// Waiting for the administrator's address.
    ReadingAdminEmail { details: TicketDetails, requestor: Contact, approver: Contact },
    /// Waiting for the report to be sent.
    SendingEmail,
    /// Done.
    Finished(ToggleOutcome),
}

/// What the caller learnt from the last action.
pub enum ToggleEvent {
    TicketFound(bool),
    MarkedApproved(bool),
    DetailsLoaded(Option<TicketDetails>),
    AccountLoaded(Option<Contact>),
    AdminEmailRead(Option<String>),
    EmailSent(bool),
}

/// What the caller is to do next.
pub enum ToggleAction {
    /// Look the ticket up by id.
    FindTicket(i32),
    /// Set the ticket's `approved` to true.
    MarkApproved(i32),
    /// Read the ticket's description, approver, requestor and document name.
    LoadDetails(i32),
    /// Read the email and names of the account with this id.
    LoadAccount(i32),
    /// Read the administrator's address (`ADMIN_EMAIL`).
    ReadAdminEmail,
    /// Send this email.
    SendEmail(Email),
    /// Stop; this is how the approval ended.
    Finish(ToggleOutcome),
}

/// An approval of ticket `id` in progress.
pub struct Toggle {
    pub id: i32,
    pub state: ToggleState,
}

/// Whether the ticket has been marked approved by the time the approval
/// stands in `s`.
pub open spec fn approval_stored(s: ToggleState) -> bool {
    match s {
        ToggleState::FindingTicket => false,
        ToggleState::MarkingApproved => false,
        ToggleState::Finished(o) => o != ToggleOutcome::NotApproved,
        _ => true,
    }
}

/// Whether `e` answers the action that the approval waits for in `s`.
pub open spec fn toggle_expects(s: ToggleState, e: ToggleEvent) -> bool {
    match s {
        ToggleState::FindingTicket => e is TicketFound,
        ToggleState::MarkingApproved => e is MarkedApproved,
        ToggleState::LoadingDetails => e is DetailsLoaded,
        ToggleState::LoadingRequestor { .. } => e is AccountLoaded,
        ToggleState::LoadingApprover { .. } => e is AccountLoaded,
        ToggleState::ReadingAdminEmail { .. } => e is AdminEmailRead,
        ToggleState::SendingEmail => e is EmailSent,
        ToggleState::Finished(_) => false,
    }
}

/// One step of an approval: what it does in `t` on the event `e`, moving to
/// `next` and asking for `a`. A failure before the ticket was marked approved
/// ends it as not approved; any failure after that ends it as approved
/// without a report.
pub open spec fn toggle_transition(t: Toggle, e: ToggleEvent, next: Toggle, a: ToggleAction) -> bool {
    &&& next.id == t.id
    &&& match (t.state, e) {
        (ToggleState::FindingTicket, ToggleEvent::TicketFound(found)) => if found {
            next.state is MarkingApproved && a == ToggleAction::MarkApproved(t.id)
        } else {
            next.state == ToggleState::Finished(ToggleOutcome::NotApproved) && a
                == ToggleAction::Finish(ToggleOutcome::NotApproved)
        },
        (ToggleState::MarkingApproved, ToggleEvent::MarkedApproved(done)) => if done {
            next.state is LoadingDetails && a == ToggleAction::LoadDetails(t.id)
        } else {
            next.state == ToggleState::Finished(ToggleOutcome::NotApproved) && a
                == ToggleAction::Finish(ToggleOutcome::NotApproved)
        },
        (ToggleState::LoadingDetails, ToggleEvent::DetailsLoaded(found)) => match found {
            Some(d) => next.state == (ToggleState::LoadingRequestor { details: d }) && a
                == ToggleAction::LoadAccount(d.requestor),
            None => next.state == ToggleState::Finished(
                ToggleOutcome::ApprovedWithoutConfirmation,
            ) && a == ToggleAction::Finish(ToggleOutcome::ApprovedWithoutConfirmation),
        },
        (ToggleState::LoadingRequestor { details }, ToggleEvent::AccountLoaded(found)) =>
            match found {
            Some(c) => next.state == (ToggleState::LoadingApprover {
                details,
                requestor: c,
            }) && a == ToggleAction::LoadAccount(details.approver),
            None => next.state == ToggleState::Finished(
                ToggleOutcome::ApprovedWithoutConfirmation,
            ) && a == ToggleAction::Finish(ToggleOutcome::ApprovedWithoutConfirmation),
        },
        (
            ToggleState::LoadingApprover { details, requestor },
            ToggleEvent::AccountLoaded(found),
        ) => match found {
            Some(c) => next.state == (ToggleState::ReadingAdminEmail {
                details,
                requestor,
                approver: c,
            }) && a == ToggleAction::ReadAdminEmail,
            None => next.state == ToggleState::Finished(
                ToggleOutcome::ApprovedWithoutConfirmation,
            ) && a == ToggleAction::Finish(ToggleOutcome::ApprovedWithoutConfirmation),
        },
        (
            ToggleState::ReadingAdminEmail { details, requestor, approver },
            ToggleEvent::AdminEmailRead(found),
        ) => match found {
            Some(admin) => next.state is SendingEmail && (a matches ToggleAction::SendEmail(m)
                && m.to == admin && m.subject@ == approval_subject(t.id) && m.body@
                == approval_text(details.description@, requestor, approver)
                && m.attachment@ == upload_path(details.filename@)),
            None => next.state == ToggleState::Finished(
                ToggleOutcome::ApprovedWithoutConfirmation,
            ) && a == ToggleAction::Finish(ToggleOutcome::ApprovedWithoutConfirmation),
        },
        (ToggleState::SendingEmail, ToggleEvent::EmailSent(sent)) => if sent {
            next.state == ToggleState::Finished(ToggleOutcome::Approved) && a
                == ToggleAction::Finish(ToggleOutcome::Approved)
        } else {
            next.state == ToggleState::Finished(ToggleOutcome::ApprovedWithoutConfirmation)
                && a == ToggleAction::Finish(ToggleOutcome::ApprovedWithoutConfirmation)
        },
        _ => false,
    }
}

/// Starts the approval of ticket `ide`: first look the ticket up.
pub fn toggle_with_id(ide: i32) -> (r: (Toggle, ToggleAction))
    ensures
        r.0.id == ide,
        r.0.state is FindingTicket,
        r.1 == ToggleAction::FindTicket(ide),
{
    (Toggle { id: ide, state: ToggleState::FindingTicket }, ToggleAction::FindTicket(ide))
}

impl Toggle {
    /// Whether `e` answers the action that this approval waits for.
    pub fn expects(&self, e: &ToggleEvent) -> (r: bool)
        ensures
            r == toggle_expects(self.state, *e),
    {
        match (&self.state, e) {
            (ToggleState::FindingTicket, ToggleEvent::TicketFound(_)) => true,
            (ToggleState::MarkingApproved, ToggleEvent::MarkedApproved(_)) => true,
            (ToggleState::LoadingDetails, ToggleEvent::DetailsLoaded(_)) => true,
            (ToggleState::LoadingRequestor { .. }, ToggleEvent::AccountLoaded(_)) => true,
            (ToggleState::LoadingApprover { .. }, ToggleEvent::AccountLoaded(_)) => true,
            (ToggleState::ReadingAdminEmail { .. }, ToggleEvent::AdminEmailRead(_)) => true,
            (ToggleState::SendingEmail, ToggleEvent::EmailSent(_)) => true,
            _ => false,
        }
    }

    /// The next step of the approval, given what the last action brought.
    /// A failure before the ticket was marked approved ends it as not
    /// approved; any failure after that ends it as approved without a
    /// report.
    pub fn step(self, e: ToggleEvent) -> (r: (Toggle, ToggleAction))
        requires
            toggle_expects(self.state, e),
        ensures
            r.0.id == self.id,
            // Once the ticket is marked approved, the approval stays recorded.
            approval_stored(self.state) ==> approval_stored(r.0.state),
            // Only a successful marking records it.
            !approval_stored(self.state) && approval_stored(r.0.state) ==> (self.state is MarkingApproved
                && e == ToggleEvent::MarkedApproved(true)),
            // The report goes out only for a ticket marked approved.
            r.1 is SendEmail ==> approval_stored(self.state),
            // "Not approved" is answered exactly when the marking did not happen.
            r.1 matches ToggleAction::Finish(o) ==> (o == ToggleOutcome::NotApproved
                <==> !approval_stored(self.state)),
            // "Approved" is answered only once the report was sent.
            r.1 == ToggleAction::Finish(ToggleOutcome::Approved) ==> (self.state is SendingEmail
                && e == ToggleEvent::EmailSent(true)),
            toggle_transition(self, e, r.0, r.1),
    {
        let id = self.id;
        let ended = |o: ToggleOutcome| -> (r: (Toggle, ToggleAction))
            ensures
                r.0.id == id,
                r.0.state == ToggleState::Finished(o),
                r.1 == ToggleAction::Finish(o),
            { (Toggle { id, state: ToggleState::Finished(o) }, ToggleAction::Finish(o)) };
        match (self.state, e) {
            (ToggleState::FindingTicket, ToggleEvent::TicketFound(found)) => {
                if found {
                    (Toggle { id, state: ToggleState::MarkingApproved }, ToggleAction::MarkApproved(id))
                } else {
                    ended(ToggleOutcome::NotApproved)
                }
            },
            (ToggleState::MarkingApproved, ToggleEvent::MarkedApproved(done)) => {
                if done {
                    (Toggle { id, state: ToggleState::LoadingDetails }, ToggleAction::LoadDetails(id))
                } else {
                    ended(ToggleOutcome::NotApproved)
                }
            },
            (ToggleState::LoadingDetails, ToggleEvent::DetailsLoaded(found)) => match found {
                Some(d) => {
                    let requestor = d.requestor;
                    (
                        Toggle { id, state: ToggleState::LoadingRequestor { details: d } },
                        ToggleAction::LoadAccount(requestor),
                    )
                },
                None => ended(ToggleOutcome::ApprovedWithoutConfirmation),
            },
            (ToggleState::LoadingRequestor { details }, ToggleEvent::AccountLoaded(found)) => {
                match found {
                    Some(c) => {
                        let approver = details.approver;
                        (
                            Toggle {
                                id,
                                state: ToggleState::LoadingApprover { details, requestor: c },
                            },
                            ToggleAction::LoadAccount(approver),
                        )
                    },
                    None => ended(ToggleOutcome::ApprovedWithoutConfirmation),
                }
            },
            (
                ToggleState::LoadingApprover { details, requestor },
                ToggleEvent::AccountLoaded(found),
            ) => match found {
                Some(c) => (
                    Toggle {
                        id,
                        state: ToggleState::ReadingAdminEmail { details, requestor, approver: c },
                    },
                    ToggleAction::ReadAdminEmail,
                ),
                None => ended(ToggleOutcome::ApprovedWithoutConfirmation),
            },
            (
                ToggleState::ReadingAdminEmail { details, requestor, approver },
                ToggleEvent::AdminEmailRead(found),
            ) => match found {
                Some(admin) => {
                    let m = approval_email(
                        admin,
                        id,
                        details.description.as_str(),
                        details.filename.as_str(),
                        &requestor,
                        &approver,
                    );
                    (Toggle { id, state: ToggleState::SendingEmail }, ToggleAction::SendEmail(m))
                },
                None => ended(ToggleOutcome::ApprovedWithoutConfirmation),
            },
            (ToggleState::SendingEmail, ToggleEvent::EmailSent(sent)) => {
                if sent {
                    ended(ToggleOutcome::Approved)
                } else {
                    ended(ToggleOutcome::ApprovedWithoutConfirmation)
                }
            },
            _ => ended(ToggleOutcome::NotApproved),
        }
    }
}

/// What an approval asks for while it stands in `t`: the action whose
/// answer that state waits for.
pub open spec fn toggle_asks(t: Toggle, a: ToggleAction) -> bool {
    match t.state {
        ToggleState::FindingTicket => a == ToggleAction::FindTicket(t.id),
        ToggleState::MarkingApproved => a == ToggleAction::MarkApproved(t.id),
        ToggleState::LoadingDetails => a == ToggleAction::LoadDetails(t.id),
        ToggleState::LoadingRequestor { details } => a == ToggleAction::LoadAccount(details.requestor),
        ToggleState::LoadingApprover { details, .. } => a == ToggleAction::LoadAccount(details.approver),
        ToggleState::ReadingAdminEmail { .. } => a == ToggleAction::ReadAdminEmail,
        ToggleState::SendingEmail => a is SendEmail,
        ToggleState::Finished(o) => a == ToggleAction::Finish(o),
    }
}

/// A run of the approval of ticket `id`: the states it passed through, the
/// events the caller handed it, and the actions it asked for, `actions[i]`
/// being asked for in `states[i]` and answered by `events[i]`. A caller that
/// hands each answer to `Toggle::step` makes such a run.
pub open spec fn toggle_run(
    id: i32,
    states: Seq<Toggle>,
    events: Seq<ToggleEvent>,
    actions: Seq<ToggleAction>,
) -> bool {
    &&& states.len() == events.len() + 1
    &&& actions.len() == states.len()
    &&& states[0] == (Toggle { id, state: ToggleState::FindingTicket })
    &&& actions[0] == ToggleAction::FindTicket(id)
    &&& forall|i: int|
        0 <= i < events.len() ==> toggle_expects(states[i].state, #[trigger] events[i])
            && toggle_transition(states[i], events[i], states[i + 1], actions[i + 1])
}

proof fn lemma_toggle_step(t: Toggle, e: ToggleEvent, next: Toggle, a: ToggleAction)
    requires
        toggle_expects(t.state, e),
        toggle_transition(t, e, next, a),
    ensures
        next.id == t.id,
        toggle_asks(next, a),
        approval_stored(next.state) == (approval_stored(t.state) || e
            == ToggleEvent::MarkedApproved(true)),
        e == ToggleEvent::MarkedApproved(true) ==> t.state is MarkingApproved,
        a is SendEmail ==> approval_stored(t.state),
        a is MarkApproved ==> a == ToggleAction::MarkApproved(t.id),
{
}

proof fn lemma_approval_prefix(
    id: i32,
    states: Seq<Toggle>,
    events: Seq<ToggleEvent>,
    actions: Seq<ToggleAction>,
    k: int,
)
    requires
        toggle_run(id, states, events, actions),
        0 <= k <= events.len(),
    ensures
        states[k].id == id,
        toggle_asks(states[k], actions[k]),
        approval_stored(states[k].state) <==> exists|i: int|
            0 <= i < k && #[trigger] events[i] == ToggleEvent::MarkedApproved(true),
        approval_stored(states[k].state) ==> exists|i: int|
            0 <= i < k && #[trigger] events[i] == ToggleEvent::MarkedApproved(true) && actions[i]
                == ToggleAction::MarkApproved(id),
        forall|i: int|
            0 <= i <= k && #[trigger] actions[i] is MarkApproved ==> actions[i]
                == ToggleAction::MarkApproved(id),
        !approval_stored(states[k].state) ==> forall|i: int|
            0 <= i <= k ==> !(#[trigger] actions[i] is SendEmail),
    decreases k,
{
    if k > 0 {
        lemma_approval_prefix(id, states, events, actions, k - 1);
        let j = k - 1;
        assert(toggle_expects(states[j].state, events[j]));
        lemma_toggle_step(states[j], events[j], states[k], actions[k]);
        if events[j] == ToggleEvent::MarkedApproved(true) {
            assert(actions[j] == ToggleAction::MarkApproved(id));
        }
        assert forall|i: int| 0 <= i <= k && #[trigger] actions[i] is MarkApproved implies actions[i]
            == ToggleAction::MarkApproved(id) by {
            if i == k {
            }
        }
    }
}

/// How a whole approval run ends, as the run's events decide it: it ends
/// "not approved" exactly when no marking of the ticket succeeded; any other
/// end follows a successful marking of ticket `id`; no other ticket is ever
/// marked; and a run that ends "not approved" sends no email.
pub proof fn law_approval_run(
    id: i32,
    states: Seq<Toggle>,
    events: Seq<ToggleEvent>,
    actions: Seq<ToggleAction>,
    outcome: ToggleOutcome,
)
    requires
        toggle_run(id, states, events, actions),
        actions.last() == ToggleAction::Finish(outcome),
    ensures
        outcome == ToggleOutcome::NotApproved <==> forall|i: int|
            0 <= i < events.len() ==> #[trigger] events[i] != ToggleEvent::MarkedApproved(true),
        outcome != ToggleOutcome::NotApproved ==> exists|i: int|
            0 <= i < events.len() && #[trigger] events[i] == ToggleEvent::MarkedApproved(true)
                && actions[i] == ToggleAction::MarkApproved(id),
        forall|i: int|
            0 <= i < actions.len() && #[trigger] actions[i] is MarkApproved ==> actions[i]
                == ToggleAction::MarkApproved(id),
        outcome == ToggleOutcome::NotApproved ==> forall|i: int|
            0 <= i < actions.len() ==> !(#[trigger] actions[i] is SendEmail),
{
    let k = events.len() as int;
    lemma_approval_prefix(id, states, events, actions, k);
    assert(states[k].state == ToggleState::Finished(outcome));
}

/// What the approval route answers for each way an approval can end.
pub fn toggle(outcome: ToggleOutcome) -> (r: Reply)
    ensures
        outcome == ToggleOutcome::Approved ==> r == Reply::Redirect(Target::Index),
        outcome == ToggleOutcome::NotApproved ==> r == failure(
            Target::Index,
            Notice::TicketNotApproved,
        ),
        outcome == ToggleOutcome::ApprovedWithoutConfirmation ==> r == failure(
            Target::Index,
            Notice::ApprovedWithoutConfirmation,
        ),
{
    match outcome {
        ToggleOutcome::Approved => Reply::Redirect(Target::Index),
        ToggleOutcome::NotApproved => Reply::Flash(
            FlashKind::Error,
            Target::Index,
            Notice::TicketNotApproved,
        ),
        ToggleOutcome::ApprovedWithoutConfirmation => Reply::Flash(
            FlashKind::Error,
            Target::Index,
            Notice::ApprovedWithoutConfirmation,
        ),
    }
}

} // verus!
