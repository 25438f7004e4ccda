//! Creating a ticket from the upload form: store the document, add the
//! ticket row, and ask the approver by email. The steps that touch the
//! request body, the disk, the database, the environment or the mail server
//! are the caller's; this machine decides what comes next and what the user
//! is told.

use vstd::prelude::*;
use crate::mail::{request_email, request_subject, request_text, Email};
use crate::models::Ticket;
use crate::reply::{failure, success, FlashKind, Notice, Reply, Target};
use crate::ticket::{insert, new_ticket_row, stored_id, upload_path, TicketValues};
use crate::upload::{fresh_upload_name, timestamp_shape, upload_name};
use crate::user::User;

verus! {

/// The most bytes that the upload form accepts for the document: 100 KiB.
pub const UPLOAD_SIZE_LIMIT: u64 = 102400;

/// An uploaded file as the form delivered it: the name it had on the
/// user's machine, if any, and its bytes.
pub struct UploadedFile {
    pub file_name: Option<String>,
    pub raw: Vec<u8>,
}

/// The fields of the upload form, each with all the values that were sent
/// for it.
pub struct NewTicketForm {
    pub description: Option<Vec<String>>,
    pub approver_email: Option<Vec<String>>,
    pub upload_file: Option<Vec<UploadedFile>>,
}

/// Every field that was sent has at least one value.
pub open spec fn form_well_formed(f: NewTicketForm) -> bool {
    &&& f.description matches Some(v) ==> v.len() > 0
    &&& f.approver_email matches Some(v) ==> v.len() > 0
    &&& f.upload_file matches Some(v) ==> v.len() > 0
}

/// Why a form is refused, checked in this order: no description, no
/// approver's email, no file, a file without a name.
pub open spec fn form_refusal(f: NewTicketForm) -> Option<Notice> {
    if f.description is None {
        Some(Notice::MissingDescription)
    } else if f.approver_email is None {
        Some(Notice::MissingApproverEmail)
    } else if f.upload_file is None {
        Some(Notice::MissingFile)
    } else if f.upload_file->0[0].file_name is None {
        Some(Notice::MissingFile)
    } else {
        None
    }
}

/// Where the creation of a ticket stands.
pub enum AddNewState {
    /// Waiting for the form.
    ParsingForm,
    /// Waiting for the document to be stored under `filename`.
    WritingFile { description: String, approver_email: String, filename: String },
    /// Waiting for the id of the approver's account.
    FindingApprover { values: TicketValues },
    /// Waiting for the ticket row to be stored.
    InsertingTicket { values: TicketValues },
    /// Waiting for the address of the service (`RATS_URL`).
    ReadingServiceUrl { values: TicketValues },
    /// Waiting for the email to the approver to be sent.
    SendingEmail,
    /// Done, with this answer.
    Finished(Reply),
}

/// What the caller learnt from the last action.
pub enum AddNewEvent {
    /// The form, or `None` where the request body was no valid form.
    FormParsed(Option<NewTicketForm>),
    FileWritten(bool),
    /// The id of the account with the approver's email, `None` where there
    /// is no such account, it has no id, or the lookup failed.
    ApproverFound(Option<i32>),
    TicketInserted(bool),
    /// The address of the service, `None` where it is not set.
    ServiceUrlRead(Option<String>),
    EmailSent(bool),
}

/// What the caller is to do next.
pub enum AddNewAction {
    /// Read the form from the request body.
    ParseForm,
    /// Store `contents` as `uploads/{name}`.
    WriteFile { name: String, contents: Vec<u8> },
    /// Look up the id of the account with this email.
    FindApprover(String),
    /// Store this ticket row.
    InsertTicket(Ticket),
    /// Read the address of the service (`RATS_URL`).
    ReadServiceUrl,
    /// Send this email.
    SendEmail(Email),
    /// Stop and answer this.
    Finish(Reply),
}

/// The creation of a ticket for user `user_id` in progress.
pub struct AddNew {
    pub user_id: usize,
    pub state: AddNewState,
}

/// Whether `e` answers the action that the creation waits for in `s`.
pub open spec fn add_new_expects(s: AddNewState, e: AddNewEvent) -> bool {
    match s {
        AddNewState::ParsingForm => e matches AddNewEvent::FormParsed(parsed) && (parsed matches Some(
            f,
        ) ==> form_well_formed(f)),
        AddNewState::WritingFile { .. } => e is FileWritten,
        AddNewState::FindingApprover { .. } => e is ApproverFound,
        AddNewState::InsertingTicket { .. } => e is TicketInserted,
        AddNewState::ReadingServiceUrl { .. } => e is ServiceUrlRead,
        AddNewState::SendingEmail => e is EmailSent,
        AddNewState::Finished(_) => false,
    }
}

/// The service address to put in the email: the configured one, or
/// nothing.
pub open spec fn service_url_or_empty(u: Option<String>) -> Seq<char> {
    match u {
        Some(s) => s@,
        None => Seq::empty(),
    }
}

/// One step of the creation of a ticket: what it does in `c` on the event
/// `e`, moving to `next` and asking for `a`.
pub open spec fn add_new_transition(c: AddNew, e: AddNewEvent, next: AddNew, a: AddNewAction) -> bool {
    &&& next.user_id == c.user_id
    &&& match (c.state, e) {
        (AddNewState::ParsingForm, AddNewEvent::FormParsed(parsed)) => match parsed {
            None => next.state == AddNewState::Finished(
                failure(Target::Index, Notice::InvalidUpload),
            ) && a == AddNewAction::Finish(failure(Target::Index, Notice::InvalidUpload)),
            Some(f) => match form_refusal(f) {
                Some(n) => next.state == AddNewState::Finished(failure(Target::Index, n))
                    && a == AddNewAction::Finish(failure(Target::Index, n)),
                None => next.state matches AddNewState::WritingFile {
                    description,
                    approver_email,
                    filename,
                } && description == f.description->0[0] && approver_email
                    == f.approver_email->0[0] && (exists|stamp: Seq<char>, nonce: u32|
                    timestamp_shape(stamp) && filename@ == #[trigger] upload_name(stamp, nonce)) && (a matches AddNewAction::WriteFile {
                    name,
                    contents,
                } && name == filename && contents == f.upload_file->0[0].raw),
            },
        },
        (
            AddNewState::WritingFile { description, approver_email, filename },
            AddNewEvent::FileWritten(written),
        ) => if written {
            next.state == (AddNewState::FindingApprover {
                values: TicketValues { description, approver_email, filename },
            }) && a == AddNewAction::FindApprover(approver_email)
        } else {
            next.state == AddNewState::Finished(failure(Target::Index, Notice::FileNotStored))
                && a == AddNewAction::Finish(failure(Target::Index, Notice::FileNotStored))
        },
        (AddNewState::FindingApprover { values }, AddNewEvent::ApproverFound(found)) =>
            match found {
            Some(approver) => next.state == (AddNewState::InsertingTicket { values }) && a
                == AddNewAction::InsertTicket(new_ticket_row(values, approver, c.user_id)),
            None => next.state == AddNewState::Finished(
                failure(Target::Index, Notice::TicketNotCreated),
            ) && a == AddNewAction::Finish(failure(Target::Index, Notice::TicketNotCreated)),
        },
        (AddNewState::InsertingTicket { values }, AddNewEvent::TicketInserted(stored)) =>
            if stored {
            next.state == (AddNewState::ReadingServiceUrl { values }) && a
                == AddNewAction::ReadServiceUrl
        } else {
            next.state == AddNewState::Finished(
                failure(Target::Index, Notice::TicketNotCreated),
            ) && a == AddNewAction::Finish(failure(Target::Index, Notice::TicketNotCreated))
        },
        (AddNewState::ReadingServiceUrl { values }, AddNewEvent::ServiceUrlRead(url)) =>
            next.state is SendingEmail && (a matches AddNewAction::SendEmail(m) && m.to
            == values.approver_email && m.subject@ == request_subject() && m.body@
            == request_text(values.description@, service_url_or_empty(url))
            && m.attachment@ == upload_path(values.filename@)),
        (AddNewState::SendingEmail, AddNewEvent::EmailSent(sent)) => if sent {
            next.state == AddNewState::Finished(success(Target::Index, Notice::TicketAdded))
                && a == AddNewAction::Finish(success(Target::Index, Notice::TicketAdded))
        } else {
            next.state == AddNewState::Finished(
                failure(Target::Index, Notice::ConfirmationNotSent),
            ) && a == AddNewAction::Finish(
                failure(Target::Index, Notice::ConfirmationNotSent),
            )
        },
        _ => false,
    }
}

/// Starts the creation of a ticket for `user`: first read the form.
pub fn add_new(user: User) -> (r: (AddNew, AddNewAction))
    ensures
        r.0.user_id == user.0,
        r.0.state is ParsingForm,
        r.1 == AddNewAction::ParseForm,
{
    (AddNew { user_id: user.0, state: AddNewState::ParsingForm }, AddNewAction::ParseForm)
}

fn finished(user_id: usize, reply: Reply) -> (r: (AddNew, AddNewAction))
    ensures
        r.0.user_id == user_id,
        r.0.state == AddNewState::Finished(reply),
        r.1 == AddNewAction::Finish(reply),
{
    (AddNew { user_id, state: AddNewState::Finished(reply) }, AddNewAction::Finish(reply))
}

impl AddNew {
    /// Whether `e` answers the action that this creation waits for.
    pub fn expects(&self, e: &AddNewEvent) -> (r: bool)
        ensures
            r == add_new_expects(self.state, *e),
    {
        match (&self.state, e) {
            (AddNewState::ParsingForm, AddNewEvent::FormParsed(parsed)) => match parsed {
                None => true,
                Some(f) => {
                    let d = match &f.description {
                        Some(v) => v.len() > 0,
                        None => true,
                    };
                    let a = match &f.approver_email {
                        Some(v) => v.len() > 0,
                        None => true,
                    };
                    let u = match &f.upload_file {
                        Some(v) => v.len() > 0,
                        None => true,
                    };
                    d && a && u
                },
            },
            (AddNewState::WritingFile { .. }, AddNewEvent::FileWritten(_)) => true,
            (AddNewState::FindingApprover { .. }, AddNewEvent::ApproverFound(_)) => true,
            (AddNewState::InsertingTicket { .. }, AddNewEvent::TicketInserted(_)) => true,
            (AddNewState::ReadingServiceUrl { .. }, AddNewEvent::ServiceUrlRead(_)) => true,
            (AddNewState::SendingEmail, AddNewEvent::EmailSent(_)) => true,
            _ => false,
        }
    }

    /// The next step of the creation, given what the last action brought.
    pub fn step(self, e: AddNewEvent) -> (r: (AddNew, AddNewAction))
        requires
            add_new_expects(self.state, e),
        ensures
            r.0.user_id == self.user_id,
            // A ticket row is stored only after its document was.
            r.1 is InsertTicket ==> self.state is FindingApprover,
            r.0.state is FindingApprover ==> (self.state is WritingFile && e
                == AddNewEvent::FileWritten(true)),
            // The approver is asked only once the ticket row was stored.
            r.1 is SendEmail ==> self.state is ReadingServiceUrl,
            r.0.state is ReadingServiceUrl ==> (self.state is InsertingTicket && e
                == AddNewEvent::TicketInserted(true)),
            // Success is reported only once the approver was asked.
            r.1 == AddNewAction::Finish(success(Target::Index, Notice::TicketAdded)) ==> (
            self.state is SendingEmail && e == AddNewEvent::EmailSent(true)),
            add_new_transition(self, e, r.0, r.1),
    {
        let user_id = self.user_id;
        match (self.state, e) {
            (AddNewState::ParsingForm, AddNewEvent::FormParsed(parsed)) => match parsed {
                None => finished(
                    user_id,
                    Reply::Flash(FlashKind::Error, Target::Index, Notice::InvalidUpload),
                ),
                Some(f) => {
                    let ghost form = f;
                    let NewTicketForm { description, approver_email, upload_file } = f;
                    let mut descriptions = match description {
                        None => {
                            return finished(
                                user_id,
                                Reply::Flash(
                                    FlashKind::Error,
                                    Target::Index,
                                    Notice::MissingDescription,
                                ),
                            );
                        },
                        Some(v) => v,
                    };
                    let mut approvers = match approver_email {
                        None => {
                            return finished(
                                user_id,
                                Reply::Flash(
                                    FlashKind::Error,
                                    Target::Index,
                                    Notice::MissingApproverEmail,
                                ),
                            );
                        },
                        Some(v) => v,
                    };
                    let mut files = match upload_file {
                        None => {
                            return finished(
                                user_id,
                                Reply::Flash(FlashKind::Error, Target::Index, Notice::MissingFile),
                            );
                        },
                        Some(v) => v,
                    };
                    let file = files.remove(0);
                    let description = descriptions.remove(0);
                    let approver_email = approvers.remove(0);
                    let UploadedFile { file_name, raw } = file;
                    if file_name.is_none() {
                        return finished(
                            user_id,
                            Reply::Flash(FlashKind::Error, Target::Index, Notice::MissingFile),
                        );
                    }
                    let filename = fresh_upload_name();
                    let name = filename.clone();
                    (
                        AddNew {
                            user_id,
                            state: AddNewState::WritingFile { description, approver_email, filename },
                        },
                        AddNewAction::WriteFile { name, contents: raw },
                    )
                },
            },
            (
                AddNewState::WritingFile { description, approver_email, filename },
                AddNewEvent::FileWritten(written),
            ) => {
                if written {
                    let lookup = approver_email.clone();
                    (
                        AddNew {
                            user_id,
                            state: AddNewState::FindingApprover {
                                values: TicketValues { description, approver_email, filename },
                            },
                        },
                        AddNewAction::FindApprover(lookup),
                    )
                } else {
                    finished(
                        user_id,
                        Reply::Flash(FlashKind::Error, Target::Index, Notice::FileNotStored),
                    )
                }
            },
            (AddNewState::FindingApprover { values }, AddNewEvent::ApproverFound(found)) => {
                match insert(&values, found, user_id) {
                    Some(t) => (
                        AddNew { user_id, state: AddNewState::InsertingTicket { values } },
                        AddNewAction::InsertTicket(t),
                    ),
                    None => finished(
                        user_id,
                        Reply::Flash(FlashKind::Error, Target::Index, Notice::TicketNotCreated),
                    ),
                }
            },
            (AddNewState::InsertingTicket { values }, AddNewEvent::TicketInserted(stored)) => {
                if stored {
                    (
                        AddNew { user_id, state: AddNewState::ReadingServiceUrl { values } },
                        AddNewAction::ReadServiceUrl,
                    )
                } else {
                    finished(
                        user_id,
                        Reply::Flash(FlashKind::Error, Target::Index, Notice::TicketNotCreated),
                    )
                }
            },
            (AddNewState::ReadingServiceUrl { values }, AddNewEvent::ServiceUrlRead(url)) => {
                let url_text = match url {
                    Some(u) => u,
                    None => String::new(),
                };
                let m = request_email(
                    values.approver_email,
                    values.description.as_str(),
                    values.filename.as_str(),
                    url_text.as_str(),
                );
                (AddNew { user_id, state: AddNewState::SendingEmail }, AddNewAction::SendEmail(m))
            },
            (AddNewState::SendingEmail, AddNewEvent::EmailSent(sent)) => {
                if sent {
                    finished(
                        user_id,
                        Reply::Flash(FlashKind::Success, Target::Index, Notice::TicketAdded),
                    )
                } else {
                    finished(
                        user_id,
                        Reply::Flash(FlashKind::Error, Target::Index, Notice::ConfirmationNotSent),
                    )
                }
            },
            _ => finished(
                user_id,
                Reply::Flash(FlashKind::Error, Target::Index, Notice::TicketNotCreated),
            ),
        }
    }
}

/// How far the creation has come: the states in the order a run passes
/// through them.
pub open spec fn add_new_stage(s: AddNewState) -> int {
    match s {
        AddNewState::ParsingForm => 0,
        AddNewState::WritingFile { .. } => 1,
        AddNewState::FindingApprover { .. } => 2,
        AddNewState::InsertingTicket { .. } => 3,
        AddNewState::ReadingServiceUrl { .. } => 4,
        AddNewState::SendingEmail => 5,
        AddNewState::Finished(_) => 6,
    }
}

/// What the creation asks for while it stands in `c`: the action whose
/// answer that state waits for.
pub open spec fn add_new_asks(c: AddNew, a: AddNewAction) -> bool {
    match c.state {
        AddNewState::ParsingForm => a == AddNewAction::ParseForm,
        AddNewState::WritingFile { filename, .. } => a matches AddNewAction::WriteFile { name, .. }
            && name == filename,
        AddNewState::FindingApprover { values } => a == AddNewAction::FindApprover(
            values.approver_email,
        ),
        AddNewState::InsertingTicket { values } => a matches AddNewAction::InsertTicket(t)
            && t.filename == values.filename && t.requestor == stored_id(c.user_id) && !t.approved,
        AddNewState::ReadingServiceUrl { .. } => a == AddNewAction::ReadServiceUrl,
        AddNewState::SendingEmail => a is SendEmail,
        AddNewState::Finished(r) => a == AddNewAction::Finish(r),
    }
}

/// A run of the creation of a ticket for user `user_id`: the states it
/// passed through, the events the caller handed it, and the actions it asked
/// for, `actions[i]` being asked for in `states[i]` and answered by
/// `events[i]`. A caller that hands each answer to `AddNew::step` makes such
/// a run.
pub open spec fn add_new_run(
    user_id: usize,
    states: Seq<AddNew>,
    events: Seq<AddNewEvent>,
    actions: Seq<AddNewAction>,
) -> bool {
    &&& states.len() == events.len() + 1
    &&& actions.len() == states.len()
    &&& states[0] == (AddNew { user_id, state: AddNewState::ParsingForm })
    &&& actions[0] == AddNewAction::ParseForm
    &&& forall|i: int|
        0 <= i < events.len() ==> add_new_expects(states[i].state, #[trigger] events[i])
            && add_new_transition(states[i], events[i], states[i + 1], actions[i + 1])
}

/// `to` is the first approver's email of the form that the run was given.
pub open spec fn form_approver_is(events: Seq<AddNewEvent>, to: String) -> bool {
    &&& events.len() > 0
    &&& events[0] matches AddNewEvent::FormParsed(parsed)
    &&& parsed matches Some(f)
    &&& to == f.approver_email->0[0]
}

/// Some event before `k` reported the ticket row stored.
pub open spec fn inserted_before(events: Seq<AddNewEvent>, k: int) -> bool {
    exists|i: int| 0 <= i < k && #[trigger] events[i] == AddNewEvent::TicketInserted(true)
}

/// Some event before `k` reported the email sent.
pub open spec fn mailed_before(events: Seq<AddNewEvent>, k: int) -> bool {
    exists|i: int| 0 <= i < k && #[trigger] events[i] == AddNewEvent::EmailSent(true)
}

/// Before `k` the run asked to store a document under `name`, and that was
/// done.
pub open spec fn written_before(
    events: Seq<AddNewEvent>,
    actions: Seq<AddNewAction>,
    k: int,
    name: String,
) -> bool {
    exists|j: int|
        0 <= j < k && (#[trigger] actions[j] matches AddNewAction::WriteFile { name: n, .. } && n
            == name) && events[j] == AddNewEvent::FileWritten(true)
}

proof fn lemma_add_new_step(c: AddNew, e: AddNewEvent, n: AddNew, a: AddNewAction)
    requires
        add_new_expects(c.state, e),
        add_new_transition(c, e, n, a),
    ensures
        n.user_id == c.user_id,
        add_new_asks(n, a),
        add_new_stage(n.state) > add_new_stage(c.state),
        e == AddNewEvent::TicketInserted(true) ==> (c.state is InsertingTicket
            && n.state is ReadingServiceUrl),
        e == AddNewEvent::EmailSent(true) ==> (c.state is SendingEmail && n.state
            == AddNewState::Finished(success(Target::Index, Notice::TicketAdded))),
        n.state matches AddNewState::WritingFile { approver_email, .. } ==> (c.state is ParsingForm
            && (e matches AddNewEvent::FormParsed(parsed) && (parsed matches Some(f)
            && approver_email == f.approver_email->0[0]))),
        n.state matches AddNewState::FindingApprover { values } ==> (c.state matches AddNewState::WritingFile {
            approver_email,
            filename,
            ..
        } && values.approver_email == approver_email && values.filename == filename && e
            == AddNewEvent::FileWritten(true)),
        n.state matches AddNewState::InsertingTicket { values } ==> c.state == (AddNewState::FindingApprover { values }),
        n.state matches AddNewState::ReadingServiceUrl { values } ==> (c.state == (AddNewState::InsertingTicket { values })
            && e == AddNewEvent::TicketInserted(true)),
        n.state is SendingEmail ==> c.state is ReadingServiceUrl,
        a matches AddNewAction::SendEmail(m) ==> (c.state matches AddNewState::ReadingServiceUrl {
            values,
        } && m.to == values.approver_email),
        n.state matches AddNewState::Finished(r) ==> {
            &&& r matches Reply::Flash(_, Target::Index, _)
            &&& (r == success(Target::Index, Notice::TicketAdded)) == (c.state is SendingEmail && e
                == AddNewEvent::EmailSent(true))
            &&& r == failure(Target::Index, Notice::ConfirmationNotSent) ==> (c.state is SendingEmail
                && e == AddNewEvent::EmailSent(false))
            &&& (r != success(Target::Index, Notice::TicketAdded) && r != failure(
                Target::Index,
                Notice::ConfirmationNotSent,
            )) ==> (add_new_stage(c.state) <= 3 && e != AddNewEvent::TicketInserted(true))
        },
{
}

proof fn lemma_add_new_prefix(
    user_id: usize,
    states: Seq<AddNew>,
    events: Seq<AddNewEvent>,
    actions: Seq<AddNewAction>,
    k: int,
)
    requires
        add_new_run(user_id, states, events, actions),
        0 <= k <= events.len(),
    ensures
        states[k].user_id == user_id,
        add_new_asks(states[k], actions[k]),
        forall|i: int|
            0 <= i < k ==> add_new_stage(#[trigger] states[i].state) < add_new_stage(states[k].state),
        add_new_stage(states[k].state) <= 3 ==> !inserted_before(events, k) && !mailed_before(
            events,
            k,
        ),
        4 <= add_new_stage(states[k].state) <= 5 ==> inserted_before(events, k) && !mailed_before(
            events,
            k,
        ),
        states[k].state matches AddNewState::Finished(r) ==> {
            &&& r matches Reply::Flash(_, Target::Index, _)
            &&& (r == success(Target::Index, Notice::TicketAdded)) == (inserted_before(events, k)
                && mailed_before(events, k))
            &&& r == failure(Target::Index, Notice::ConfirmationNotSent) ==> !mailed_before(events, k)
            &&& (r != success(Target::Index, Notice::TicketAdded) && r != failure(
                Target::Index,
                Notice::ConfirmationNotSent,
            )) ==> !inserted_before(events, k)
        },
        states[k].state matches AddNewState::WritingFile { approver_email, .. } ==> form_approver_is(
            events,
            approver_email,
        ),
        states[k].state matches AddNewState::FindingApprover { values } ==> form_approver_is(
            events,
            values.approver_email,
        ) && written_before(events, actions, k, values.filename),
        states[k].state matches AddNewState::InsertingTicket { values } ==> form_approver_is(
            events,
            values.approver_email,
        ) && written_before(events, actions, k, values.filename),
        states[k].state matches AddNewState::ReadingServiceUrl { values } ==> form_approver_is(
            events,
            values.approver_email,
        ),
        forall|i: int|
            #![trigger actions[i]]
            0 <= i <= k ==> (actions[i] matches AddNewAction::SendEmail(m) ==> form_approver_is(
                events,
                m.to,
            )),
        forall|i: int|
            #![trigger actions[i]]
            0 <= i <= k ==> (actions[i] matches AddNewAction::InsertTicket(t) ==> {
                &&& t.requestor == stored_id(user_id)
                &&& !t.approved
                &&& written_before(events, actions, i, t.filename)
            }),
    decreases k,
{
    if k > 0 {
        let j = k - 1;
        lemma_add_new_prefix(user_id, states, events, actions, j);
        assert(add_new_expects(states[j].state, events[j]));
        lemma_add_new_step(states[j], events[j], states[k], actions[k]);
        let e = events[j];
        assert(inserted_before(events, k) == (inserted_before(events, j) || e
            == AddNewEvent::TicketInserted(true))) by {
            if inserted_before(events, k) && !(e == AddNewEvent::TicketInserted(true)) {
                let w = choose|i: int| 0 <= i < k && #[trigger] events[i] == AddNewEvent::TicketInserted(true);
                assert(w < j);
            }
            if e == AddNewEvent::TicketInserted(true) {
                assert(events[j] == AddNewEvent::TicketInserted(true));
            }
        }
        assert(mailed_before(events, k) == (mailed_before(events, j) || e == AddNewEvent::EmailSent(
            true,
        ))) by {
            if mailed_before(events, k) && !(e == AddNewEvent::EmailSent(true)) {
                let w = choose|i: int| 0 <= i < k && #[trigger] events[i] == AddNewEvent::EmailSent(true);
                assert(w < j);
            }
            if e == AddNewEvent::EmailSent(true) {
                assert(events[j] == AddNewEvent::EmailSent(true));
            }
        }
        if states[j].state is ParsingForm && j > 0 {
            assert(add_new_stage(states[0].state) < add_new_stage(states[j].state));
        }
        if states[k].state is FindingApprover {
            assert(actions[j] matches AddNewAction::WriteFile { name, .. } && name
                == states[j].state->filename);
        }
        if states[k].state is InsertingTicket {
            let values = states[j].state->FindingApprover_values;
            let w = choose|x: int|
                0 <= x < j && (#[trigger] actions[x] matches AddNewAction::WriteFile { name: n, .. }
                    && n == values.filename) && events[x] == AddNewEvent::FileWritten(true);
            assert(0 <= w < k && (actions[w] matches AddNewAction::WriteFile { name: n, .. } && n
                == values.filename) && events[w] == AddNewEvent::FileWritten(true));
        }
        assert forall|i: int|
            #![trigger actions[i]]
            0 <= i <= k implies (actions[i] matches AddNewAction::InsertTicket(t) ==> {
                &&& t.requestor == stored_id(user_id)
                &&& !t.approved
                &&& written_before(events, actions, i, t.filename)
            }) by {
            if i == k {
            }
        }
        assert forall|i: int|
            #![trigger actions[i]]
            0 <= i <= k implies (actions[i] matches AddNewAction::SendEmail(m) ==> form_approver_is(
                events,
                m.to,
            )) by {
            if i == k {
            }
        }
        assert forall|i: int| 0 <= i < k implies add_new_stage(#[trigger] states[i].state) < add_new_stage(
            states[k].state,
        ) by {
            if i < j {
            }
        }
    }
}

/// What a whole run of the creation of a ticket comes to. It always ends on
/// the overview page; it reports success exactly when the ticket row was
/// stored and the email sent; an error before the email step leaves the
/// tickets as they were; at most one ticket row is stored; every email goes
/// to the approver named in the form; and every stored row is an open
/// request of the user for a document that was stored under the row's name
/// before.
pub proof fn law_creation_run(
    user_id: usize,
    states: Seq<AddNew>,
    events: Seq<AddNewEvent>,
    actions: Seq<AddNewAction>,
    reply: Reply,
)
    requires
        add_new_run(user_id, states, events, actions),
        actions.last() == AddNewAction::Finish(reply),
    ensures
        reply matches Reply::Flash(_, Target::Index, _),
        reply == success(Target::Index, Notice::TicketAdded) <==> inserted_before(
            events,
            events.len() as int,
        ) && mailed_before(events, events.len() as int),
        reply != success(Target::Index, Notice::TicketAdded) && reply != failure(
            Target::Index,
            Notice::ConfirmationNotSent,
        ) ==> !inserted_before(events, events.len() as int),
        forall|i: int, j: int|
            0 <= i < events.len() && 0 <= j < events.len() && #[trigger] events[i]
                == AddNewEvent::TicketInserted(true) && #[trigger] events[j]
                == AddNewEvent::TicketInserted(true) ==> i == j,
        forall|i: int|
            #![trigger actions[i]]
            0 <= i < actions.len() ==> (actions[i] matches AddNewAction::SendEmail(m)
                ==> form_approver_is(events, m.to)),
        forall|i: int|
            #![trigger actions[i]]
            0 <= i < actions.len() ==> (actions[i] matches AddNewAction::InsertTicket(t) ==> {
                &&& t.requestor == stored_id(user_id)
                &&& !t.approved
                &&& written_before(events, actions, i, t.filename)
            }),
{
    let k = events.len() as int;
    lemma_add_new_prefix(user_id, states, events, actions, k);
    assert(states[k].state == AddNewState::Finished(reply));
    assert forall|i: int, j: int|
        0 <= i < events.len() && 0 <= j < events.len() && #[trigger] events[i]
            == AddNewEvent::TicketInserted(true) && #[trigger] events[j]
            == AddNewEvent::TicketInserted(true) implies i == j by {
        assert(add_new_expects(states[i].state, events[i]));
        assert(add_new_expects(states[j].state, events[j]));
        lemma_add_new_step(states[i], events[i], states[i + 1], actions[i + 1]);
        lemma_add_new_step(states[j], events[j], states[j + 1], actions[j + 1]);
        if i < j {
            lemma_add_new_prefix(user_id, states, events, actions, j);
        } else if j < i {
            lemma_add_new_prefix(user_id, states, events, actions, i);
        }
    }
}

} // verus!
