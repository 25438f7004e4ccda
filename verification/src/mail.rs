//! The emails that the service sends, and their texts.

use vstd::prelude::*;
use crate::decimal::{decimal, i32_to_string};
use crate::ticket::{upload_file_path, upload_path};

verus! {

/// An email to send, with the stored document at `attachment` attached.
pub struct Email {
    pub to: String,
    pub subject: String,
    pub body: String,
    pub attachment: String,
}

/// The name and address of an account, as the approval email shows them.
pub struct Contact {
    pub email: String,
    pub firstname: Option<String>,
    pub lastname: String,
}

/// A contact's first name, or nothing where the account has none.
pub open spec fn first_name_or_empty(c: Contact) -> Seq<char> {
    match c.firstname {
        Some(f) => f@,
        None => Seq::empty(),
    }
}

/// "Lastname, Firstname (email)".
pub open spec fn contact_line(c: Contact) -> Seq<char> {
    c.lastname@ + ", "@ + first_name_or_empty(c) + " ("@ + c.email@ + ")"@
}

/// The body of the email that reports an approval.
pub open spec fn approval_text(description: Seq<char>, requestor: Contact, approver: Contact) -> Seq<
    char,
> {
    "The following request was approved:\n\n"@ + description + "\n\nRequested by: "@
        + contact_line(requestor) + "\nApproved by: "@ + contact_line(approver)
}

/// The subject of the email that reports the approval of ticket `id`.
pub open spec fn approval_subject(id: i32) -> Seq<char> {
    "Approval of request #"@ + decimal(id as int)
}

/// The subject of the email that asks for an approval.
pub open spec fn request_subject() -> Seq<char> {
    "New request to approve"@
}

/// The body of the email that asks for an approval, with the address of the
/// service where the approver can answer.
pub open spec fn request_text(description: Seq<char>, service_url: Seq<char>) -> Seq<char> {
    "\nYou have a new request about:\n\n"@ + description + "\n\nPlease approve or deny it here: "@
        + service_url
}

fn push_contact(s: &mut String, c: &Contact)
    ensures
        final(s)@ == old(s)@ + contact_line(*c),
{
    s.append(c.lastname.as_str());
    s.append(", ");
    match &c.firstname {
        Some(f) => s.append(f.as_str()),
        None => {},
    }
    s.append(" (");
    s.append(c.email.as_str());
    s.append(")");
    assert(final(s)@ =~= old(s)@ + contact_line(*c));
}

/// The body of the email that reports an approval.
pub fn approval_body(description: &str, requestor: &Contact, approver: &Contact) -> (r: String)
    ensures
        r@ == approval_text(description@, *requestor, *approver),
{
    let mut s = String::from_str("The following request was approved:\n\n");
    s.append(description);
    s.append("\n\nRequested by: ");
    push_contact(&mut s, requestor);
    s.append("\nApproved by: ");
    push_contact(&mut s, approver);
    assert(s@ =~= approval_text(description@, *requestor, *approver));
    s
}

/// The email to the administrator that reports the approval of ticket `id`,
/// with the ticket's document attached.
pub fn approval_email(
    admin_email: String,
    id: i32,
    description: &str,
    filename: &str,
    requestor: &Contact,
    approver: &Contact,
) -> (r: Email)
    ensures
        r.to == admin_email,
        r.subject@ == approval_subject(id),
        r.body@ == approval_text(description@, *requestor, *approver),
        r.attachment@ == upload_path(filename@),
{
    let mut subject = String::from_str("Approval of request #");
    let number = i32_to_string(id);
    subject.append(number.as_str());
    Email {
        to: admin_email,
        subject,
        body: approval_body(description, requestor, approver),
        attachment: upload_file_path(filename),
    }
}

/// The email that asks the approver to answer a new request, with the
/// request's document attached.
pub fn request_email(approver_email: String, description: &str, filename: &str, service_url: &str) -> (r:
    Email)
    ensures
        r.to == approver_email,
        r.subject@ == request_subject(),
        r.body@ == request_text(description@, service_url@),
        r.attachment@ == upload_path(filename@),
{
    let mut body = String::from_str("\nYou have a new request about:\n\n");
    body.append(description);
    body.append("\n\nPlease approve or deny it here: ");
    body.append(service_url);
    assert(body@ =~= request_text(description@, service_url@));
    Email {
        to: approver_email,
        subject: String::from_str("New request to approve"),
        body,
        attachment: upload_file_path(filename),
    }
}

/// The report names each party the same way: swapping the requestor and
/// the approver gives a report of the same length. The report begins with
/// its heading and the request's description, and it ends with the
/// approver's line: last name, ", ", the first name where the account has
/// one, and the email in brackets.
pub proof fn law_approval_report_names_both_parties(
    description: Seq<char>,
    requestor: Contact,
    approver: Contact,
)
    ensures
        approval_text(description, requestor, approver).len() == approval_text(
            description,
            approver,
            requestor,
        ).len(),
        approval_text(description, requestor, approver).take(37)
            == "The following request was approved:\n\n"@,
        approval_text(description, requestor, approver).subrange(37, 37 + description.len() as int)
            == description,
        ({
            let first: Seq<char> = match approver.firstname {
                Some(f) => f@,
                None => Seq::empty(),
            };
            let tail = "\nApproved by: "@ + approver.lastname@ + ", "@ + first + " ("@
                + approver.email@ + ")"@;
            let report = approval_text(description, requestor, approver);
            report.len() >= tail.len() && report.subrange(report.len() - tail.len(), report.len() as int)
                == tail
        }),
{
    reveal_strlit("The following request was approved:\n\n");
    let report = approval_text(description, requestor, approver);
    let heading = "The following request was approved:\n\n"@;
    assert(heading.len() == 37);
    assert(report.take(37) =~= heading);
    assert(report.subrange(37, 37 + description.len() as int) =~= description);
    let first: Seq<char> = match approver.firstname {
        Some(f) => f@,
        None => Seq::empty(),
    };
    let tail = "\nApproved by: "@ + approver.lastname@ + ", "@ + first + " ("@ + approver.email@
        + ")"@;
    let head = heading + description + "\n\nRequested by: "@ + contact_line(requestor);
    assert(report =~= head + tail);
    assert(report.subrange(report.len() - tail.len(), report.len() as int) =~= tail);
}

/// The request email tells the approver what the request is about, whatever
/// the service's address is (also where none is configured): the
/// description stands right after the 32 characters of the opening line,
/// and the address is only appended at the end.
pub proof fn law_request_text_carries_description(description: Seq<char>, service_url: Seq<char>)
    ensures
        request_text(description, service_url).subrange(32, 32 + description.len() as int) == description,
        request_text(description, service_url) == request_text(description, Seq::empty())
            + service_url,
        request_text(description, service_url).take(32) == "\nYou have a new request about:\n\n"@,
{
    reveal_strlit("\nYou have a new request about:\n\n");
    let opening = "\nYou have a new request about:\n\n"@;
    assert(opening.len() == 32);
    let text = request_text(description, service_url);
    assert(text.subrange(32, 32 + description.len() as int) =~= description);
    assert(text.take(32) =~= opening);
    assert(text =~= request_text(description, Seq::empty()) + service_url);
}

} // verus!
