use rats::approve::{toggle, toggle_with_id, TicketDetails, ToggleAction, ToggleEvent, ToggleOutcome};
use rats::create::{add_new, AddNewAction, AddNewEvent, NewTicketForm, UploadedFile};
use rats::mail::Contact;
use rats::reply::{FlashKind, Notice, Reply, Target};
use rats::user::User;

fn details() -> TicketDetails {
    TicketDetails {
        description: "Conference trip".to_string(),
        approver: 2,
        requestor: 1,
        filename: "20240101T120000-9.doc".to_string(),
    }
}

fn contact(email: &str, first: Option<&str>, last: &str) -> Contact {
    Contact { email: email.to_string(), firstname: first.map(|s| s.to_string()), lastname: last.to_string() }
}

#[test]
fn approval_runs_to_the_report() {
    let (t, a) = toggle_with_id(7);
    assert!(matches!(a, ToggleAction::FindTicket(7)));
    let (t, a) = t.step(ToggleEvent::TicketFound(true));
    assert!(matches!(a, ToggleAction::MarkApproved(7)));
    let (t, a) = t.step(ToggleEvent::MarkedApproved(true));
    assert!(matches!(a, ToggleAction::LoadDetails(7)));
    let (t, a) = t.step(ToggleEvent::DetailsLoaded(Some(details())));
    assert!(matches!(a, ToggleAction::LoadAccount(1)));
    let (t, a) = t.step(ToggleEvent::AccountLoaded(Some(contact("req@x.org", Some("Rita"), "Meyer"))));
    assert!(matches!(a, ToggleAction::LoadAccount(2)));
    let (t, a) = t.step(ToggleEvent::AccountLoaded(Some(contact("app@x.org", None, "Schulz"))));
    assert!(matches!(a, ToggleAction::ReadAdminEmail));
    let (t, a) = t.step(ToggleEvent::AdminEmailRead(Some("admin@x.org".to_string())));
    match a {
        ToggleAction::SendEmail(m) => {
            assert_eq!(m.to, "admin@x.org");
            assert_eq!(m.subject, "Approval of request #7");
            assert_eq!(
                m.body,
                "The following request was approved:\n\nConference trip\n\nRequested by: Meyer, Rita (req@x.org)\nApproved by: Schulz,  (app@x.org)"
            );
            assert_eq!(m.attachment, "uploads/20240101T120000-9.doc");
        },
        _ => panic!("expected an email"),
    }
    let (_, a) = t.step(ToggleEvent::EmailSent(true));
    assert!(matches!(a, ToggleAction::Finish(ToggleOutcome::Approved)));
    assert_eq!(toggle(ToggleOutcome::Approved), Reply::Redirect(Target::Index));
}

#[test]
fn approval_failures_before_and_after_marking() {
    let (t, _) = toggle_with_id(3);
    let (_, a) = t.step(ToggleEvent::TicketFound(false));
    assert!(matches!(a, ToggleAction::Finish(ToggleOutcome::NotApproved)));

    let (t, _) = toggle_with_id(3);
    let (t, _) = t.step(ToggleEvent::TicketFound(true));
    let (_, a) = t.step(ToggleEvent::MarkedApproved(false));
    assert!(matches!(a, ToggleAction::Finish(ToggleOutcome::NotApproved)));

    let (t, _) = toggle_with_id(3);
    let (t, _) = t.step(ToggleEvent::TicketFound(true));
    let (t, _) = t.step(ToggleEvent::MarkedApproved(true));
    let (t, _) = t.step(ToggleEvent::DetailsLoaded(Some(details())));
    let (_, a) = t.step(ToggleEvent::AccountLoaded(None));
    assert!(matches!(a, ToggleAction::Finish(ToggleOutcome::ApprovedWithoutConfirmation)));

    let (t, _) = toggle_with_id(-4);
    let (t, _) = t.step(ToggleEvent::TicketFound(true));
    let (t, _) = t.step(ToggleEvent::MarkedApproved(true));
    let (t, _) = t.step(ToggleEvent::DetailsLoaded(Some(details())));
    let (t, _) = t.step(ToggleEvent::AccountLoaded(Some(contact("a", None, "b"))));
    let (t, _) = t.step(ToggleEvent::AccountLoaded(Some(contact("c", None, "d"))));
    let (_, a) = t.step(ToggleEvent::AdminEmailRead(None));
    assert!(matches!(a, ToggleAction::Finish(ToggleOutcome::ApprovedWithoutConfirmation)));

    assert_eq!(toggle(ToggleOutcome::NotApproved), Reply::Flash(FlashKind::Error, Target::Index, Notice::TicketNotApproved));
    assert_eq!(
        toggle(ToggleOutcome::ApprovedWithoutConfirmation),
        Reply::Flash(FlashKind::Error, Target::Index, Notice::ApprovedWithoutConfirmation)
    );
}

fn full_form() -> NewTicketForm {
    NewTicketForm {
        description: Some(vec!["New monitor".to_string(), "ignored".to_string()]),
        approver_email: Some(vec!["boss@x.org".to_string()]),
        upload_file: Some(vec![UploadedFile { file_name: Some("offer.doc".to_string()), raw: vec![1, 2, 3] }]),
    }
}

#[test]
fn creation_runs_to_success() {
    let (c, a) = add_new(User(5));
    assert!(matches!(a, AddNewAction::ParseForm));
    let (c, a) = c.step(AddNewEvent::FormParsed(Some(full_form())));
    let name = match a {
        AddNewAction::WriteFile { name, contents } => {
            assert_eq!(contents, vec![1, 2, 3]);
            name
        },
        _ => panic!("expected a file to write"),
    };
    assert!(name.ends_with(".doc"));
    let dash = name.rfind('-').unwrap();
    assert!(name[dash + 1..name.len() - 4].parse::<u32>().is_ok());
    assert_eq!(dash, 15);
    let stamp: Vec<char> = name[..15].chars().collect();
    assert_eq!(stamp[8], 'T');
    assert!(stamp.iter().enumerate().all(|(i, c)| i == 8 || c.is_ascii_digit()));
    assert!(!name.contains('/'));
    let field = |at: usize| name[at..at + 2].parse::<u32>().unwrap();
    assert!((1..=12).contains(&field(4)) && (1..=31).contains(&field(6)));
    assert!(field(9) <= 23 && field(11) <= 59 && field(13) <= 60);
    assert_eq!(rats::create::UPLOAD_SIZE_LIMIT, 100 * 1024);
    let (c, a) = c.step(AddNewEvent::FileWritten(true));
    match &a {
        AddNewAction::FindApprover(e) => assert_eq!(e, "boss@x.org"),
        _ => panic!("expected a lookup"),
    }
    let (c, a) = c.step(AddNewEvent::ApproverFound(Some(8)));
    match a {
        AddNewAction::InsertTicket(t) => {
            assert_eq!(t.id, None);
            assert!(!t.approved);
            assert_eq!(t.approver, 8);
            assert_eq!(t.requestor, 5);
            assert_eq!(t.description, "New monitor");
            assert_eq!(t.filename, name);
        },
        _ => panic!("expected an insert"),
    }
    let (c, a) = c.step(AddNewEvent::TicketInserted(true));
    assert!(matches!(a, AddNewAction::ReadServiceUrl));
    let (c, a) = c.step(AddNewEvent::ServiceUrlRead(Some("https://rats.example".to_string())));
    match a {
        AddNewAction::SendEmail(m) => {
            assert_eq!(m.to, "boss@x.org");
            assert_eq!(m.subject, "New request to approve");
            assert_eq!(
                m.body,
                "\nYou have a new request about:\n\nNew monitor\n\nPlease approve or deny it here: https://rats.example"
            );
            assert_eq!(m.attachment, format!("uploads/{}", name));
        },
        _ => panic!("expected an email"),
    }
    let (_, a) = c.step(AddNewEvent::EmailSent(true));
    match a {
        AddNewAction::Finish(r) => assert_eq!(r, Reply::Flash(FlashKind::Success, Target::Index, Notice::TicketAdded)),
        _ => panic!("expected the end"),
    }
}

fn refusal(form: Option<NewTicketForm>) -> Reply {
    let (c, _) = add_new(User(1));
    match c.step(AddNewEvent::FormParsed(form)).1 {
        AddNewAction::Finish(r) => r,
        _ => panic!("form was accepted"),
    }
}

#[test]
fn creation_refuses_incomplete_forms() {
    assert_eq!(refusal(None), Reply::Flash(FlashKind::Error, Target::Index, Notice::InvalidUpload));
    let mut f = full_form();
    f.description = None;
    f.approver_email = None;
    assert_eq!(refusal(Some(f)), Reply::Flash(FlashKind::Error, Target::Index, Notice::MissingDescription));
    let mut f = full_form();
    f.approver_email = None;
    assert_eq!(refusal(Some(f)), Reply::Flash(FlashKind::Error, Target::Index, Notice::MissingApproverEmail));
    let mut f = full_form();
    f.upload_file = None;
    assert_eq!(refusal(Some(f)), Reply::Flash(FlashKind::Error, Target::Index, Notice::MissingFile));
    let mut f = full_form();
    f.upload_file = Some(vec![UploadedFile { file_name: None, raw: vec![] }]);
    assert_eq!(refusal(Some(f)), Reply::Flash(FlashKind::Error, Target::Index, Notice::MissingFile));
}

#[test]
fn creation_failures_later_on() {
    let (c, _) = add_new(User(1));
    let (c, _) = c.step(AddNewEvent::FormParsed(Some(full_form())));
    let (_, a) = c.step(AddNewEvent::FileWritten(false));
    assert!(matches!(a, AddNewAction::Finish(Reply::Flash(FlashKind::Error, Target::Index, Notice::FileNotStored))));

    let (c, _) = add_new(User(1));
    let (c, _) = c.step(AddNewEvent::FormParsed(Some(full_form())));
    let (c, _) = c.step(AddNewEvent::FileWritten(true));
    let (_, a) = c.step(AddNewEvent::ApproverFound(None));
    assert!(matches!(a, AddNewAction::Finish(Reply::Flash(FlashKind::Error, Target::Index, Notice::TicketNotCreated))));

    let (c, _) = add_new(User(1));
    let (c, _) = c.step(AddNewEvent::FormParsed(Some(full_form())));
    let (c, _) = c.step(AddNewEvent::FileWritten(true));
    let (c, _) = c.step(AddNewEvent::ApproverFound(Some(2)));
    let (_, a) = c.step(AddNewEvent::TicketInserted(false));
    assert!(matches!(a, AddNewAction::Finish(Reply::Flash(FlashKind::Error, Target::Index, Notice::TicketNotCreated))));

    let (c, _) = add_new(User(1));
    let (c, _) = c.step(AddNewEvent::FormParsed(Some(full_form())));
    let (c, _) = c.step(AddNewEvent::FileWritten(true));
    let (c, _) = c.step(AddNewEvent::ApproverFound(Some(2)));
    let (c, _) = c.step(AddNewEvent::TicketInserted(true));
    let (c, a) = c.step(AddNewEvent::ServiceUrlRead(None));
    match a {
        AddNewAction::SendEmail(m) => assert!(m.body.ends_with("Please approve or deny it here: ")),
        _ => panic!("expected an email"),
    }
    let (_, a) = c.step(AddNewEvent::EmailSent(false));
    assert!(matches!(a, AddNewAction::Finish(Reply::Flash(FlashKind::Error, Target::Index, Notice::ConfirmationNotSent))));
}
