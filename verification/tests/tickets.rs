use rats::models::Ticket;
use rats::reply::{FlashKind, Notice, Reply, Target};
use rats::ticket::{all_to_approve, all_to_request, delete, insert, retrieve_file_path, upload_file_path, TicketValues};

fn ticket(id: i32, approved: bool, approver: i32, requestor: i32, filename: &str) -> Ticket {
    Ticket {
        id: Some(id),
        description: format!("ticket {}", id),
        approved,
        approver,
        requestor,
        filename: filename.to_string(),
    }
}

fn table() -> Vec<Ticket> {
    vec![
        ticket(1, false, 2, 1, "a.doc"),
        ticket(2, true, 2, 1, "b.doc"),
        ticket(3, false, 1, 2, "c.doc"),
        ticket(4, false, 3, 1, "d.doc"),
        ticket(5, false, 1, 3, "e.doc"),
    ]
}

fn ids(ts: &[Ticket]) -> Vec<i32> {
    ts.iter().map(|t| t.id.unwrap()).collect()
}

#[test]
fn requests_list_open_own_requests_in_order() {
    let t = table();
    assert_eq!(ids(&all_to_request(&t, 1)), vec![1, 4]);
    assert_eq!(ids(&all_to_request(&t, 2)), vec![3]);
    assert!(all_to_request(&t, 9).is_empty());
}

#[test]
fn approvals_list_open_requests_to_approve() {
    let t = table();
    assert_eq!(ids(&all_to_approve(&t, 1)), vec![3, 5]);
    assert_eq!(ids(&all_to_approve(&t, 2)), vec![1]);
    assert!(all_to_approve(&t, 4).is_empty());
}

#[test]
fn list_copies_the_rows() {
    let t = table();
    let r = all_to_request(&t, 1);
    assert_eq!(r[0].description, "ticket 1");
    assert_eq!(r[0].filename, "a.doc");
    assert_eq!(r[1].approver, 3);
}

#[test]
fn only_parties_of_a_ticket_may_download_its_file() {
    let t = table();
    assert_eq!(retrieve_file_path(&t, &"a.doc".to_string(), 1), Some("uploads/a.doc".to_string()));
    assert_eq!(retrieve_file_path(&t, &"a.doc".to_string(), 2), Some("uploads/a.doc".to_string()));
    assert_eq!(retrieve_file_path(&t, &"a.doc".to_string(), 3), None);
    assert_eq!(retrieve_file_path(&t, &"b.doc".to_string(), 1), Some("uploads/b.doc".to_string()));
    assert_eq!(retrieve_file_path(&t, &"x.doc".to_string(), 1), None);
    assert_eq!(upload_file_path("template.doc"), "uploads/template.doc");
}

#[test]
fn new_ticket_row() {
    let values = TicketValues {
        description: "New laptop".to_string(),
        approver_email: "boss@example.com".to_string(),
        filename: "20240101T120000-7.doc".to_string(),
    };
    let row = insert(&values, Some(4), 9).unwrap();
    assert_eq!(row.id, None);
    assert!(!row.approved);
    assert_eq!(row.approver, 4);
    assert_eq!(row.requestor, 9);
    assert_eq!(row.description, "New laptop");
    assert_eq!(row.filename, "20240101T120000-7.doc");
    assert!(insert(&values, None, 9).is_none());
}

#[test]
fn delete_replies() {
    assert_eq!(delete(true), Reply::Flash(FlashKind::Success, Target::Index, Notice::TicketDeleted));
    assert_eq!(delete(false), Reply::Flash(FlashKind::Error, Target::Index, Notice::TicketNotDeleted));
    assert_eq!(Notice::TicketDeleted.text(), "Ticket wurde erfolgreich gelöscht");
    assert_eq!(Target::SignupPage.path(), "/signup");
}

#[test]
fn new_ticket_shows_up_last_on_both_lists() {
    let mut t = table();
    let values = TicketValues {
        description: "Chair".to_string(),
        approver_email: "b@x.org".to_string(),
        filename: "f.doc".to_string(),
    };
    let row = insert(&values, Some(2), 1).unwrap();
    t.push(row);
    let requests = all_to_request(&t, 1);
    assert_eq!(requests.len(), 3);
    assert_eq!(requests[2].description, "Chair");
    let approvals = all_to_approve(&t, 2);
    assert_eq!(approvals.len(), 2);
    assert_eq!(approvals[1].filename, "f.doc");
}

#[test]
fn approved_ticket_leaves_the_lists() {
    let mut t = table();
    assert_eq!(all_to_request(&t, 1).len(), 2);
    assert_eq!(all_to_approve(&t, 2).len(), 1);
    t[0].approved = true;
    assert_eq!(ids(&all_to_request(&t, 1)), vec![4]);
    assert!(all_to_approve(&t, 2).is_empty());
    assert_eq!(ids(&all_to_approve(&t, 1)), vec![3, 5]);
}
