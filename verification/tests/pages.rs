use rats::models::Ticket;
use rats::pages::{index, logged_in_redirect, user_index};
use rats::reply::{Reply, Target};
use rats::upload::upload_name_from;
use rats::user::User;

fn ticket(id: i32, approver: i32, requestor: i32) -> Ticket {
    Ticket { id: Some(id), description: String::new(), approved: false, approver, requestor, filename: String::new() }
}

#[test]
fn overview_splits_requests_and_approvals() {
    let c = user_index(User(1), Some(vec![ticket(1, 2, 1), ticket(2, 1, 3), ticket(3, 4, 1)]), Some("hi".to_string()));
    assert_eq!(c.user_id, 1);
    assert_eq!(c.request_ticket.iter().map(|t| t.id.unwrap()).collect::<Vec<_>>(), vec![1, 3]);
    assert_eq!(c.approval_ticket.iter().map(|t| t.id.unwrap()).collect::<Vec<_>>(), vec![2]);
    assert_eq!(c.flash, Some("hi".to_string()));
    let c = user_index(User(1), None, None);
    assert!(c.request_ticket.is_empty() && c.approval_ticket.is_empty() && c.flash.is_none());
}

#[test]
fn redirects() {
    assert_eq!(index(), Reply::Redirect(Target::LoginPage));
    assert_eq!(logged_in_redirect(), Reply::Redirect(Target::Index));
    assert_eq!(Target::LoginPage.path(), "/login");
}

#[test]
fn upload_names() {
    assert_eq!(upload_name_from("20240131T235959", 4294967295), "20240131T235959-4294967295.doc");
    assert_eq!(upload_name_from("20240131T235959", 0), "20240131T235959-0.doc");
    assert_ne!(upload_name_from("20240131T235959", 12), upload_name_from("20240131T235959", 1));
}
