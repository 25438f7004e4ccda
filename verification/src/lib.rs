//! Request-and-approval tickets: users sign up and log in, ask another
//! user to approve a request with a document attached, and approve the
//! requests addressed to them. This crate holds the service's rules and
//! decisions; the web server, the database and the mail transport call it.

/// Decimal text of numbers: ticket numbers in emails, ids in the session cookie.
pub mod decimal;
/// The rows of the ticket and account tables.
pub mod models;
/// Redirects and flash messages.
pub mod reply;
/// Ticket lists, document access, new ticket rows.
pub mod ticket;
/// Argon2 password hashes.
pub mod password;
/// Sign-up, login, logout and sessions.
pub mod user;
/// Email texts.
pub mod mail;
/// Names of stored documents.
pub mod upload;
/// The approval of a ticket, step by step.
pub mod approve;
/// The creation of a ticket from the upload form, step by step.
pub mod create;
/// The overview page and plain redirects.
pub mod pages;
