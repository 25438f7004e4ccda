//! What a route answers: a redirect, possibly with a flash message.

use vstd::prelude::*;

verus! {

/// The pages that the service redirects to.
#[derive(Clone, Copy, Debug, PartialEq, Eq, Structural)]
pub enum Target {
    /// The ticket overview at `/`.
    Index,
    /// The login form at `/login`.
    LoginPage,
    /// The sign-up form at `/signup`.
    SignupPage,
}

/// The path of a target page.
pub open spec fn target_path(t: Target) -> Seq<char> {
    match t {
        Target::Index => "/"@,
        Target::LoginPage => "/login"@,
        Target::SignupPage => "/signup"@,
    }
}

impl Target {
    /// The path of the page.
    pub fn path(&self) -> (r: String)
        ensures
            r@ == target_path(*self),
    {
        match self {
            Target::Index => String::from_str("/"),
            Target::LoginPage => String::from_str("/login"),
            Target::SignupPage => String::from_str("/signup"),
        }
    }
}

/// Whether a flash message reports success or failure.
#[derive(Clone, Copy, Debug, PartialEq, Eq, Structural)]
pub enum FlashKind {
    Success,
    Error,
}

/// The messages that the service shows its users.
#[derive(Clone, Copy, Debug, PartialEq, Eq, Structural)]
pub enum Notice {
    InvalidUpload,
    MissingDescription,
    MissingApproverEmail,
    MissingFile,
    FileNotStored,
    TicketNotCreated,
    ConfirmationNotSent,
    TicketAdded,
    TicketNotApproved,
    ApprovedWithoutConfirmation,
    TicketDeleted,
    TicketNotDeleted,
    EmptyEmail,
    EmptyPassword,
    PasswordsDiffer,
    AccountCreated,
    AccountNotCreated,
    InvalidCredentials,
    LoggedOut,
}

/// The text of a message, as the users read it.
pub open spec fn notice_text(n: Notice) -> Seq<char> {
    match n {
        Notice::InvalidUpload => "Ungültige Datei"@,
        Notice::MissingDescription => "Ticket-Beschreibung konnte nicht geladen werden"@,
        Notice::MissingApproverEmail => "Genehmiger-Email konnte nicht geladen werden"@,
        Notice::MissingFile => "Datei konnte nicht geladen werden"@,
        Notice::FileNotStored => "Datei konnte nicht hochgeladen werden"@,
        Notice::TicketNotCreated => "Ticket konnte nicht erstellt werden"@,
        Notice::ConfirmationNotSent => "Bestätigungsemail konnte nicht versendet werden"@,
        Notice::TicketAdded => "Ticket wurde erfolgreich hinzugefügt"@,
        Notice::TicketNotApproved => "Ticket konnte nicht genehmigt werden"@,
        Notice::ApprovedWithoutConfirmation =>
            "Ticket wurde genehmigt, Bestätigungsemail konnte allerdings nicht versendet werden"@,
        Notice::TicketDeleted => "Ticket wurde erfolgreich gelöscht"@,
        Notice::TicketNotDeleted => "Ticket konnte nicht gelöscht werden"@,
        Notice::EmptyEmail => "Email darf nicht leer sein"@,
        Notice::EmptyPassword => "Password darf nicht leer sein"@,
        Notice::PasswordsDiffer => "Passwörter stimmen nicht überein"@,
        Notice::AccountCreated => "Account wurde erfolgreich erstellt"@,
        Notice::AccountNotCreated => "Probleme bei der Accounterstellung"@,
        Notice::InvalidCredentials => "Ungültige Email oder Password"@,
        Notice::LoggedOut => "Erfolgreich abgemeldet"@,
    }
}

impl Notice {
    /// The text of the message.
    pub fn text(&self) -> (r: String)
        ensures
            r@ == notice_text(*self),
    {
        match self {
            Notice::InvalidUpload => String::from_str("Ungültige Datei"),
            Notice::MissingDescription => String::from_str(
                "Ticket-Beschreibung konnte nicht geladen werden",
            ),
            Notice::MissingApproverEmail => String::from_str(
                "Genehmiger-Email konnte nicht geladen werden",
            ),
            Notice::MissingFile => String::from_str("Datei konnte nicht geladen werden"),
            Notice::FileNotStored => String::from_str("Datei konnte nicht hochgeladen werden"),
            Notice::TicketNotCreated => String::from_str("Ticket konnte nicht erstellt werden"),
            Notice::ConfirmationNotSent => String::from_str(
                "Bestätigungsemail konnte nicht versendet werden",
            ),
            Notice::TicketAdded => String::from_str("Ticket wurde erfolgreich hinzugefügt"),
            Notice::TicketNotApproved => String::from_str("Ticket konnte nicht genehmigt werden"),
            Notice::ApprovedWithoutConfirmation => String::from_str(
                "Ticket wurde genehmigt, Bestätigungsemail konnte allerdings nicht versendet werden",
            ),
            Notice::TicketDeleted => String::from_str("Ticket wurde erfolgreich gelöscht"),
            Notice::TicketNotDeleted => String::from_str("Ticket konnte nicht gelöscht werden"),
            Notice::EmptyEmail => String::from_str("Email darf nicht leer sein"),
            Notice::EmptyPassword => String::from_str("Password darf nicht leer sein"),
            Notice::PasswordsDiffer => String::from_str("Passwörter stimmen nicht überein"),
            Notice::AccountCreated => String::from_str("Account wurde erfolgreich erstellt"),
            Notice::AccountNotCreated => String::from_str("Probleme bei der Accounterstellung"),
            Notice::InvalidCredentials => String::from_str("Ungültige Email oder Password"),
            Notice::LoggedOut => String::from_str("Erfolgreich abgemeldet"),
        }
    }
}

/// A route's answer: a plain redirect, or a redirect that carries a flash
/// message to the next page.
#[derive(Clone, Copy, Debug, PartialEq, Eq, Structural)]
pub enum Reply {
    Redirect(Target),
    Flash(FlashKind, Target, Notice),
}

/// A redirect with a success message.
pub open spec fn success(to: Target, n: Notice) -> Reply {
    Reply::Flash(FlashKind::Success, to, n)
}

/// A redirect with an error message.
pub open spec fn failure(to: Target, n: Notice) -> Reply {
    Reply::Flash(FlashKind::Error, to, n)
}

} // verus!
