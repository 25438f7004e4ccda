use rats::reply::Notice;

#[test]
fn notice_texts() {
    let expected = [
        (Notice::InvalidUpload, "Ungültige Datei"),
        (Notice::MissingDescription, "Ticket-Beschreibung konnte nicht geladen werden"),
        (Notice::MissingApproverEmail, "Genehmiger-Email konnte nicht geladen werden"),
        (Notice::MissingFile, "Datei konnte nicht geladen werden"),
        (Notice::FileNotStored, "Datei konnte nicht hochgeladen werden"),
        (Notice::TicketNotCreated, "Ticket konnte nicht erstellt werden"),
        (Notice::ConfirmationNotSent, "Bestätigungsemail konnte nicht versendet werden"),
        (Notice::TicketAdded, "Ticket wurde erfolgreich hinzugefügt"),
        (Notice::TicketNotApproved, "Ticket konnte nicht genehmigt werden"),
        (
            Notice::ApprovedWithoutConfirmation,
            "Ticket wurde genehmigt, Bestätigungsemail konnte allerdings nicht versendet werden",
        ),
        (Notice::TicketDeleted, "Ticket wurde erfolgreich gelöscht"),
        (Notice::TicketNotDeleted, "Ticket konnte nicht gelöscht werden"),
        (Notice::EmptyEmail, "Email darf nicht leer sein"),
        (Notice::EmptyPassword, "Password darf nicht leer sein"),
        (Notice::PasswordsDiffer, "Passwörter stimmen nicht überein"),
        (Notice::AccountCreated, "Account wurde erfolgreich erstellt"),
        (Notice::AccountNotCreated, "Probleme bei der Accounterstellung"),
        (Notice::InvalidCredentials, "Ungültige Email oder Password"),
        (Notice::LoggedOut, "Erfolgreich abgemeldet"),
    ];
    for (notice, text) in expected {
        assert_eq!(notice.text(), text);
    }
}
