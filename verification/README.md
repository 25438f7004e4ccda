# rats

A small service in which tickets can be created and approved: a user
uploads a document with a description and names the approver by email; the
approver sees the request on the overview page and approves it; the
administrator gets a report by email.

- `src/` is the verified library (Verus): the ticket lists and the rule
  for who may download a document, sign-up checks and Argon2 password
  storage, the session cookie, the email texts, and the two multi-step
  flows (creating and approving a ticket) as state machines whose steps
  are proved against their contracts.
- `app/` is the Rocket web server around it: routes, templates, the SQLite
  database through diesel, files on disk and mail through lettre. It runs
  the state machines, performing each action and handing back what came of
  it.
- `tests/` runs the library on concrete cases.
