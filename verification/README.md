# websubmit_boxed

A course submission system. Students register with an email address and
receive an API key, sign in with it, and answer each lecture's questions. A
lecture's presenters read its answers without their authors; admins manage
lectures and questions, read answers with their authors, and see the user list
and a grading report. Protected values carry an access rule (by owner, by
lecture, by consent); before a page is shown, the rules of the values on it
are joined and checked for the viewer, and a page that fails the check is
refused.

- `src/` is the library, verified with Verus: the access rules and how they
  join, the checks of each page, registration and sign-in, the pages and form
  handlers as functions from the rows read to the rows written and the pages
  shown, the SQL statements, the configuration reader, row decoding, mail
  addressing and CSV fields.
- `app/` is the web server around it: command line, configuration file,
  MySQL connection, SMTP, HTTP requests, templates and routes. The rows a
  page reads come from the database queries there.
- `tests/` exercises the library on the scenarios the server serves.
