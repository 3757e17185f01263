# road_lists

A waybill ("путевой лист") service: users sign in with Yandex, keep their
drivers, vehicles and organisation details, and print batches of waybills to
PDF with Typst.

- `src/` is the verified library: Typst escaping and rendering of waybills,
  the step-by-step flows of signing in and of printing a batch, sessions and
  their cookie, and the records the service answers with. Each public
  function has a contract; the laws of the library are public proof
  functions (`lemma_*`).
- `app/` is the web server around it: HTTP routes (axum), the SQLite
  database (sqlx), the OAuth exchange and profile fetch (oauth2, reqwest),
  files and the Typst compiler. It performs the actions the library's flows
  ask for and hands back what came of them.
- `tests/` runs the library on concrete values.
