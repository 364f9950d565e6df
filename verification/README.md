# board

A dashboard of Docker applications grouped in categories. Users listed in
`config.yml` sign in with a form and get a session token (an HS256 JSON Web
Token in a `token` cookie); each category shows the running containers
labelled `es.atareao.board.*`; a chat channel carries the board's messages
and Docker's events.

Layout:

- `src/` — the library, verified with Verus: the configuration model and its
  lookups (`models`), applications built from container labels, who a request
  is signed in as (`http::auth`), what a login and a logout answer
  (`http::session`), the chat lines (`http::chat`) and what Docker's events
  become (`events`); `clock` reads the current time. `bindings` holds the
  contracts assumed of jsonwebtoken, cookie, chrono, std's clock and std's
  string comparison. A session token is decoded without a clock; its expiry
  (one hour, with a minute of leeway) is checked by the library.
- `app/` — the server: reading `config.yml`, the Docker calls, the axum routes
  and the minijinja templates.
- `tests/` — tests of the library, run against the real outside crates.
