# prior_web

The verified core of the Prior web client, written in Verus.

- `src/auth`: sign-in settings from the environment (GitHub OAuth with
  `GITHUB_*`, or an Auth0 tenant with `AUTH0_*`), the login, callback
  and logout decisions, the session and flow cookies, and the session checks
  that server functions rely on.
- `src/net`: Prior's gate protocol as plain data (structured values, request
  payloads, collecting a request's answer, reading the Prior gate's websocket frames,
  opening a session and the dashboard refresh as step functions, the table of
  requests in flight on the live channel), factory run records and the dashboard's view of them.
- `src/pages`: the dashboard's interface state and what each pane shows.
- `src/state`, `src/runtime.rs`: shared auth and gate state, listen and gate
  addresses, the theme.
- `app/`: the axum server around the library (environment, HTTP calls to
  the sign-in provider, cookies).

Verus checks every function in `src/`; the public functions state their
results in contracts, and a few trusted wrappers around std and outside
crates state what those calls return. `tests/` run the library on concrete
values.
