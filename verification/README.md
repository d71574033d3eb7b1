# arsa-backend

Backend of ARSA (Arma Reforger Server Admin): a REST API and websocket server that
manages Arma Reforger game servers running in containers.

## Layout

- `src/` is the library, verified with Verus. It holds the rules of the service as
  functions from plain values to plain values, each with a contract: accepted log
  directory names and the paths built from them, the players found in a console log,
  session claims and their refresh, the container plan of a server and the decisions
  around starting and stopping it, image pull records, the scenario list a listing run
  prints, statistics summaries, workshop
  requests, configuration defaults and the HTTP answer of every error. Laws that relate
  several functions are public proof functions next to the functions they speak of.
- `src/bindings.rs` holds every call into an outside crate (`regex`, `uuid`, `chrono`,
  `http` through `axum`), each behind a small wrapper whose contract states what the
  crate documents.
- `tests/` runs the library on concrete values.
- `app/` is the service itself: routing, handlers, database, container engine, OpenID
  sign-in and the websocket. It does the I/O and hands plain values to the library.

## Environment

`ARSA_BIND_ADDRESS` (default `0.0.0.0:3000`), `ARSA_ALLOWED_ORIGINS` (`;`-separated),
`ARSA_ACCESS_ROLE`, `ARSA_ADMIN_ROLE`, `ARSA_OIDC_ISSUER`, `ARSA_OIDC_CLIENT_ID`,
`ARSA_OIDC_CLIENT_SECRET`, `ARSA_OIDC_CALLBACK_URI`, `ARSA_OIDC_FRONTEND_URI`,
`ARSA_USE_VOLUME`, `ARSA_SERVER_VOLUME`, `ARSA_REPO_VOLUME`, `ARSA_BASE_PATH` and
`ARSA_WORKSHOP_BUILD_ID` (the build of the workshop site whose data routes are used).
