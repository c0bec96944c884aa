# user_api

A user-lookup HTTP service with two operations, `GET /v1/users` (all users)
and `GET /v1/users/{user_id}` (one user), whose request handling is verified
with Verus.

- `src/` is the verified library: `routing` decides where a request goes and
  reads the percent-encoded user id, `response` turns each outcome into the
  response to send, `models` holds the exchanged values, `outside` holds the
  trusted calls into `regex`, `percent-encoding` and `serde_json`, and `laws`
  proves properties that span these functions.
- `app/` is the hyper service and the API traits around the library.
- `tests/` runs the library on concrete requests and outcomes.
