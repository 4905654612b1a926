# reedhold_host

The sync JSON HTTP host of Reedhold.

- `src/` is the library, verified with Verus: the route table, the reply
  shapes (200 / 400 / 409 / 404 / 204 and the `{"error": ...}` object),
  sessions held by seat, the service-missing errors, the relay-plan and
  talk-net defaults, the listen address and the response headers.
- `app/` is the program: the `tiny_http` loop, JSON parsing of request
  bodies, and the calls into the `reedhold-api` protocol kernel.

Default listen: `127.0.0.1:4783`. Override with `REEDHOLD_HOST`.
