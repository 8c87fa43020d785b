# ncube

The verified core of the Ncube daemon, written in Verus.

- `src/` is the library that Verus verifies: parsing of sqlite and HTTP
  connection configurations (`db`), the decisions of the host actor over the
  configuration store (`host`), the rules of the configuration handlers and
  the state machine that drives the verification of a segment (`handlers`),
  and the small decisions of the stores (`stores`).
- `app/` is ordinary Rust around it: the sqlite connection pool, the HTTP
  client, the SQL of the stores, the host actor's I/O and the async handlers
  that perform the actions the library decides on.
- `tests/` exercises the library on concrete values.
