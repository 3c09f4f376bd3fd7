# agtalk

The decision logic of the agtalk local message-bus daemon, written in Verus
and proved against its contracts.

- `src/` — the verified library: request admission; a connection's session
  across its requests (recheck, auth, join steps, leave, approval waits, long
  polls); identity joins and cleanup of stale identities; the transitions of
  a graph node attempt (as a spec step relation) with the reports and
  failure plans built on it; inbox queries and presentation; asks;
  memory queries; waiter registries; daemon status; schema migration
  planning; and the text and number helpers they rest on.
  Laws that span several functions are public proof functions (`lemma_*`).
- `app/` — the I/O around it: JSON forms of requests and replies, the
  daemon's pid and status files, session files, the process table, and the
  SQLite queries.
- `tests/` — tests on concrete values.
