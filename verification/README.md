# articles

A service that publishes markdown articles uploaded as `.tar.gz` archives,
with its request logic verified in Verus.

- `src/` is the verified library: slugs and paths (`text`, `settings`), the
  rewriting of relative links (`markdown`), pagination, the gateway's
  access rule (`proxy`), and every request handler as a state machine
  (`handler` for the multipart service, `backend` for the JSON service).
  `consistency` holds the laws that tie the handlers together.
- `app/` runs the services: HTTP routing, the database, the file system and
  archive unpacking, performing the steps the state machines ask for.
- `tests/` runs the library on concrete values.
