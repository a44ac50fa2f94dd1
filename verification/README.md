# stat_api_rs

The rules of a small statistics web service (visits and events of client
applications, users with roles and rights, access and refresh tokens),
written in Verus and proved against their contracts.

- `src/` — the verified library: the goal and right tables, the permission
  check, the GraphQL entity guard, error answers, payload and user
  validation, the login / refresh / revoke decision steps, refresh-token
  claims and cookies, and the user-agent label.
- `app/` — the web service around it: routes and handlers, database access,
  the cache, migrations, background tasks, the OpenAPI document and the
  administrator-creation command. It hands the library plain values and acts
  on what the library decides.
- `tests/` — tests of the library on concrete values.
