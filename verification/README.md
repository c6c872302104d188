# seventv_api

The request-handling rules of the 7TV v3 API, written in Verus and proved
against their contracts: permissions and guards, bans, emote sets and their
emotes, users, editors and entitlements, reports, roles, messages, search
plans, audit-log rendering, session and IP handling, cookies and the login
flow.

Layout:

- `src/` — the verified library. Each module states its rules as spec
  functions over plain values and proves the executable code against them.
  Public `proof fn` items state properties that span several functions
  (for instance that every change of an emote set keeps its aliases unique,
  or that an id's text reads back as the same id).
- `tests/` — tests on concrete values.
- `app/` — the HTTP glue around the library: axum middleware, response
  rendering and serde copies of library types.

Storage, the GraphQL runtime and calls to other services stay outside the
library; its functions take what those return as arguments.
