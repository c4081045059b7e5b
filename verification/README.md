# rustplatform

Request logic of a small document platform on MongoDB — account registration,
authentication, collection management, token refresh — written in Verus and
proved against its contracts.

- `src/` — the verified library. Each request is a state machine: a start
  function returns the first action; a step function takes the outcome of
  that action and returns the next one, until a final answer. The
  transitions are specified exactly, and the properties that span steps
  (for example, a password secret is only stored for an account the upsert
  has just created) are proved as lemmas beside them.
  - `model` — roles, credentials, refusals, and the stored records (accounts,
    secrets, collection descriptors) with their exact builders.
  - `accounts` — user, admin and first-admin registration; error reports.
  - `auth` — authentication and its lookup pipeline.
  - `collections` — collection descriptors: create, read, update, delete,
    and aggregation results.
  - `tokens` — token refresh.
  - `routes` — decisions of the rocket HTTP routes.
  - `db_types` — the database types the library carries, and the bson
    calls it makes (parse an id, copy a document, test a document for fields).
- `app/` — the server around the library: MongoDB calls, actix-web and
  rocket handlers, serde representations.
- `tests/` — scenario tests of the library.
