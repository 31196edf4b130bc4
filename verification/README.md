# backend-conversations

The verified core of the conversations API back end, written in Verus.

- `src/` is the library, every function proved against its contract:
  - `json` — a plain JSON model and the member, array, string and integer
    lookups that key and query handling use;
  - `models` — stored records, token claims and response shapes;
  - `text` — comma-separated lists (split and join, with round-trip laws)
    and string building;
  - `guid` — the hyphenated text form of 128-bit identifiers;
  - `auth` — the identity provider's key set address, status check and PEM
    extraction, the identity provider settings, and the bearer token
    validator as a state machine;
  - `jwt` — reading RSA keys, and the token rules (RS256, realm issuer);
  - `config` — the per-tenant front-end configuration;
  - `database` — page windows, detail lists and nested group chains;
  - `api` — tenant access, error answers, recording keys and addresses.
- `app/` is the HTTP server: routes, Postgres queries, S3 storage, the
  waveform tool, and the conversions between the library's types and their
  serde/sqlx copies.
- `tests/` exercise the library on concrete values.
