# users_api

The request logic of a small JSON web service that stores users in
PostgreSQL and authenticates callers by an RS256 bearer token, written in
Verus with its contracts proved.

- `src/` is the verified library:
  - `error.rs`: the errors, their HTTP status codes, JSON bodies and texts;
  - `database.rs`: how a database driver error is told apart;
  - `repositories/users.rs`: the SQL statements and their bound values, the
    filter semantics and the paging offsets;
  - `handlers/users.rs`: the API's request and response types, listing
    defaults and the conversions between API and storage types;
  - `middleware.rs`: extraction of the bearer token from the
    `Authorization` header, the check of the held public key and of the
    token's RS256 signature (through jsonwebtoken), and the claims a
    handler receives;
  - `config.rs`: the shape of the configuration.
- `app/` is the actix-web server around it: configuration loading, the
  database pool, reading a token's payload into its claims, logging, routing and OpenAPI documentation.
- `tests/` runs the library on concrete values.
