# attendance

The verified core of an employee attendance web service (employees,
designations, daily attendance, sign-in with access tokens).

- `src/` — the library, verified with Verus:
  - `auth`: roles, token claims, the decision on a request's token
    (`authorize_claims`), the `Authorization` header (`jwt_from_header`),
    sign-in checks (`LoginRequest`);
  - `password`: stored password hashes (SHA-256 via ring, hex via
    data-encoding);
  - `employee`: new employees with hashed passwords, and the updates an
    administrator or an employee may make;
  - `sql`: text and parameter types of multi-row inserts, insert checks;
  - `ids`: identifiers (UUIDs as `u128`) and their text;
  - `text`, `error`: numerals, string helpers, error messages.
- `app/` — the HTTP server (warp), PostgreSQL access (tokio-postgres) and
  JWT encoding (jsonwebtoken) around the library.
- `tests/` — tests of the library.

Verified functions do not panic on any input. Those that read the clock
(`Claims::new`, `Claims::new_permanent`, `token_claims`,
`LoginRequest::token_claims`, `authorize`) or draw random identifiers
(`new_id`, `new_ids`, `EmployeePassword::prepare`, `prepare_employees`)
still panic where chrono or uuid do on the machine's state: a system clock
set before 1970, or a failing operating-system random source.
