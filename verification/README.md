# kitty_api

The rules of the Kitty API service, verified with Verus, and the server
around them.

- `src/` is the verified library: account validation, registration and
  login over the profile and address stores (`accounts`, `utils`,
  `entities`), the page-size header (`headers`), the delay and token checks
  that run before routing (`gate`), paging and reply codes of the users
  endpoints (`users`, `misc`), the numbered in-memory user store (`user`),
  seed-data preparation (`preparation`), and the SQL and columns that a data
  item table is served with (`data_item`). `text` holds decimal parsing and
  printing and the other text helpers.
- `app/` is the Rocket server: routes, fairings, database access, JSON and
  the environment. It hands the library plain values and writes its answers.
- `tests/` exercise the library on concrete inputs.
