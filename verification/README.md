# user_service

The account logic of a small banking web service, verified with Verus:
registration, login, password reset by mailed token, and registration of
accounts with the Yapily open-banking API.

- `src/` is the verified library. `errors` maps failures to HTTP answers;
  `ids` holds account ids and reset tokens (UUIDs) and their text form;
  `db` the account type, the request bodies and the login decision;
  `yapily` the API calls (URLs, `Authorization` header, payloads);
  `mail` the reset mail; `routes` the decisions of each HTTP handler;
  `config` the server address.
- `app/` is the server: actix-web handlers, the PostgreSQL store (diesel),
  the Redis-backed session, SMTP, Argon2 password hashing, and the JSON
  shapes of requests and answers. It performs the work (queries, session
  writes, mail delivery, HTTP calls, password hashing) and hands the
  decisions of each handler to the library.
- `tests/` runs the library on concrete values.
