# open_taffeta

Access control for a building's door buzzer: users sign up and log in for
auth tokens, administrators enable users in a back office, and permitted
users buzz doors.

- `src/` is the verified library: password and token hashing, token
  validity and trimming, the access rules of each role, the admin cookie,
  and the decision each API route takes once the database or the buzzer has
  answered. Every function carries a contract that Verus proves; the laws
  (such as the cookie round trip, or that a user keeps at most five tokens)
  are proof functions next to the code they are about.
- `app/` is the web service around it: Rocket routes and request guards,
  the SQLite database through Diesel, the HTTP calls to the buzzer, and the
  environment (`DATABASE_URL`, `SECRET`, `BUZZER_URL`).
- `tests/` runs the library on concrete values.
