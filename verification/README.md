# es_cheaper

A small messaging service: users register and sign in, befriend each other and post
messages; users and messages are documents in an OpenSearch cluster.

- `src/` is the verified library (Verus). It holds the service's decisions: the search
  queries it sends, how it reads the engine's answers, registration and sign-in with Argon2
  password hashes, friend lists, message listings, and the answers to the requests that
  look up, register, sign in, befriend, list or post (sign-out and index setup are plain
  calls in `app/`).
- `app/` is the HTTP server (actix-web) around it: command-line arguments, the OpenSearch
  client, sessions, JSON, and the requests to the engine, whose outcomes it hands to the
  library as plain values.
- `tests/` runs the library on concrete values.
