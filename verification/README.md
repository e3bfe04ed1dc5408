# moveme_storage

An object-storage service in the style of Firebase Storage, with a REST API
compatible with Google Cloud Storage's.

- `src/` is the verified library (Verus): security rules and their
  evaluation, object-path normalisation, signed URLs, object versions and
  storage keys, listing pages, resumable-upload rules, backup naming,
  ordering and retention, Firebase token checks, reading stored rows back
  into values, error mapping, settings and API bodies. Public
  proof functions named `law_*` state the properties the library keeps.
- `app/` is the server around it: settings loading, the SQLite database,
  the file backend, tar/gzip archives, fetching Firebase's public keys and
  the Axum routes.
- `tests/` exercises the library on concrete values.
