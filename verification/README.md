# uxum

Building blocks of an opinionated web-service framework, with the logic proved
correct by Verus.

- `src/` is the verified library: authentication and authorization (credential
  extraction, password checks, role-based permissions, JWT set-up), per-handler
  layers (timeouts with the `X-Timeout` header, rate-limit quotas, CORS policies,
  request buffering, client IP extraction), probes and maintenance mode, route
  planning, server and client settings, Kafka producer settings, JSON log line
  layout, metric instruments and OpenAPI documentation settings. Calls into
  outside crates (`base64`, `password-hash`/`argon2`/`scrypt`/`pbkdf2`, `subtle`,
  `jsonwebtoken`, `iso8601-duration`, `governor`, `tower`, `rdkafka`) go through
  small trusted wrappers whose contracts state what those crates document.
- `tests/` runs the library on concrete values.
- `app/` is the unverified glue: `serde` copies of the configuration types,
  `tower` services around the verified decisions, HTTP responses, the runtime,
  logging, metrics, the Kafka log appender and the `reqwest` client builder.
