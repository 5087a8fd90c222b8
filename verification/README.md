# novel_api

The rules of a web novel platform's HTTP API, verified with Verus.

`src/` is the library. It decides, for each request, what the database,
message broker and search engine should be asked and what their answers
mean:

- `validation`, `novels`, `chapters`, `comments`, `forums`, `reviews`: the
  rules request bodies must meet, and the slugs of titles;
- `pagination` and the query types: page windows of every listing, and the
  novel and report listing statements with their bound values;
- `workflow`: writes that run in a transaction together with the outbox row
  announcing them (prechecks, error answers, commit order);
- `statements`: the SQL text and bound values of every write and of the
  keyed listings;
- `outbox` and `events`: the publishing round that sends outbox rows to the
  broker and marks them, and the poller that runs it;
- `users`: password hashing, login decisions and account request rules;
- `sessions`: the login and registration flows (password check, last-login
  update, token) and the role check;
- `request_id`, `search`, `responses`: the remaining per-request decisions.

`app/` is the HTTP server: it runs the library's decisions against
PostgreSQL (sqlx), NATS JetStream, Meilisearch and Redis with axum.

`tests/` exercises the library on concrete values.
