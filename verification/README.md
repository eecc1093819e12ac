# kaizen

A feedback-collection service: campaign owners create campaigns, visitors rate
pages of a campaign, and owners read the ratings.

- `src/` is the library, verified with Verus: the route templates and their
  filling (`text::replace`, proved equal to a left-to-right replacement),
  identifier text and parsing (`ident`), the checks on a rating, the
  decisions taken after each store operation (retry on an identifier clash,
  tolerate a page seen before, fail otherwise), the shaping of replies, and
  the page models.
- `app/` is the HTTP server around it: actix-web handlers, the PostgreSQL
  statements (sqlx), sessions, the sign-in middleware and HTML rendering.
- `tests/` exercises the library on concrete values.
