# cloak

The verified core of the Cloak secrets manager, checked with Verus.

- `src/` is the library. Each public function states what it returns in its
  contract; the flows that alternate database work and decisions
  (`accept_invite`, `registration`) are step functions from a state and the
  last query's result to the next state and the next query or write.
- `app/` holds what needs the web and database crates: the `x-user-id`
  extractor, the sqlx queries of the models, and the handler flows that run
  the queries the library asks for.
- `tests/` runs the library on concrete values.
