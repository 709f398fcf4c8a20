# styleforce

Python bindings for testing and applying GritQL patterns, with a verified core.

- `src/` (Verus): the outcome states of a sample (`state`), the report over
  all tested patterns with its counts and summary line (`report`, `decimal`),
  the decisions taken while discovering patterns (`discovery`), the second
  look at a sample after formatting (`recheck`) and the choice of the
  rewritten source when a pattern is applied (`rewrite`).
- `app/`: the `_native` Python extension module; it drives the GritQL engine,
  the async runtime and JSON, and hands the library plain values.
- `tests/`: tests of the library on concrete values.
