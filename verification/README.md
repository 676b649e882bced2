# interoperability_tests_sv2

Compliance testing for Stratum V2 endpoints, with its decision logic
verified by Verus.

- `src/` — the verified library: app types and the sub-protocols they speak,
  batch configuration and the targets it expands to, the scenarios as state
  machines (what each sends, how it judges each reply), the client's wait
  decisions, the preflight, suite runs and their summary.
- `app/` — the `sv2-compliance` program: command line, TOML loading, the
  network client built on the Sv2 integration-test roles, and the loops that
  perform the actions the library asks for.
- `tests/` — tests of the library on concrete values.

The Solo Pool suite holds the Common and Mining scenarios listed in
`src/scenarios/`; scenarios for `NewExtendedMiningJob` (M-NEMJ-*) are not
part of the suite yet.
