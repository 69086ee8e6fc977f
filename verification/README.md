# clomonitor-core

The checks CLOMonitor runs on a repository, the report they make up, and the
integer side of the report's scoring, verified with Verus.

- `src/linter/` — check sets, the linter's input, check identifiers and outputs,
  and the report's sections. Each section lists the checks that have an output
  and those that passed or were exempted; the second list is proved to be drawn
  from the first, and neither repeats a check.
- `src/score.rs` — the weight of each section and of the whole report, the sum
  of weights that merging scores divides by, and the rating a whole number of
  points earns.
- `src/table.rs` — the cells of the results tables: text, alignment, weight and
  colour of header, entry, score and check cells, and the rows of the checks
  summary table.
- `app/` — the floating point scores, the serialisable and command line forms
  of the types, the `Linter` trait and the results tables, built on the library.
