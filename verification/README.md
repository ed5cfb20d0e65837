# grafeo

Read-only projections of a graph store, and the planning of filters that search
by text and by vector, with their behaviour proved by Verus.

- `src/graph`: what a store answers (`store`), projections of it (`projection`)
  and what holds of every projection (`laws`).
- `src/planner`: recognition of text search in a filter (`text_predicate`), its
  pushdown into index scans (`text_filter`), the join of a text and a vector
  scan (`hybrid`), what holds of every plan (`laws`), which nodes a plan gives
  (`rows`), the table that a plan stands for (`tables`), its rows
  (`row_laws`), and what two calls have in common (`alike`).
- `src/text`, `src/types`, `src/seqs`: names, values, and facts about sequences.
- `app`: conversions between numbers and the bit patterns that the library holds.
- `tests`: an in-memory store and a small query engine, and the tests on them.
