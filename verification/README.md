# ghtl

The state, storage rules and demonstration of a desktop reader for GitHub
issues, pull requests and discussions, as a library whose functions carry
contracts checked by Verus.

- `src/storage/`: the in-memory store of hosts, items, saved queries, filter
  streams and matches, with item upserts that detect changes. Its rules are
  stated and proved here over plain sequences of rows; no SQLite database
  backs it, so nothing is kept between runs.
- `src/filter.rs`, `src/ordering.rs`, `src/text.rs`: the local filter
  language, the stream order and the text helpers they rest on.
- `src/app/`: the shared application (its modes, status log, local actions
  and the external effects it hands back), the host settings form, and
  `catalog/`, the demonstration that runs every screen on sample data and
  simulates the effects in memory.
- `app/`: the demonstration window, drawn with eframe.
- `tests/`: scenarios of the demonstration and of the library.
