# send_it

SendIT publishes a dropped file to a Zenoh network. This crate holds its interface
logic, verified with Verus, and the egui window around it.

- `src/topic.rs`: the topic key of a dropped file (one parent directory level and the
  file name), over `std::path::Path`.
- `src/drop_zone.rs`: the drop zone's state machine, one frame at a time.
- `src/state.rs`: the interface state, its launch values, the toolbar, and the steps of
  handling a dropped file.
- `src/settings.rs`: the settings bar: tabs, connection form, subscriptions, queries, the
  queryable and the limits.
- `src/status.rs`, `src/command.rs`: the connection status and the worker's commands.
- `src/decimal.rs`: decimal parsing of typed numbers.
- `app/`: the eframe program that draws the window, reads dropped files and talks to
  the worker.
