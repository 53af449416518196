# cloudflaredns

A terminal manager for the DNS records of a Cloudflare zone, whose core is
verified with Verus.

- `src/` is the verified library: the record model and cache, the Cloudflare
  API endpoint and the reading of its answers (including the walk through a
  paged listing), the formatting of records and addresses, the status line,
  the key handling of the interface as a state machine, and the configuration
  rules. Each function carries its contract; the `law_*` proof functions state
  what holds across calls.
- `app/` is the program around it: HTTP with `reqwest`, the iocraft screens,
  the background tasks, and reading the configuration file and environment.
- `tests/` runs the library on concrete values.

The interface keeps the loaded records as a table (`UiState::records_display`),
updated by every load; the record list screen lays the records out itself,
so the table is kept but not drawn.
