# rex_tui

The logic of Rex, a personal finance tracker: checking and correcting what
the user types into a transaction (dates, types, methods, tags, amounts),
stepping fields up and down, the key bindings of every page, moving through
the tables and widgets, and the data the pages show. It is written in Verus:
each function states what it does in its `requires` / `ensures`, and Verus
proves it.

- `src/` is the verified library. `text.rs` holds the string operations the
  rest is stated over; `date.rs`, `field_checks.rs`, `method_match.rs`,
  `status_checks.rs` and `amount.rs` check and step single fields;
  `tx_data.rs`, `add_tx_data.rs` and `transfer_data.rs` hold a transaction
  being entered; `entry.rs` handles the keys typed into its fields;
  `keys.rs`, `navigation.rs`, `arrows.rs` and `page_actions.rs` decide what a
  key does on each page; `home_data.rs`, `chart.rs`, `activity.rs`,
  `history.rs` and `popup.rs` hold what the pages show.
- `tests/` runs the library on concrete values.
- `app/` is a small line-based front end: it stores the transactions with
  SQLite, computes balances and summaries (with floating point numbers, which
  stay out of the library) and asks the library to check every field.
