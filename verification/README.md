# BrewBoard

BrewBoard helps brewing pour-over coffee. A touch display next to the
brewer shows which pour is due next; a small web site manages the recipes
and the brews that were made.

## Layout

- `src/` – the library, verified with Verus:
  - `app.rs` – the brewing device as a state machine: which screen is
    shown, how each message moves between screens, and what must be fetched
    from or stored in the database next.
  - `default_screen.rs`, `settings_screen.rs`, `countdown_screen.rs`,
    `brew_screen.rs`, `finish_screen.rs` – the screens of the device.
  - `records.rs`, `pages.rs`, `templates.rs` – the records of the recipe and
    brew manager and the web pages built from them.
  - `text.rs` – numbers in decimal and text built piece by piece.
- `tests/` – tests of the library.
- `app/` – the programs around it: `brewboard` runs the device (iced),
  `brewboard server` runs the web site (axum); both talk to PostgreSQL
  through sqlx.
