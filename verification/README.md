# rusty_clock_ui

The user interface of an e-paper alarm clock, verified with Verus.

- `src/ui/mod.rs`: the model of the interface and its update on messages (time,
  sensor readings, alarm manager, three buttons), the main menu entries and the
  field-by-field editing of the date and time.
- `src/ui/view.rs`: the texts of the screens and the drawing of the model.
- `src/ui/header.rs`, `src/ui/menu.rs`: the header corners and the paged menu.
- `src/display.rs`: the frame buffer of `epd-waveshare` and text drawing through
  `embedded-graphics`, the only trusted part.
- `src/text.rs`, `src/datetime.rs`: decimal formatting, dates.
- `src/laws.rs`: properties that span several operations.
- `app/lib.rs`: conversion of BME280 floating-point readings.
