# Display widgets

The state and decision logic of a set of display widgets — calendar, collapse
panels, carousel, badge, card, description list, empty state, avatar and
charts — written in Verus. Each public function states in its contract what it
returns or how it changes the widget, over a plain model of the widget
(`@`), and the laws that relate several calls are proved as public lemmas.

Geometry is in whole units (`geometry.rs`); dates use the proleptic Gregorian
calendar (`date.rs`). Measured chart values, text measurement and painting use
floating point and stay outside the verified library.

Layout:

- `src/` — the verified library, one module per widget plus shared
  `geometry`, `color`, `date`, `event` and `text` modules.
- `tests/` — tests of the library on concrete values.
- `app/` — adapters for floating-point settings, chart data with measured
  values, tooltip text and number formatting.
