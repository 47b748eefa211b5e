# gpui_component

The verified core of a GPUI component kit, written in Verus.

- `src/` is the library. Every function there carries a contract that Verus
  proves: the overlay paint priorities (`layer`), the keyboard-modality switch
  behind focus rings (`focus_visible`), icons (`icon`), radio buttons and the
  radio group's keyboard navigation (`radio`), the searchable item list and
  the select state machine (`searchable`, `search`, `select`), the suggest
  input (`suggest_input`), sidebar groups and menus (`sidebar`), dialog
  footers (`dialog`), the slider's scale and element options (`slider`), and
  the resolution of the GPUI crate path for the kit's macros (`crate_path`).
  Text helpers live in `text`.
- Values that belong to the host toolkit (click handlers, focus handles,
  lengths, colors) are carried as type parameters and never inspected.
- `app/` holds what the library does not: the slider's floating-point value
  arithmetic, and the manifest lookups and token output of the crate-path
  resolution.
- `tests/` exercises the library.
