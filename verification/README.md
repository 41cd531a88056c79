# sory_style

The style engine and widget models of the SoryOS design system, verified
with Verus.

- `src/` is the verified library:
  - `style::css`: a CSS tokenizer and parser, selector matching and
    specificity, style sheets held by name with hot reloading, the cascade
    (one winning value per property), the reading of property values, and
    a generation-based style cache.
  - `widget`: the state and configuration of the SoryOS widgets (toasts,
    modals, popovers, tabs, breadcrumbs, dialogs, cards, pages, the
    navigation sidebar) and of the "modern" widget set; for each, a model
    of what it shows (its pieces, in order, and the messages they send);
    and the decisions of the hover and press micro-interactions.
  - `layout`: the grid (with its packing), stack, dock and flex builders
    and their layouts, and the split layout's axis.
  - `design`, `palette`: color palettes, semantic colors and motion
    durations.
  - `measure`, `text`: the `iced_core` measures and the standard-library
    character functions the library relies on, with their stated behaviour.
- `tests/` exercises the library on concrete values.
- `app/` holds what runs around it: the process-wide style sheets and cache,
  reading style sheets from disk, the floating-point code (resolved style
  values, design tokens in pixels, easing curves, springs), and the
  animated wrapper widget, which runs the springs and asks the library
  what each pointer event means. Drawing the widget models with a widget
  toolkit is left to the application that uses them.

The laws of the library (the cascade picks winners, a stored sheet is read
back, a current cached style is what a fresh computation for the same
widget gives, grid rows never overflow, a collapsed sidebar shows icons
only, ...) are public proof functions next to the code they speak of.
