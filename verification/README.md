# mrml

Rendering and printing of MJML documents, verified with Verus.

- `src/` is the library: the `mjml` root, its head (printed back to MJML
  markup) and body, buttons and carousels, with the tag, style and text
  helpers they share, and insertion-ordered string maps and sets built on
  `indexmap`. Every function states its result exactly in its `ensures`; the
  laws of the library are public proof functions whose names begin with
  `law_`.
- `tests/` runs the library on concrete documents.
- `app/` holds what the library leaves to its host: serde-ready copies of the
  ordered collections and the floating-point pixel arithmetic of carousels.
