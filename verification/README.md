# ortholinear

A terminal client for the Linear issue tracker, with its core logic verified.

- `src/` is the library, verified with Verus: the API's data model and how
  answers are interpreted (`types`, `api`), configuration resolution
  (`config`), dates (`dates`), fuzzy filtering (`fuzzy`), markdown rendering
  (`markdown`, `styled`), activity timelines (`timeline`, `cache`), the
  application state and every change the interface makes to it (`app`), key
  bindings (`keys`) and what the screen shows (`view`).
- `app/` is the program around it: HTTP requests, reading the configuration
  file, the terminal, the editor and the browser. It asks the library what to
  request, hands it the answers, and draws what the library says to show.
- `tests/` exercise the library on concrete values.
