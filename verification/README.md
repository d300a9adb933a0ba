# provola

Provola, the quick tester, with its decisions verified by Verus.

- `src/` is the verified library: guessing a source's language (`lang`),
  turning command-line options into actions (`options`), the GUI state and
  the messages it answers (`gui`), the widgets of the result panel (`panel`,
  over the test report model in `report`), and the text of each error
  (`errors`).
- `app/` is the program around it: argument parsing, completions, watching
  paths for changes, the egui window, and the error type with its `Display`.
- `tests/` runs the library on concrete values.
