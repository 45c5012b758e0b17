# rsstui

A terminal RSS/Atom reader, with its logic written in Verus and proved
against its contracts.

- `src/` is the verified library: the reader's state machine (keys, fetch
  results, read marks, scrolling, the add and delete dialogs), the saved
  configuration, turning parsed feeds into articles, rendering article
  summaries from Markdown into styled lines, and the view model of each pane.
  `src/laws.rs` states and proves properties that span several functions.
  Calls into feed-rs, htmd, pulldown-cmark, chrono and ratatui go through
  small trusted wrappers whose contracts are written beside them.  Input on
  which feed-rs's play-time parsing or htmd's list numbering could overflow
  is checked first: such a feed is refused with a parse error, and such a
  summary is kept as HTML.
- `app/` is the program around it: the terminal loop, HTTP fetching, the
  config file on disk, and drawing with ratatui.
- `tests/` runs the library on concrete inputs.
