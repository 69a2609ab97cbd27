# Oeee Cafe for the desktop

A window onto oeee.cafe, on Steam and the Microsoft Store. Every page,
account and drawing is the site's own; the window decides only what a
desktop program has to: where a link goes, what the site's messages ask of
it, which keys are the window's, what the right-click menu keeps, when a
drawing would be lost, and what to tell the page about the store it sells
through.

- `src/` is the library that makes those decisions, written in Verus: each
  public function states what it returns in its contract, and the library's
  laws -- what holds of every input, or across calls -- are proof functions
  beside the functions they speak of. The calls it makes into `url` and
  `serde_json` go through small trusted wrappers whose contracts say what
  those crates do (`address.rs`, `store.rs`).
- `tests/` runs the library on concrete values.
- `app/` is the program around it: Tauri's window and webview, WebView2's
  and AppKit's own objects, Steam's API and the Microsoft Store. It hands
  the library what they report and carries out what it decides.
