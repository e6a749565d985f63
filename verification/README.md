# spotix

The state and decisions behind the Spotix desktop window, verified with Verus.

- `src/qt/` holds what the window shows: navigation and its history, the
  tree and the detail rows, search and library lists, the account page with
  the cache summary, playback bookkeeping and the commands sent to the
  player, artwork rendered as coloured text, and the start-up state.
- `src/widget/` holds the decisions of an image fetched from the network.
- `src/audio/` holds the spectrum meter's band levels and the framing of a
  block of samples for analysis.
- `src/text.rs` and `src/text_map.rs` hold the text helpers and the small
  keyed map the rest is built on.
- `app/` is the program around the library: logging, the player channel,
  the network, the disk, JSON for the QML side and the floating-point
  parts (spectrum filters, sliders, artem's rendering).
