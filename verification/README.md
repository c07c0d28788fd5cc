# hexly

Hexly inspects the memory of NFC smart cards (MIFARE Classic first of all) through PC/SC
readers, in a GTK4 / libadwaita window.

This crate holds its logic as a library verified with Verus:

- `backend::pcsc` — reading an ATR (`parse_atr`), card layouts (`capacity_for_kind`), byte
  formatting (`format_bytes`), the answer to the UID command, the reader listing, error texts,
  and the reader worker's state machine (`worker::WorkerState`).
- `backend::nfc` — the NFC worker's decisions (`worker::NfcWorkerCore`), its messages, and the
  reader names of the PC/SC layer.
- `backend::state` — what the window knows (`AppState`) and the card model.
- `ui::window` — the window's state machine (reader list, selection, reads, events) and what
  it draws for each state (`render`), with the laws that the transitions keep.
- `ui::widgets`, `ui::formatters`, `ui::windows::settings`, `utils::format` — the texts, badges
  and layouts that the widgets show.

`app/` is the program around it: GTK widgets, the worker threads and channels, and the calls
into the PC/SC layer, which hand their outcomes to the library.
