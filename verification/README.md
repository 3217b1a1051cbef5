# mkwo_records_bot

A Discord bot that keeps Mario Kart time-trial records in a Google Sheet. A
player picks a track with `/play`, posts a screenshot of a race, and the bot
asks a vision model for the time in the yellow box, stores the record and
shows it in chat.

The crate is in two parts.

- `src/` is the library, verified with Verus: the race-time grammar and the
  reading of a model's answer (`ocr`), the provider order and failover, the plan
  by which a screenshot is shrunk, the A1 ranges and cell formats of the sheet
  and the rows of tracks, players and records (`sheets`), and the checks, texts
  and decisions of the bot's commands and messages (`discord`). Rows are read
  in two ways: with their row numbers and the sheet's cell codecs
  (`sheets::{tracks,players,records}`), and cell by cell with a text for the
  first thing wrong (`sheets::raw`), which the plain track selection and the
  screenshot reply of a local model (`discord::commands::ocr`) use. `decimal`,
  `text` and `duration` hold the number, string and time helpers they rest on.
- `app/` is the program around it: the Discord client, the Sheets and HTTP
  calls, image decoding and encoding, and the conversions of the few values
  kept as floating point in the sheet.

The tests under `tests/` run the library with the real outside crates linked.
