# robertao

The logic of a Telegram bot that watches player shops of the OriginsRO
market for a chat: people register a sale they are interested in (`/add`),
list the watched sales (`/list`), drop one (`/del`), and the bot checks the
market periodically to tell the chat when an item sold, vanished, changed
price or its shop closed for good.

- `src/` is the verified library (Verus): command parsing, the decisions of
  the periodic sale check, the texts of every reply and notice, record
  identifiers, and the cache schedule, each with its contract and the laws
  that relate them.
- `app/` is the program around it: the Telegram loop, MongoDB, the HTTP
  calls to the game's API, the clock, and the stored (serde) forms of the
  records.
- `tests/` runs the library on concrete inputs.
