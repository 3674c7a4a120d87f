# vocabulary_builder

A local vocabulary notebook: word cards with the word, the page it was met
on, how well it is known, and, when given, a pronunciation and parts of
speech. Cards are kept in a SQLite database on the machine; no word, URL or
usage record is sent off it.

The library under `src/` is written in Verus and verified:

- `text`, `parts`: Unicode trimming, search queries, `LIKE` escaping and the
  normal form of a list of parts of speech, with their laws (idempotence,
  escaping that loses nothing and leaves no wildcard).
- `model`, `validation`, `clock`: the card types, the input rules, the clock.
- `pronunciation`: what is picked out of dictionary entries.
- `statements`, `store`, `json`, `repository`: the SQL statements, the calls
  into `rusqlite` and `serde_json`, and the repository that decides what a
  request answers.
- `storage`: the steps of moving the database to another directory.
- `ui`: labels, page counts, localized error messages and the interface copy.

`app/` holds the Tauri commands and the Dioxus interface, which do the I/O
and call the library.
