# passm3nage

An offline, terminal password vault whose rules are verified with Verus.

- `src/` is the verified library: key derivation and authenticated
  encryption of records (`crypto`), the binary vault header (`vault`), and
  the interactive session (`session`): its state, every key press, the
  texts the screens show, the login check in `tech.json`, and saving and
  loading the encrypted records. Calls into libsodium (`sodiumoxide`),
  `secrecy` and `hex` stand behind small trusted wrappers whose contracts
  say what those crates document.
- `app/` is the program around it: argument handling, the terminal loop
  (`crossterm`, `ratatui`), JSON files (`serde_json`) and file copies. Each
  session step that needs the disk returns an `Effect`; `app/` performs it
  and hands the outcome back to the library.
- `tests/` runs the library with the real outside crates.
