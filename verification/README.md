# msr

A command-line client for Mastodon and Misskey (`msr s`, `msr p`, `msr nl`,
`msr char`, ...), split in two:

- `src/` is a library verified with Verus. It holds what the client decides
  and writes: the paths under `~/.config/msr/`, the contents it writes to the
  settings files, the lines it prints for timelines and notifications (with
  the JSON records of `nl`, `nls` and `bot`), the statuses it builds before
  posting, and the way `char`, `char-next` and `char-line` cut long texts.
  Its contracts state each result exactly; `src/external.rs` holds the few
  calls into std, `serde_json`, `shellexpand` and `toml`, each with the
  contract the rest relies on.
- `app/` is the program: it reads the command line (`seahorse`), the settings
  (`config`), talks to the servers (`mammut`, `misskey`, `reqwest`, `curl`),
  and prints what the library returns.

Modules of the library:

| module     | contents                                                        |
|------------|-----------------------------------------------------------------|
| `config`   | settings types, file paths, `set.toml` / `deepl.toml` contents  |
| `notify`   | notifications, their JSON record, `nl`, `nls`, `bot` output     |
| `timeline` | timeline, status and avatar lines, image viewer choice          |
| `actions`  | statuses to post, DeepL requests, follow / reblog / fav choices |
| `chars`    | cutting texts for `char`, `char-next`, `char-line`              |
| `lines`    | joining words into printed lines                                |
| `external` | calls into std and outside crates                               |
