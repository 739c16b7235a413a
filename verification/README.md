# mountos_desktop

The logic of the mountOS desktop client, a supervisor over the `mountos`
CLI, written in Verus: every function's behaviour is stated, and proved
against the contracts of a small trusted boundary.

That boundary is the functions marked `#[verifier::external_body]`, whose
contracts Verus takes on trust: `push_char`, `lossy_text` and `debug_quoted`
(`text`), `clock_now`, `since_epoch` and `subsec_nanos` (`argv`),
`default_hasher_hash` (`gateway`), `path_starts_with` (`diagnostics`),
`regex_replace_all` (`scrub`), and `keyring_entry_new`,
`keyring_get_password`, `keyring_set_password`, `keyring_delete_credential`
and `keyring_failure` (`secrets`); with the outside types they declare and
the names (`pub uninterp spec fn`) their contracts use.

`src/` is the verified library:

- `text`, `json`, `error`: strings, parsed JSON documents and the error type.
- `profile`, `listing`: saved mount profiles, their validation and their order.
- `extra_args`, `argv`: the argument lists handed to `mountos`, and the
  screening of user-supplied extra arguments against the flags the client manages.
- `check`, `instances`, `cli_output`, `scrub`: reading what the CLI prints.
- `launch`, `unmount`, `gateway`: the decisions taken while mounts, views and
  gateways start and stop.
- `settings`, `secrets`, `state`, `terminal`, `diagnostics`: preferences,
  keychain secrets, the window's system state and tray menu, the dashboard
  terminal launcher, and the diagnostics bundle.

`app/` is the Tauri shell: it performs the file, process and webview I/O
and hands plain values to the library. `tests/` runs the library.
