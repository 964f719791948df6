# resticpal

A backup service for Windows around [restic](https://restic.net/), with its rules
verified by Verus: when a backup runs, what a client may ask for, how restic is
started and its output read, how an update is trusted, and what the notification
icon says.

## Layout

- `src/` is the library. Everything in it is verified.
  - `runtime/`: the state of the service. `requests` answers clients,
    `scheduler` decides when a backup is looked at, `lifecycle` ends backups,
    retention and operations, `repository`, `settings` and `updates` change what
    is configured, `enrollment` joins and leaves a management server, `restore`
    serves the recovery browser.
  - `service`: the event loop, the management worker and the paths of the service.
  - `executor`, `output`, `environment`, `outcome`: one run of restic, from its
    environment to what is reported of it.
  - `sources`, `paths`: what may be backed up, and Windows paths as text.
  - `management`, `stores`, `history`, `diagnostics`: the managed policy, the files
    next to the configuration, the database of past runs and the log.
  - `updater`, `appcast`: which update is installed, and where it is found.
  - `tray`: the notification icon.
  - `text`, `time`, `table`: texts, instants in nanoseconds, and a small map.
- `tests/` runs the library on values.
- `app/` is the program around it: files, the database, processes, HTTPS and
  threads. `app/host.rs` names what it asks of the machine. `app/platform/` answers
  on Windows, together with `resticpal-core`, `resticpal-protocol` and
  `resticpal-windows`, crates of the same product that stand beside this one.

Times are nanoseconds since 1970, durations are integers whose unit their names or
comments give.

## What is not proved

The calls that leave the library are marked `external_body` or
`assume_specification`, each with a comment that says what is taken on trust: two
of chrono, one of base64, two of ed25519-dalek and five of the standard library.
