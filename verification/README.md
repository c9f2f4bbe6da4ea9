# Waygreet

An accessibility-first Wayland GTK greeter for greetd: it starts the Orca screen reader
and PipeWire audio by default.

## Layout

- `src/` is the verified library (Verus). It holds the greeter's logic with contracts:
  - `sessions`, `desktop`, `discovery`: login sessions, reading them from desktop entry
    files, and discovering, sorting and deduplicating them.
  - `greetd`, `framing`: the greetd protocol messages, their JSON encoding, the length
    framing, and the authentication flow.
  - `greeter` and `components`: the application and its login form, session selector and
    power menu as models that take messages and return effects.
  - `audio`, `orca`, `session_setup`: audio startup, Orca control and session environment
    setup as state machines that say what to ask or do next and take the answer.
  - `systemd`, `session_env`: the commands sent to `systemctl` and how command output is
    read.
  - `config`, `style`, `text`: configuration sections, stylesheet choice, string helpers.
- `app/` is the program around it: command line, configuration files, GTK/Relm4 widgets,
  the greetd socket, processes and the file system.
- `tests/` exercises the library.
