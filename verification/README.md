# forge

Server initialisation tool (nginx, deploy user, SSH key, project directory),
split into a verified library and a thin executable.

- `src/` — the library, verified with Verus: validation of user names, project
  names, server names and project roots; SSH key registration in an
  `authorized_keys` text; passwd-entry parsing; program path resolution; the
  commands to run; the ordered plan of `forge init`; template rendering; error
  messages. `regex` is called through trusted wrappers in `src/pattern.rs`.
- `app/` — the `forge` binary: argument parsing (clap), prompts (dialoguer),
  colours (colored), the spinner (indicatif), process launching and file I/O.
- `tests/` — tests of the library on concrete values.
