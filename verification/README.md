# energy_spy

A Hachimi plugin that reports game data at runtime, written as a verified
library and a thin loader.

- `src/` (verified with Verus): `plugin` is the plugin's state machine (start
  request, one-time setup that looks up the game's assembly, a class and one of
  its methods, menu entries); `text` builds the log lines and prints addresses
  as `{:?}` prints pointers; `cstr` turns strings into the NUL-terminated bytes
  the host's C interface takes.
- `app/`: the C entry point `hachimi_init`, the host's function table, the menu
  callbacks and the log file. It performs the host calls that the library asks
  for and hands the answers back.
