# keymapper

A key remapper: a YAML configuration maps trigger key events (`ctrl+h`,
`capslock`) to output events, globally or for named applications, and a
daemon applies the mappings to the keyboard.

The library under `src/` is verified with Verus:

- `config`: key events and their `+`-separated text form, ordered mapping
  tables, rule groups, and adding rules to a configuration.
- `key_table`: the three platforms' key tables share their keys and names,
  so a configuration reads alike everywhere; a key compiles to the native
  code of the platform the rules are compiled for.
- `mapping_cache`, `state`: compiling a configuration into exact-mask rules
  for one platform ("either side" modifiers expanded) and the first-match
  lookups the platform loops make, rule groups counting in definition
  order whatever their scope.
- `os`, `platform`, `daemon`: the Linux, macOS and Windows key tables and
  the decisions of the event loops (modifier tracking, chords,
  forwarding).
- `diagnostics`: the findings of `keymapper config check`.
- `config_path`, `util`: configuration search, application names, key
  listing and probing, daemon start-up.
- `laws`: properties that span several functions, such as reading back a
  written key event and rules answering their own triggers.

`app/` holds the executable: YAML reading and writing, files, the
command-line interface, and the platform event loops, which hand plain
values to the library.
