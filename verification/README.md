# file_explorer

The logic of a small file explorer, written in Verus and proved against its
contracts.

- `src/listing.rs`: directory entries as plain values, the sort methods
  (`A-Z`, `Z-A`, by modification time, by size, `extension`), and a stable
  in-place sort. The laws proved there: a listing has exactly one stable
  sort, sorting keeps every entry, orders by key and keeps ties in their
  input order, an unknown method keeps the input order, sorting twice
  changes nothing, and opposite methods give reversed listings when no two
  keys tie.
- `src/file_ops.rs`: selecting entries by kind, the listing commands, icon
  paths, the home directory (the app's data directory on Android), and the
  answer to "does this path exist".
- `src/mime_table.rs`, `src/mime.rs`: the icon table (proved sorted) and its
  binary search, which finds the last entry of a type.
- `src/file_operations.rs`: the second set of listing commands.
- `src/file_abstraction_layer.rs`: when to ask the privileged service, where
  it keeps its files, how its process id is written and read back, and the
  steps of launching it, which record a process id only for a running
  service.
- `src/root_ops.rs`: the paths of the two pipes to the service.
- `src/os_info.rs`: reading the distribution name from the lines of
  `/etc/os-release`, down to the bytes on which the lookup fails.
- `src/service.rs`: the service's request loop as a state machine.
- `src/text.rs`: character-level string helpers, the code point order,
  Unicode whitespace, trimming and `i32` parsing.

`app/` holds the Tauri application, the disk and pipe access and the
service's main loop; `tests/` runs the library on concrete values.
