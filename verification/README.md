# configure_semantic_release_manifest

Removes plugins from a semantic-release manifest (`.releaserc.json` and the
like), verified with Verus.

- `src/` is the verified library: the manifest held as plain values
  (`json.rs`, `manifest.rs`), which member of the top-level object is the
  `plugins` list, the removal of plugin entries and its flag,
  the configuration that remembers whether it was modified and where it is
  written (`configuration.rs`), the errors and their messages (`error.rs`),
  the checks on where a configuration was found and on its file extension
  (`lookup.rs`), and the laws that hold of the removal (`laws.rs`).
- `app/` is the command-line program: argument parsing, the search of the
  directory, reading, parsing and printing JSON with serde_json, and writing
  the result.
- `tests/` runs the library on concrete manifests.
