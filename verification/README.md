# alcom

Verified core logic of the ALCOM project manager (the VRChat package manager
GUI) and of its experimental `vcc` commands, written in Verus.

- `src/fs_tree.rs`: the tree of a project's notable files, with a pre-order
  walk over every node and a walk over a node's children.
- `src/notable_files.rs`: which directory entries go into that tree, and the
  relative path each one gets.
- `src/environment.rs`: when the lazily loaded environment is loaded, its
  settings reloaded and its package infos refreshed; the holder of pending
  project changes.
- `src/paths.rs`: the default backup and project folders and the settings
  that remember them.
- `src/scheme.rs`: routing of the window's `vrc-get:` URI scheme and the
  global-info script.
- `src/vcc.rs`: the `vcc` command types, the order projects are listed in, the
  lookup by path and the command output.
- `app/`: the program around the library: file-system reads, the async
  environment loading, the window's scheme handler and the command runs.
