# r_tvui

A keyboard-driven terminal file explorer. The explorer's model is a
library verified with Verus (`src/`); the terminal program around it
(`app/`) reads directories, runs background work, draws the screen with
ratatui and carries out the requests the model queues.

## Layout

- `src/artifact.rs`, `src/listing.rs`: directory entries, their size and
  time text, which entries a listing keeps and the order it shows them in.
- `src/models/`: browser panes, the explorer (`App`) with tabs, split view,
  history, bookmarks, marks and the requests it hands to the program, and
  the file actions (delete, clipboard, pane transfers).
- `src/events/`: key handling per mode, and the navigation steps.
- `src/filesystem.rs`, `src/paths.rs`: the file-system layer's listings,
  their order and a listing cache.
- `src/theme.rs`, `src/ui.rs`: themes, palettes and the texts on screen.
- `src/git.rs`: reading `git status --porcelain` output.
- `src/pathops.rs`, `src/text.rs`: path and string operations of std and of
  outside crates, each with the contract the library relies on.
- `tests/`: tests of the library.
- `app/`: `main`, configuration file, terminal loop, rendering, background
  listing and the outside work (files, clipboard, trash, git, editor).
