# rmst_tools

The verified core of rmst-tools, a desktop helper (built on Tauri) that opens
pages in windows, lists project folders, runs saved commands, frees TCP ports,
follows the system proxy for git, and installs its own updates.

- `src/` is the library, checked by Verus: text handling (words, lines,
  trimming, decimal numbers), the opened-page history, port-freeing command
  plans and their output parsing, saved commands, settings and project
  listings, window decisions for the tray menu and global shortcuts, the
  proxy watcher, and the update and download state.
- `tests/` runs the library on concrete values.
- `app/` is the Tauri application around it: windows, tray, shortcuts, the
  settings store, dialogs, processes, the registry and the network.
