# vectum

The verified core of a desktop front end for DepotDownloader, which downloads
Steam depots in a terminal window.

- `src/` is the library, verified with Verus: the download request
  (`steam`), the terminals and how each is probed (`terminal`), the
  DepotDownloader command line and the command that opens a terminal on it
  (`command`), the scan for installed terminals as a step-by-step state
  machine (`scan`), the DepotDownloader release address and archive handling
  decisions (`depotdownloader`), operating-system names (`platform`) and
  string helpers (`text`).
- `app/` is the Tauri application around it: it reads the platform, runs the
  probes and commands, downloads and unpacks files, and talks to the front end.
- `tests/` exercises the library on concrete values.
