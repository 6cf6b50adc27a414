# zed_oxc

The decisions behind the oxlint and oxfmt language servers of the Zed
editor, verified with Verus: which binary starts a server (a command of the
user's own, Vite+'s `vp`, the project's installation, or one the extension
installs from npm), the environment it runs in, and the initialization
options and workspace configuration it receives.

- `src/` is the verified library. `json` models the JSON values that the
  settings and the project inspection hand over; `vite_plus` reads the
  user's options and finds the Vite+ project; `lsp` holds the settings,
  the server environment and the configuration; `server` holds the launch,
  probe, configuration and update steps that the host drives; `laws` states
  what holds across them.
- `app/` is the host side: it talks to Zed, npm and the inspection script,
  converts between serde_json and the library's values, and runs the steps.
- `tests/` exercises the library on concrete values.
