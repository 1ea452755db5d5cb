# girl-agent desktop

The Windows-first desktop companion of `girl-agent`: a dashboard window that
launches the Node.js runtime in `--json-events` mode and mirrors its state
(profile, stage, five relationship scores, a bounded event log) in a native
window and on a token-guarded local web page, plus an installer wizard that
writes a profile's `config.json` and installs the npm package.

- `src/` — the verified library: the event protocol and its log rendering,
  the dashboard state machine and its 500-line log, the runtime's command
  line and stdin protocol, the window's and the wizard's update functions,
  profile ordering, slugs, option lists, Node.js version checks, the web
  UI's token rules and the profile config the installer writes.
- `app/` — the program around it: the iced window and wizard pages, the
  runtime child process, the axum web server, the tray, and all file and
  environment access. `girl-agent install` runs the wizard.
- `tests/` — tests of the library on concrete values.

Fonts and web assets are read at run time from `assets/fonts/` and
`assets/static/` next to the executable.
