# agent_desktop

The decision logic of a desktop-automation agent, written in Verus and
verified: role vocabularies and their mapping from macOS accessibility
roles, the `find`, `is`, `menu`, `focus-window`, `close-app`, `list-apps`,
volume, appearance, Wi-Fi and external-execution commands, snapshot window
selection, the application and window inventories, menu-bar paths, and the
parsing of system tool output.

- `src/` is the verified library. Platform services are reached through the
  `PlatformAdapter` and `SystemController` traits; whatever the platform
  reads (window lists, accessibility attributes, tool output) comes in as
  plain values.
- `tests/` exercises the library on concrete values.
- `app/` holds what cannot be verified: JSON rendering, the environment and
  the audit log, loops that wait on the clock, child processes, and the
  macOS system calls (CoreAudio, CoreGraphics, the accessibility API and the
  pasteboard).
