# hebbian

The verified core of the Hebbian agent surfaces (command line, desktop app,
chat-channel gateway), written in Verus.

- `src/` is the library. Each module states its behaviour in `requires` /
  `ensures` over `Seq`, `Map` and spec functions, and Verus proves it:
  the preview URL policy, browser history and pop-out navigation, the daemon's
  event stream and IPC replies, cutting streamed replies into chat messages,
  the HITL bookkeeping, the island cards, the terminal UI's state machine,
  the DevTools discovery framing, and the renderers of chat, tables and
  reports. Public `law_*` proof functions state what holds across calls.
- Calls into `url`, `base64` and std functions that vstd does not specify go
  through small trusted wrappers, each with a doc comment saying what its
  contract claims.
- `tests/` runs the library on concrete values.
- `app/` is a thin command-line client (sockets, files, JSON) around the
  library.
