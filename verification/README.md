# secmon

A monitor of security-relevant state across servers: user sessions (`who`),
WireGuard peers (`wg`) and authentication events (`journalctl`). Nodes collect
the data and report changes to a hub; the hub serves a terminal client, a
Telegram bot, a Discord webhook and an HTTP server.

Layout:

- `src/` is the verified library: the data model and its views, the hub's
  record of nodes, command relaying, sorting nodes by address, the parsers of what `who`, `wg` and
  `journalctl` print, the node's command handling, message framing, and the
  renderings for the terminal and the chat integrations. Calls into `chrono`,
  `chrono-tz` and `shlex` stand behind a few trusted wrappers whose contracts
  say what those crates do.
- `app/` is the program around it: sockets, processes, threads, environment
  variables, serialization, and the HTTP and chat clients.
- `tests/` exercises the library on concrete values.
