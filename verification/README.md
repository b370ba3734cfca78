# ermete

The logic of the Ermete desktop, verified with Verus.

`src/` is the verified library:

- `text`: `trim`, `split_whitespace`, `split`, `lines`, `contains` and
  `trim_end_matches` with specifications, used by the parsers of command output.
- `output`, `json`: what a command hands back, and JSON documents as the parsers
  read them.
- `order`: the order of strings, and sorted lists without duplicates.
- `dock`: the dock's pinned applications and the pin operations.
- `greeter`: the login conversation with greetd (requests, replies, framing and
  the login flow).
- `niri`, `system`, `settings`: what the shell and the settings read from the
  compositor and from system commands, and the commands they run.
- `notifications`, `updater`, `portal`, `telemetry`, `watcher`: the notification
  list, the updater's and the portal's decisions, crash telemetry, and the dock
  watchers' decisions.

`app/` holds the programs around it: the GTK shell and greeter, the settings
application, the D-Bus services, and the file, process and socket I/O.

greetd frames each message with its length in the machine's byte order; the
library writes and reads that length little-endian, so it supports
little-endian targets (x86-64, AArch64).
