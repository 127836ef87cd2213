# ruwi

Ruwi connects a Linux machine to a network by orchestrating the usual tools:
it scans with `iw`, `wpa_cli` or `nmcli`, lets the user choose with `fzf`,
`dmenu` or a plain prompt, and connects with `netctl`, `nmcli`, `dhclient` or
`dhcpcd`.

The library under `src/` holds the decisions, verified with Verus:

- `parse` reads scanner output into networks, keeping what it cannot read
  beside them;
- `sort_networks` ranks networks (known first, then by signal) and keeps one
  network per name;
- `select` lists the networks for the user and reads the choice back, or
  chooses on its own by the auto mode;
- `wifi_step` is the connection flow as a state machine, and `retry` the
  scan-and-choose loop with its guard;
- `scan`, `services`, `commands` and `connect` decide which commands to run,
  how to wait for a busy interface, and when a binary may run as root.

`app/` is the program around it: command-line parsing, running processes,
reading files and prompting on the terminal.
