# nodecook_agent

The NodeCook agent connects to the NodeCook servers over socket.io, runs the
network jobs they hand out (ping, tcping, dns, mtr, http) and keeps its own
binary up to date.

`src/` is the verified library (Verus): what each job does with its request,
the reports it sends, the reconnection throttle, and the hourly self-upgrade
check as a state machine, with the laws that tie its steps together.
`app/` is the program around it: flags, sockets, HTTP, files, timers.

Modules of `src/`:

- `cli`: settings, which servers to connect to, request headers.
- `session`: whether the agent may run, and when a lost server is retried.
- `jobs`: job requests, address lookup planning, DNS answers, URL endpoints.
- `probe`: ping and tcping jobs as a state machine.
- `flows`: http, mtr and dns jobs as state machines.
- `report`: the reports sent back, and their error codes.
- `upgrade`: release assets, the published sha256, the state file, tarball checks.
- `cycle`: one upgrade check as a state machine.
- `archive`, `digest`, `text`: tar.gz members, SHA-256 in hex, string helpers.
