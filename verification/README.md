# node_agent

A monitoring agent: it connects to a server over a WebSocket, introduces the machine
(CPU, GPU, memory, disks), sends metrics at an interval, and obeys the server's commands
(`SetInterval`, `GetInterval`, `ForceMetricsUpdate`, `RestartAgent`, `StopAgent`).

- `src/` is the library, verified with Verus: the metrics worked out from `sysinfo`
  snapshots, the choice of the AMD GPU backend and the parsing of its sysfs files, the GPU
  figures of each vendor, the handshake, and the handling of the server's commands.
- `app/` is the program: the connection loop, reading `/sys`, querying the NVIDIA driver
  and, on Windows, WMI, the performance counters and ADL, and the floating-point
  percentages and temperatures of the metrics message.
- `tests/` runs the library on concrete values and on this machine's snapshots.
