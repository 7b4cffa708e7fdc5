# tcrm-task

Task execution unit: a task is a command with its configuration; running it
goes through the states Pending, Initiating, Running, Ready and Finished and
reports events (Started, Output, Ready, Stopped, Error, ProcessControl).

The library under `src/` is verified with Verus:

- `tasks::config`, `tasks::security`: the configuration, its builder and its
  validation rules; each validator reports the first rule broken. Environment
  variables are an `EnvVars`: pairs in order, each key at most once (a key
  given twice keeps its later value). A `HashMap` keyed by `String` would
  leave the contracts with nothing to say: vstd specifies such a map only for
  keys it knows to hash consistently (integers, `bool`); `String` is not among
  them, so not even the size after one insert can be proved. The ordered pairs also fix which bad variable is
  reported when several are bad: the first in order, where a hash map would
  report whichever its iteration reaches first. Whether validation passes
  does not depend on the order (`env_check_order_law`).
- Working-directory checks and the uptime read the disk and the clock; their
  contracts say what was asked (which path, which instant) and what the
  library does with each possible answer, not which answer comes.
- `tasks::state`, `tasks::event`, `tasks::error`: states, events and errors.
- `tasks::process`: signalling a process or a process group through `nix`;
  each contract names the signal sent and the process or group it goes to,
  and maps the system's answer to the library's errors.
- `tasks::async_tokio`: the spawner's state and every decision taken while
  a task starts and runs (validation, spawn results, output lines and the
  ready indicator, stdin lines, the end of waiting, the Stopped event), and
  process groups for tasks run on tokio.
- `flatbuffers`: the schema's tables as plain record structs (in place of
  buffers built with a `FlatBufferBuilder` and read back through generated
  accessors), and the conversions between them and the task types, with
  their round-trip laws.
- `text`: string helpers with exact specifications.

`app/` holds what runs on the operating system and the tokio runtime: the
runner that spawns a task's process and its watchers, the process-group
setup of a command, and the serde and `Display` forms of the types.
