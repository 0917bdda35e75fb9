# external-control

Control of a coding agent from outside, verified with Verus.

- An adapter stands between an external client and the agent's server. It
  passes JSON-RPC messages through in both directions and adds notifications of
  its own: `adapter/queueUpdated`, `adapter/streamDelta`,
  `adapter/permissionRequest`, `adapter/permissionResolved` and
  `adapter/diffChunk`.
- An orchestrator decides how a tool call runs: approval, an attempt in a
  sandbox, and a retry outside of it after a denial.

`src/` is the library. It does no input or output: it takes what happened and
says what is to be done, under contracts that Verus proves. `app/` is the program around it: the Unix socket, the websocket, and
the loop that drives a tool.

| module | what it holds |
| --- | --- |
| `json`, `json_eq` | JSON values, their model and equality, and the calls into `serde_json` |
| `text` | trimming, joining and decimal notation |
| `wire` | how values are written as JSON and read back |
| `protocol` | the messages and their JSON form |
| `ids` | names for queue items |
| `pending` | the permission requests that wait for an answer |
| `notification` | the adapter's notifications and the lines they go out as |
| `adapter` | what is made of which message |
| `connection` | one client's connection |
| `connection_laws` | what holds of a whole connection |
| `adapter_laws` | what holds of everything that passes through |
| `orchestrator` | the run of a tool as a state machine |
| `orchestrator_laws` | what holds of every run |
| `orchestrator_outcome` | what a whole run comes to |

What is believed without proof are the calls out of the library: reading and
writing JSON text (`serde_json`, `serde`) and drawing a UUID (`uuid`). Each
says above its definition what it claims.

The program takes `--app-server-url` and `--socket-path`, or the environment
variables `CODEX_ADAPTER_APP_SERVER_URL` and `CODEX_ADAPTER_SOCKET_PATH`.
