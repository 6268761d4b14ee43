# icpc_live_infra_rs

Supervision and deployment for a small live-broadcast cluster, with its
decision logic verified by Verus.

- `src/` is the verified library: the configuration model (`config`), the
  supervisor of one service (`supervisor`), the health monitor
  (`healthcheck`), an agent's conversation with the controller (`session`),
  the controller's table of service states (`ctl`), deployment plans
  (`deploy`), wire messages (`protocol`, `agent`), health values (`state`)
  and text helpers (`text`). Each long-running task is a state machine: it
  takes what came of its last effects and returns the effects to perform.
- `app/` runs those machines on tokio: process spawning, WebSockets, SSH and
  SFTP, HTTP and TCP probes, TOML and JSON. `main agent [port]` starts an
  agent, `main ctl [config]` the controller, `main` alone supervises the
  services of `examples/simple.toml` locally.
- `tests/` exercises the library on concrete values.
