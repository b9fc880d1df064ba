# meradomo_engine

The rules of embedding the **Meradomo engine** in an app, so that its users get a
public web address for their local app with one download, not two — written in
Rust and verified with [Verus](https://github.com/verus-lang/verus).

The library decides; the host performs. A call to make is a `Call`, a process to
start an `EngineCommand`, and the whole onboarding a conversation of
`ConnectAction`s and `ConnectEvent`s:

```rust
let (mut state, mut action) = connect(&req);
loop {
    let event = perform(action); // returns on `ConnectAction::Finish`
    (state, action) = state.advance(&req, pid, event).unwrap();
}
```

`app/` is such a host, over blocking HTTP and child processes.

| Module | What it holds |
|---|---|
| `discovery` | what an engine says of itself; attach or take over |
| `config` | the engine's configuration, argument list and command |
| `requests` | every call of the wire protocol |
| `start` | attach or spawn; waiting for a fresh engine |
| `approval` | polling for the person's approval |
| `onboarding` | the onboarding, step by step |
| `history` | what holds of every onboarding from its beginning on |
| `error` | why an onboarding failed |
| `clock`, `text` | time and text building blocks |
| `outside` | types and JSON calls of other crates |

Paths that are written into the argument list (`frpc_bin`, `work_dir`) are given
as text, and spans of time as nanoseconds (`Nanos`).
