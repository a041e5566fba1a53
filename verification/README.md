# grok_desktop

The protocol core of a desktop client for the Grok Build CLI's agent mode
(`grok agent stdio`, the Agent Client Protocol as line-delimited JSON-RPC),
written in Verus and proved against its contracts.

- `src/` — the verified library:
  - `json` — JSON values and their model; member lookup, ids, `u64` parsing.
  - `text` — whitespace, trimming, lines, substring tests.
  - `events` — connection status and the normalized stream events.
  - `session_update` — `session/update` notifications to stream events.
  - `pending` — the registry of requests waiting for their reply.
  - `rpc` — errors, outgoing messages, routing of incoming lines, the
    agent's own requests (permission requests are always cancelled).
  - `client` — the connection handshake as a state machine, prompts, the
    end of a turn, status payloads.
  - `cli` — where to look for the CLI, which path to take, its version.
  - `commands` — the checks on user-interface command arguments.
  - `laws` — properties across functions and calls.
- `tests/` — tests of the library on concrete values.
- `app/` — the Tauri shell: processes, pipes, threads, events, serde forms.
