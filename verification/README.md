# grok_build

A terminal coding agent for xAI and OpenAI-compatible models, written in Verus.

- `src/` is the verified library: message formats and the Responses API
  conversion, the agent's turn as a state machine (rounds, tool calls,
  confirmations), the tools' pure parts (file edits, search ranking, todos,
  the project-root boundary), settings and API-key precedence, slash commands,
  and the inline and full-screen front ends as state machines with their
  Markdown renderer. Calls into `similar`, `base64`, `keyring`, `serde_json`,
  `reqwest` and `std::path` stand behind small trusted wrappers whose
  contracts say what those crates document.
- `app/` is the program around it: argument parsing, HTTP, files, the shell,
  the terminal and the settings files.
- `tests/` runs the library on concrete inputs.

Verify with `verus` on `src/lib.rs`; build the program with Cargo.
