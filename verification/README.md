# koe_core

The core of a voice input tool: it runs a session from the press of a hotkey to the text that is
pasted. The library in `src/` is verified with Verus; `app/` is the ordinary Rust around it.

- `src/task.rs`: the course of one session, as a machine that takes events and asks for actions
- `src/course.rs`: what holds of every session, whatever happens in it
- `src/state.rs`: the state of the core and its entry points
- `src/session.rs`, `src/config.rs`: sessions and settings
- `src/uncertain.rs`: phrases that the speech recognizer was unsure of
- `src/json.rs`: the JSON that the library reads, by way of `serde_json`
- `src/telemetry.rs`: times of a session and lines of the log
- `src/text.rs`, `src/double.rs`, `src/lists.rs`: text, numbers by their bit patterns, lists
- `app/`: the C interface, the log file, the runtime, and the traits by which files, speech
  recognizers and language models are plugged in
