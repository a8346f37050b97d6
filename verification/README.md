# vinput_daemon

The verified core of the vinput speech-input daemon, written in Verus.

- `src/protocol.rs` – payloads and commands exchanged over D-Bus.
- `src/text.rs` – the Unicode whitespace model and the two string operations
  taken from the standard library.
- `src/post_processor.rs` – LLM post-processing of recognised text.
- `src/adaptor_manager.rs` – registry of LLM adaptor processes.
- `src/daemon.rs` – the recording state machine: commands and outcomes of
  outside work in, actions out.
- `src/laws.rs` – properties that span several operations.
- `app/` – the daemon program: bus service, audio capture, signal emission and
  serialisation around the verified controller.
