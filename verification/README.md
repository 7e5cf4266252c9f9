# rocm_examine

Examines a host for ROCm: operating system, processor, GPUs, driver, install,
frameworks and surroundings, on Linux, on Windows and in WSL guests, from inside
the guest or from the Windows host.

No probe touches the machine. Each is a function of recorded answers: it either
finishes, or it returns the one question it cannot go on without. Whoever runs
the examination answers that question, records the answer and runs the probe
again.

- `src/` is the library, verified with Verus. `probe.rs` holds the examination as
  a whole; `host.rs` the questions, the replies and the record of answers;
  `ask.rs` how a probe asks; `wait.rs` how a command is waited for;
  `examination.rs` what is found out. The probes stand in `platform.rs`,
  `gpu.rs`, `rocminfo.rs`, `gfx.rs`, `devices.rs`, `install.rs`, `framework.rs`,
  `surroundings.rs`, `windows.rs` and `wsl.rs`; the text functions under them in
  `text.rs`, `split.rs`, `number.rs`, `order.rs`, `textmap.rs` and `utf16.rs`.
- `src/laws/` states what holds of the library as a whole, each as a proof
  function.
- Trusted are the contracts in `src/unicode.rs` and `src/json.rs`, on functions of
  the standard library and of `serde_json` whose results depend on their
  arguments alone, and that of `String::push` in `src/text.rs`.
- `app/` answers the questions on a real machine and turns an examination into
  JSON.
