# ocp

The device side of the OCP Secure Firmware Recovery protocol, written in Verus
and proved against its contracts, together with the build-side layout of a
firmware bundle.

- `src/protocol/` — the commands of the protocol and their wire formats
  (PROT_CAP, DEVICE_ID, DEVICE_STATUS, DEVICE_RESET, RECOVERY_CTRL,
  RECOVERY_STATUS, HW_STATUS, INDIRECT_CTRL/STATUS, INDIRECT_FIFO_CTRL/STATUS),
  each with its parse and serialisation and the round-trip laws between them.
- `src/cms/` — component memory spaces held in memory: a memory window with
  an auto-incrementing, wrapping offset, and a FIFO ring.
- `src/interface.rs` — the recovery state machine: region topology checks,
  capability advertisement, and the command handlers.
- `src/flash.rs`, `src/checked_copy.rs` — in-memory flash storage and a
  length-checked copy.
- `src/manifest.rs`, `src/ld.rs`, `src/radix.rs` — allocation of a bundle's
  binaries from the platform's memory spaces and the linker scripts that place
  them; script text is rendered through the `subst` crate.
- `app/` — the file-system side of linker generation (directories, base
  layouts, writing the scripts).
- `tests/` — tests run against the compiled library.
