# pulseaudio

Asynchronous bindings to the PulseAudio client library.

- `src/` is the verified library: the data layout of the C records and the
  codes of the C enumerations (`ffi`), sample formats and channel maps
  (`config`), the meaning of the C status answers (`status`), and the
  connection, stream and main-loop handles with the decisions of their
  state-change futures (`context`, `stream`, `mainloop`).
- `app/` declares the C functions of `libpulse`, holds C-layout copies of the
  records, and builds the owning handles, the futures and the lock guards on
  top of the library: it performs each C call and hands the answer to the
  library, which decides what it means.
