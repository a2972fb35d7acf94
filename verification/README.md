# iced_recorder

A recorder that captures a microphone together with the loopback of an output device,
mixes the two streams, and writes the mix as MP3 checkpoints (or, in its simple mode, as a
WAV file).

- `src/` is the verified library (Verus): sample formats and output specs, frame mixing,
  the bridge state machine between the capture streams and the writer, checkpoint
  buffering and file naming, the capture-stream command loop, the runtime's reactions to
  device events and its builders, device lookup, the interface's session state, and the
  set-up of the LAME encoder.
- `tests/` exercises the library on concrete values.
- `app/` is the program around it: audio devices and streams, threads and channels,
  file output and encoding of the floating-point samples, and the command line.
