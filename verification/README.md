# oidar

The core of an MP3 internet radio player, verified with Verus.

A backend runs four stages connected by channels: a control stage that
routes the frontend's commands, a loader that reads the stream's encoded
chunks, a decoder that turns them into PCM frames, and a player that feeds
frames to the audio device.

- `src/` is the verified library: the chunk and frame types, the byte
  reader that assembles the stream from incoming chunks, and the decisions
  of every stage (command routing, loader steps, stream reconnection, track
  selection and packet handling, and the planning of sample transfers into
  device buffers).
- `app/` is the program: threads, channels, HTTP (reqwest on tokio), MP3
  decoding (symphonia), audio output (cpal) and the command prompt
  (easy-repl), all driven by the library's decisions.
- `tests/` exercises the library on concrete values.

`app/` names cpal, but cpal is not in `Cargo.toml`: its sources, with those
of the crates it pulls in, went over the size limit on outside crates in
this environment, so `app/` does not type-check here (only on cpal).
