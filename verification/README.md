# qtpstream

A low-latency remote desktop: a host captures a monitor and its default audio sink,
encodes them with GStreamer and serves them over QUIC (qp2p) to viewers that log in
with a key and a password; a viewer plays the stream and forwards its mouse and
keyboard input, which the host injects with the Windows input API.

- `src/` is the library, verified with Verus: the flexbuffer messages of the
  protocol (`flex`, `protocol`), the host's decisions (`host`), the viewer's
  decisions (`viewer`), the capture settings (`capture`), the window overlay and start
  screen (`controls`, `menu`), decimal text (`decimal`), the Windows input flags
  (`flags`) and the properties that span them (`laws`).
- `app/` is the program around it: the command line, GStreamer pipelines, network
  endpoints, the window's event loop and the input injection.
- `tests/` exercises the library on concrete values.
