# xiaozhi-rs

A full-duplex voice client: MQTT+UDP as its primary link, WebSocket as the fallback. What the
client decides and computes is a library that Verus verifies; sockets, audio devices, floating
point and the file system are ordinary Rust around it.

- `src/` is the verified library. Every function states what it returns or changes, and the
  promises that span functions are proof functions whose names begin with `law_`.
- `tests/` runs the library with the crates that it is linked with.
- `app/` is the program: it performs what the library's state machines ask for and reports back.

The library's modules:

- `crypto`, `bytes`, `text`, `json`, `clock`: packet protection, wire integers, text, JSON text
  and instants.
- `protocol`: messages, the two transports as state machines, and a scripted transport.
- `supervisor`: the life of the connection, reconnection policy and streaming sessions.
- `audio`: sample rings, capture, playback, device start and codec policy.
- `identity`, `ota`: credentials of the device, configuration and activation.
- `classic`: sessions with 20 ms frames over one WebSocket.
- `calendar`, `cli`, `crash`: log lines, the command line and crash reports.
