# codex_realtime

The decision logic of a realtime voice conversation, verified with Verus.

- `src/webrtc.rs`: setting up a native WebRTC audio session as a fixed sequence
  of steps (the first failure decides the error), the error type, the settings
  handed to the peer connection, and a latch that closes the connection once.
- `src/user_input.rs`: user input (texts with byte-range elements, images) and
  the joining of texts with their elements moved to where each text lands.
- `src/realtime.rs`: the chat widget's realtime conversation record, how it
  reacts to the user and to conversation events, and the effects it queues.
- `app/`: the peer-connection calls (through `libwebrtc`) and a host trait that
  carries out the widget's queued effects.
