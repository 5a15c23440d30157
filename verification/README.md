# inator

Networking for Bevy applications: a process is a server or a client, its
connections each have a main port (TCP, WebSocket, or a browser WebSocket),
clients authenticate before the server takes their messages, and messages
travel as registered types.

- `src/` is the library, verified with Verus: the side of a process, the setup
  of the plugins, the connection registry, the message registry and the
  authentication gate, the length-prefixed framing of stream ports, and the
  state of every port with the decisions its tasks take.
- `app/` runs the library: Bevy plugins and systems, and the Tokio tasks that
  bind, accept, connect, read and write.
- `tests/` exercises the library on concrete values.
