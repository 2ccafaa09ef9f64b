# repeater

A WebSocket message-relay server. Clients connect, receive a random
eight-letter identifier, and send each other messages by identifier; a message
for an unknown recipient is answered with an error.

- `src/` is the verified library: the client registry (`clients`), identifier
  generation (`ids`), the messages exchanged with clients (`serialization`,
  `ws`), and the decisions of the connection managers and handlers
  (`connection_manager`, `server_core`).
- `app/` is the program around it: the listener, the manager and connection
  tasks, JSON encoding and decoding, and socket I/O.
- `tests/` exercises the library on concrete values.
