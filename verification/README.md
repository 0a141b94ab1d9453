# chat_server

A line-based chat server over TCP, optionally over TLS. Every line a client
sends is broadcast to the other clients; lines starting with `/` are commands:
`/msg <target> <message>` sends privately, `/echo <text>` answers with the text,
`/list` lists the connected clients.

The library under `src/` holds the server's logic, verified with Verus:

- `text`: Unicode white space, trimming and splitting on the first space.
- `message`: chat messages and how they are displayed.
- `command`: reading an input line and deciding what a command asks for.
- `router`: the broadcast hub and the registry of connected clients.
- `channel`: the tokio channel operations the library relies on.
- `endpoint`: a connection's broadcast and private endpoints.
- `handler`: a connection, its two halves and the writer's decisions.
- `server`: the server's configuration.
- `tls`: reading certificates and keys from PEM and building the acceptor.

`app/` is the program around it: the tokio runtime, sockets, file reading,
the lock around the client registry and the connection loops.
