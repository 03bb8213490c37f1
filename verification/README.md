# tackboardlib

The verified core of Tackboard, a minimal publish/subscribe system over TCP.

- `src/types.rs` — the client requests and server responses.
- `src/errors.rs` — the error type and its messages.
- `src/connection_manager.rs` — the two roles of a connection manager (client with a durable
  connection, server with a listener) and what each operation finds in them.
- `src/exchange.rs` — one exchange of a client with the server (a single reply, or a stream of
  replies) as a state machine: the network reports events, the machine says what to do next.
- `src/laws.rs` — properties of whole exchanges and of the two roles, proved.
- `app/` — the network side: sockets, framing, locks, tasks, and the server and client programs.
