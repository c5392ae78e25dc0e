# localproxy

The server side of a SOCKS5 proxy (RFC 1928: no authentication, CONNECT only),
with its protocol logic proved correct.

- `src/codes.rs`: the wire codes (commands, address types, reply codes) and the
  ten-byte reply.
- `src/address.rs`: turning a request's address into the socket addresses to
  connect to, or into the `host:port` string to resolve.
- `src/session.rs`: one client session as a state machine. It asks for actions
  (read, write, shut down, resolve, connect, relay, finish) and takes their
  outcomes as events; its steps are specified by the spec function `transition`.
- `src/laws.rs`: properties proved of the protocol: code round trips, what a
  session writes, how it ends, and whole sessions for CONNECT requests.
- `app/`: the program. It listens on 127.0.0.1:1080, opens the QUIC link to the
  remote proxy, and runs each client's session over tokio.
