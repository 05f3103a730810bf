# socketio_emitter

Emits socket.io events from outside a socket.io server, through redis.

- `src/emitter.rs` — the emitter's state (client, key prefix, namespace,
  rooms, flags, manager channel) and its operations, each with a contract
  over `EmitterView`.
- `src/javascript.rs` — the JavaScript adapter's channels and packet.
- `src/python.rs` — the Python manager's JSON message.
- `src/redis_client.rs` — the redis client type and URL opening.
- `src/text.rs` — decimal rendering of ports.
- `src/laws.rs` — properties across operations, proved.
- `app/` — encodes the adapter packet as MessagePack and publishes through
  redis; this is the only part that touches the network.
