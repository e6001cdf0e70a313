# actix_mqtt_client

An MQTT v3.1.1 client built on actix, whose protocol decisions are a Verus
library with proved contracts.

- `src/` is the verified library. The decisions the client's actors take are
  functions there (the actors carry them out and keep the timers): what a
  message does is returned as a *plan* (status
  record operations, packets to send, publishes to hand to the user, errors to
  report, what to do when a hand-over fails, and the status check to make
  after the command timeout). The status records, the identifier counter, the
  disconnect and stop state machines, the dispatch of received packets and the
  client handle's bookkeeping live there too. Packets are encoded with the
  `mqtt` crate (`mqtt-protocol`); topic names and filters are checked with it.
  `flows.rs` follows the exchanges (QoS 1 and 2 in both directions, connect,
  ping, disconnect) across the functions that take part in them.
- `app/` holds the actix actors that carry the plans out step by step (asking
  the library what follows each step), the socket's reading
  and writing, and the `MqttClient` handle.
- `tests/` exercises the library on concrete values.
