# tokio_centrifuge

A Centrifugo protocol client and server for Tokio, whose protocol logic is
verified with Verus.

- `src/` is the verified library: error codes and their texts, the protocol
  messages and their wire forms, the framing of JSON and Protobuf messages,
  the routing tables and session of the server, and the client's state
  machine, request queues, subscriptions and connection decisions.  Each
  public function states its result in `ensures`; the laws that relate
  several functions are public proof functions (`law_*`).
- `app/` is the runtime around it: WebSocket connections, tasks, timers,
  callbacks, the reconnection backoff, and the serde and prost encodings of
  the messages.
- `tests/` exercises the library on concrete values.
