# mqtt_broker

Verified bookkeeping of an MQTT broker, written in Verus.

- `src/heartbeat.rs` — live times of connections, grouped in shards, with
  the laws that relate reports and removals.
- `src/metrics.rs` — which packet gauges a received or sent packet moves,
  with which labels and by how much.
- `src/schema.rs` — schema type names and the placement-center requests
  built from schema admin requests.
- `src/exclusive.rs` — exclusive subscription pushes: which messages are
  pushed, the PUBLISH built for each, the order of the steps that push one
  message, when push tasks start and stop, and how a task advances. The
  acknowledgement exchange itself is carried out in `app/`.
- `src/protocol.rs` — the MQTT values these read.

`app/` holds what runs around the library: serialized forms (serde), the
prometheus registry, calls to the placement center and the asynchronous push
loop (tokio).
