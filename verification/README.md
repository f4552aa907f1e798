# Edgehog device runtime

Verified logic of a device that is managed through Astarte and Edgehog.

- `src/ota/`: over-the-air updates. `run` is the course of an update, `download`
  that of a download, `handler` that of a request from Astarte, each as a state
  machine that hands out one action at a time; `status` holds the statuses and
  the events that report them; `laws` states what holds of whole updates.
- `src/forwarder/`: remote connections. `wire` and `messages` convert between
  bytes, Protobuf messages and the messages that the device works with, `headers`
  builds HTTP headers, `connection` and `connections` keep track of what is open,
  and `session` of the sessions with Edgehog.
- `src/containers/`: requests to create volumes, and the nodes of the graph of
  container resources.
- `src/e2e.rs`: the comparisons of the end-to-end test.
- `src/data.rs`, `src/string_map.rs`, `src/text.rs`, `src/uuids.rs`: the values
  that all of these share.

`app/` is the ordinary Rust around the library: tasks and channels, files, the
network, and the connection with Astarte.
