# disaster_response_system

Decision core of a rapid disaster-response sensing pod and its command
centre, verified with Verus.

`src/` is the verified library:

- `systems/` — hazard, priority and platform-state types; the power levels
  that gate the camera; the fail-safe manager (loss-of-link latch, anomaly
  precedence, bounded blackbox); CRC-16 and the 23-byte LoRa frame with its
  layout and checksum laws.
- `platform/controller.rs` — the pod's mission state machine: dispatch,
  recall, and one simulation step from observed events to actions.
- `command/` — nearest-base selection for dispatch, order and incident
  identifiers, and the recommendations of responder bulletins.
- `modes/` — route and priority triage for wildfire, flood, landslide and
  earthquake surveys.
- `server/` — HTTP request parsing, routing and response framing, and the
  dashboard page.
- `text.rs` — decimal and hexadecimal rendering, white space, string equality.

`app/` is the program around it: floating-point geodesy, battery, sensor and
assessment models, serde encodings, the HTTP server's sockets and threads,
and the command-line demonstration. `tests/` exercises the library.
