# garage_ssh_gate

An SSH server for Home Assistant that opens a garage door: a client (an
Apple Shortcut, Tasker, Termux) logs in with its SSH public key and sends a
small JSON document with its device and position; a trusted key inside the
geofence fires a webhook.

The library in `src/` holds the logic, specified and proved with Verus:

- `state`, `keys`, `overrides`, `tofu`, `log`: the key store (trusted and
  pending keys), the connection log, trust on first use and geofence
  overrides;
- `payload`, `json`, `sanitize`, `text`: reading and sanitizing a client's
  JSON payload;
- `session`, `connection`: the decisions taken on each SSH connection;
- `web`, `webhook`, `hostkey`, `config`, `time`: the management API's
  replies, the webhook's rules, the host key and the clock arithmetic;
- `laws`: properties that span operations (distinct fingerprints, trust and
  revocation, log bounds, geofence overrides over time, sanitizer limits,
  how connections are answered).

`app/` is the program around it: configuration and state files, the russh
SSH server, the axum web interface, the reqwest webhook call and the
haversine distance (floating point). `tests/` exercises the library.
