# librespot_connect

The decision logic of a Spotify connect device, verified with Verus.

`src/` is the verified library:

- `error` — the error type (`Error`, `ErrorKind`, `ErrorCause`).
- `message` — dealer messages and header lookup.
- `protocol` — the parts of cluster messages that the devices read.
- `uri`, `model` — Spotify URIs and the requests a device handle passes on.
- `spirc` — device errors, the queueing rule, commands (`spirc::task`) and
  the observer task's event loop and cluster assessment (`spirc::task::observer`).
- `observer` — the stand-alone observer device's errors and decisions.
- `startup` — the order of a device's start-up steps.
- `daemon` — the daemon's main loop and its reconnect rate limit.

`app/` performs the waiting, sending and logging around these decisions with
tokio, futures-util, log and thiserror.

`tests/` exercises the library on concrete values.
