# Master Time

Master Time inspects the local clock against an NTP time source: it sends
standard NTP requests, computes the clock offset and network delay from the
four-timestamp exchange, judges synchronization health from the server's
stratum, leap indicator and root distance, and keeps a bounded history of
results.

## Layout

- `src/` is the verified library, written in Verus. Its functions carry
  contracts proved by the verifier, except those that only read the
  operating system's clocks or hand bytes to a caller's writer, whose
  results nothing here can predict: the NTP packet format, the
  decisions of the measurement service and the polling loop, retry backoff,
  failover between servers, configuration validation and its storage format,
  server and profile management, application state, notifications, crash
  diagnostics with secret redaction, diagnostic exports, localization tables,
  the desktop clock's profile editor, the reading of geolocation replies and
  the presentation models.
- `tests/` runs the library on concrete values.
- `app/` is the command-line front end: sockets, threads, files, the
  fractional arithmetic on measured seconds, and the HTTP request of the
  geolocation lookup.

Calls into the standard library and serde_json that Verus cannot see are
isolated in small wrappers marked `#[verifier::external_body]`, each with a doc comment saying
what its contract assumes.
