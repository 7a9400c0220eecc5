# tls_rustls

A small library around `rustls` 0.20, verified with Verus, and the command-line
TLS experiments that use it.

- `src/conn_specs.rs`: what the library relies on of `rustls::Connection`
  (its queue of TLS bytes to send, its unprocessed input, its unread
  plaintext, whether it is handshaking, the error it has kept, and how much
  input it accepts) and the wrappers of the connection methods it calls.
- `src/transfer.rs`: `transfer`, which moves every queued TLS byte of one
  in-memory connection into another, with the laws about moving bytes.
- `src/handshake.rs`: `handshake_round` and `do_handshake_until_error`, which
  drive a client and a server through the handshake, with the relations that
  say what each round and each run of rounds did.
- `src/server_name.rs`: `dns_name` and `try_dns_name`.
- `src/roots.rs`: `build_root_store`, a root store from DER certificates.
- `src/verify.rs`: `verify_server`, a server's chain checked with rustls's
  `WebPkiVerifier`.
- `app/`: the programs (OpenSSL and rustls clients and servers over TCP,
  reading certificates from files), one subcommand each.
- `tests/`: tests over generated test certificates.
