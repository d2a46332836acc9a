# herdogrelay

`herdogrelay` is an application Relay: it connects Cores to Herdr sessions on a remote machine and
forwards their bytes without reading them. The decisions of the Relay are written in Verus and
proved against their contracts; the process around them is ordinary Rust.

## Layout

- `src/` holds the verified library. No function of it does I/O: what the host, a peer or another
  service answers is an argument, and what has to be done next is the result.
  - `iroh_endpoint` pairs peers, bounds their connections and serves their sessions.
  - `quic_server` admits authenticated connections, serves their control frames and session
    streams, and runs the bootstrap and enrollment conversations.
  - `listener` bounds the clients of the tailnet listener and reports how they ended.
  - `manager` resolves sessions, leases them and keeps the children that serve them.
  - `issuance`, `pki` and `certificates` issue client certificates and keep the results.
  - `material` holds protected files to their owner, mode and size.
  - `address`, `bytes`, `clock`, `error`, `paths`, `quic_wire`, `random`, `table` and `text` are
    what the others share.
- `tests/` runs the library, with the cryptography crates linked.
- `app/` is the process: files, sockets, streams, child processes and the TLS material.

## Contracts

Each function states what it returns for every input. A conversation of several steps is a relation
between a step, an answer and the next step, and the properties of whole conversations are the
public proof functions whose names begin with `law_`.

What the library takes from other crates and from the host without proof stands in
`certificates`, `clock`, `random` and `text::push_char`, each with a comment that says what is
claimed.
