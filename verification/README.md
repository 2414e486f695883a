# proxy_rs

A TCP proxy that relays each client connection to an upstream server
through an adapter that decides, chunk by chunk, what is forwarded and when
a request/response exchange has ended.

- `src/` is the verified library (Verus):
  - `pipe` — the relay state machine of one direction of a connection
    (read, ask the adapter, write), its errors, and how the two relays'
    outcomes make an exchange;
  - `adapter` — the adapter trait and the pass-through adapter;
  - `http` — the HTTP adapter's decisions (which parser, when to end);
  - `proxy` — the proxy's configuration and its builder;
  - `tracer`, `elapsed` — timing of named steps and their reports;
  - `order`, `text`, `clock` — key order, number and duration text, the clock.
- `app/` runs the network side: sockets, the relay futures, the listener,
  the HTTP parser, and logging.
- `tests/` exercises the library.
