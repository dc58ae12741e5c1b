# monoio-http-client

An HTTP/1 and HTTP/2 client with a connection pool, written for verification with Verus.

- `src/` is the library. Nothing in it waits: what has to wait is a state machine that is handed
  what happened and says what to do next. Each function states what it does, and Verus proves it,
  but for `trusted`.
  - `common`: messages and bodies.
  - `client::pool`, `client::idle`: the pool of idle connections and the task that sweeps it.
  - `client::transaction`, `client::manager`: the way of a request to a connection and back.
  - `client::stream_task`: sending a request body over an HTTP/2 stream.
  - `client::reuse`: which connections can be used again.
  - `client::connector`, `client::request`, `client`: opening connections, putting requests
    together, and the client itself.
  - `trusted`: outside types and functions, with the contracts that the proofs rest on. These are
    not proved.
- `tests/` runs the library.
- `app/` runs it on the `monoio` runtime. The HTTP/1 codec and the HTTP/2 connection are traits
  there.
