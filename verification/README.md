# rust_pubsub_client

Client-side logic of a publish/subscribe service, verified with Verus.

- `src/` — the verified library: configuration (`config`, with the
  environment parsing in `text`), the FIFO duplicate filter
  (`idempotence`), published messages (`message`, `document`), the
  handler table (`registry`), JSON access (`json`) and the client state
  machine that routes received messages (`client`).
- `app/` — the asynchronous client that performs what the library
  decides: Socket.IO connection, handler tasks, HTTP publishing,
  environment variables.
- `tests/` — tests of the library.
