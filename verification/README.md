# resourcespace_client

A client for the [ResourceSpace](https://www.resourcespace.com/) digital asset
management API, with its request building and reply reading verified by Verus.

- `src/` is the library, verified: the parameters of every endpoint and how
  they are form-encoded, the signature over the query, the login exchange,
  the classification of replies, the checks made before a call is sent, and
  the client builder. Proof functions state what holds across calls: the
  server reads back exactly the parameters a query was written from, and the
  keywords a keyword list was written from.
- `app/` is the asynchronous HTTP side around it (`reqwest`), the endpoint
  methods, and the JSON forms of the replies (`serde`).
- `tests/` exercises the library on concrete values.
