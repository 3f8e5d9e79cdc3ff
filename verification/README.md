# wordsapi

A client for the WordsAPI dictionary service.

- `src/` is the verified library (Verus): the kinds of look-up and the path
  each adds to the URL (`request.rs`), the client and the request a look-up
  sends (`client.rs`), the reply and the reading of its body and rate-limit
  headers (`response.rs`), and the `Entry` data type (`entry.rs`).
- `app/` is the unverified network side: it sends the request over HTTPS with
  hyper, hands the reply to `Response::from_http`, and parses a word's JSON
  with serde.
- `tests/` runs the library on concrete values.
