# paper_client

A client library for the PaperCache protocol, verified with Verus.

- `src/command.rs`: requests and the bytes they are sent as (through
  `paper_utils`'s sheet builder); requests are unambiguous on the wire.
- `src/reply.rs`, `src/status.rs`: reading replies. The library decides which
  field to read next and what the fields read mean; the stream reading itself
  is done in `app/`.
- `src/policy.rs`, `src/text.rs`: cache policies and their text.
- `src/value.rs`: cached values and their conversions.
- `src/arg.rs`: keys and authentication tokens.
- `src/wire.rs`: the trusted contracts of `paper_utils`'s sheet builder.
- `app/`: blocking and tokio stream I/O, and the `f64` side of policies.
