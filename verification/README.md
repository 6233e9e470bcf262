# bounce

The protocol core of a small IRC bouncer, verified with Verus.

- `src/intcodec.rs`: newline-terminated decimal numbers (`IntCodec`), with a
  verified decimal parser (against `str::parse::<u64>`'s grammar) and
  printer, a trusted write of the frame into the buffer's spare capacity,
  and a proof that every encoded frame decodes to the number it holds.
- `src/codec/line.rs`: IRC lines (`Line`): classification of private
  messages, pings and other lines, ping answers, mentions and log entries.
- `src/codec/mod.rs`: `LineCodec`, which frames lines over a `BytesMut`, with
  a proof that encoded lines decode to themselves; `PingPong`, the decisions
  of a transport that answers pings itself.
- `src/responses.rs`: the numeric replies of RFC 2812 and their codes.
- `src/config.rs`: how a server's settings are resolved from its own table
  and the top-level defaults.
- `src/buffer.rs`, `src/text.rs`, `src/seqs.rs`: the byte buffer's trusted
  interface and shared helpers.
- `app/`: the program: sockets, files, password prompts, TOML parsing, and
  the `tokio_io`/`futures` trait impls that drive the library.
