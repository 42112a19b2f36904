# sourcetrait_crossplat_windows

The Windows side of a cross-platform account and environment bridge, verified with Verus.

- `src/utf16.rs` — UTF-16 encoding and decoding as spec functions, the proofs that they are
  inverse to each other, and a verified encoder for `&str`.
- `src/wide.rs` — the `widestring` items the library relies on (nul-terminated wide strings,
  UTF-16 decoding), each behind a small trusted wrapper.
- `src/plat.rs` — platform strings (Unicode text or raw wide units), their conversion to and
  from wide strings, and the round-trip laws.
- `src/error.rs`, `src/access.rs` — errors, accounts and authorities.
- `src/winsys.rs` — the account lookups: the requests for the network management API, and the
  lookup results computed from what the API hands back (status, records, identifier
  conversions, member lookups).
- `src/component.rs` — the network and user-interface components.
- `app/` — the system calls (`windows-sys`), the environment read, and the conversions to
  `sourcetrait_twostr` strings.
