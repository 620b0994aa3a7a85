# networkframework

A Verus-verified core for bindings to Apple's Network.framework.

- `src/` is the verified library: the raw-code vocabularies of the framework
  (states, interface and radio types, protocol and WebSocket codes) with their
  encode/decode round trips, the mapping from shim status codes to
  `NetworkError`, the checks and NUL-terminated encodings applied to every
  argument before it crosses into C, and the decoding of what comes back
  (interface lists, TXT-record values, Ethernet frames, received buffers,
  TLS peers and certificate pins, browse-result change flags, path-monitor
  configuration).
- `app/` holds the parts that talk to the C shim: the C function declarations,
  handle types that own framework objects, and the callbacks the shim calls.
  It hands raw values to the library and uses what the library returns.
- `tests/` exercises the library on concrete values.

Secret buffers (PKCS#12 passwords) are held in `zeroize::Zeroizing`, reached
from the library through a small trusted wrapper in `src/tls.rs`.
