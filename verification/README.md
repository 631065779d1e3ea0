# react-native-libsignal (verified core)

React Native bindings for the Signal protocol, split in two:

- `src/` is the library, verified with Verus: the value types that cross the
  binding boundary (keys, key pairs, pre-key records, protocol addresses),
  the `SignalError` vocabulary and its messages, HKDF-SHA256 key derivation
  (through the `hkdf` and `sha2` crates), random bytes (through `rand`), the
  framing of AES-256-GCM ciphertexts (encrypted bytes followed by a 16-byte
  tag), and the decisions that turn the outcomes of the libsignal calls into a
  value or an error: which step is looked at first, and which error a failing
  step gives.
- `app/` holds the UniFFI exports and the calls into libsignal's own crates
  (curve keys, signatures, agreements, fingerprints, AES-GCM); it hands their
  outcomes to the library, a step that only runs after an earlier one
  nested inside that step's outcome.

`tests/` exercises the library on concrete values, including the RFC 5869
HKDF test vectors.
