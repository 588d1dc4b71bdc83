# noxy_sdk

The Noxy Decision Layer SDK for AI agent runtimes: it routes encrypted, actionable
decisions to the devices of an identity over gRPC and waits for the human outcome.

- `src/` is the library, verified with Verus: wire types and their proto numbers;
  per-device encryption, stated over named results of the cryptographic crates
  (each ciphertext is sealed with the HKDF-SHA256 key of the secret of a Kyber768
  encapsulation to that device's key); the per-device fan-out of one decision under
  one decision id; retry and polling decisions; endpoint normalization; and the
  authorization header that every request carries.
- `app/` is the networked client around it: the tonic channel and messages, the
  relay calls, sleeping between attempts, and JSON serialization of decisions.
- `tests/` exercises the library on concrete values, including round trips through
  the cryptographic crates.
