# pqc-vault

A Rust API over post-quantum primitives — ML-KEM (Kyber) key encapsulation
and ML-DSA (Dilithium) signatures — with a hybrid X25519 + ML-KEM exchange,
passphrase-sealed key bundles (Argon2id + AES-256-GCM) and PEM encoding of
public keys. The library is written in Verus: every function in `src/`
carries a contract that Verus proves.

## Layout

- `src/kem.rs`, `src/dsa.rs` — typed keys and key pairs; the Kyber and
  Dilithium primitives are called through small trusted wrappers whose
  contracts name what the C code computes.
- `src/hybrid.rs` — X25519 + Kyber, combined with HKDF-SHA256; ciphertexts
  travel as hex.
- `src/serial.rs` — key export and the encrypted, versioned key bundle.
- `src/pem.rs` — PEM text for public keys, with the reading side specified
  line by line.
- `src/text.rs`, `src/utils.rs` — searching, trimming and splitting text,
  hex, decimal numbers, constant-time comparison.
- `src/cli.rs` — the decisions of the command-line tool.
- `src/secret.rs` — byte buffers wiped on drop.
- `app/main.rs` — the `pqc-vault` command-line tool: arguments, files,
  passphrase prompts and the JSON form of a key bundle.

## Proved properties

Among them: a signature made with a key pair verifies under its public key;
a public key read back from its PEM text is the key that was written, and a
PEM text of one kind is refused as the other; a bundle unsealed with the
passphrase it was sealed with gives back the sealed key pair, and unsealing
it as the other kind is refused; a hybrid ciphertext read back from its hex
text is the same ciphertext.

## Assumed, not proved

Kyber's decryption fails with a small probability (below 2^-139), and then
decapsulation returns a pseudo-random secret. So the library does not claim
that decapsulation always gives back the encapsulated secret: the KEM and
hybrid round trips are proved under the explicit hypothesis that Kyber's
decryption succeeds (`kem_decrypts`), and only that hypothesis is assumed.
