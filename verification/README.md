# ink_receipts

A verified receipt engine for AI actions: canonical receipts, their hashes and
signatures, and the verifiers that a receiving party runs locally. The library
under `src/` is written in Verus. Its functions carry contracts that Verus
proves; the thin wrappers around the outside crates it calls (hashing,
signatures, Base64, hex, JSON string escaping, time, UUIDs, media types) carry
contracts that Verus takes on trust, each stating what that crate's source
shows. `app/` is the command-line program around it.

## Layout

- `src/kernel.rs`, `bounded.rs`, `canon.rs`, `decode.rs`, `canon_laws.rs`:
  the receipt kernel, its canonical encoding and decoder, and the laws that tie
  them together (decoding an encoding gives the receipt back).
- `src/verify.rs`, `trust.rs`, `laws.rs`, `attest.rs`, `signer.rs`, `signing.rs`:
  structural verification, signature checks against trusted keys, and the
  soundness and completeness of signature verification.
- `src/legacy/`, `model_waist.rs`, `digest.rs`, `field_ids.rs`, `domain.rs`:
  receipt payloads and their TLV transcripts.
- `src/receipt_v2/`: the portable v2 verifier: JSON documents, normalisation,
  canonical JSON, manifest/evidence/controls hashing, projection onto the
  kernel and the full verification report, with trust registries and
  revocation lists of the first and second versions.
- `src/host/`: what the host decides: encodings it issues, policies it
  compiles, hosted issuance and signing (and the law that a receipt it
  issues and signs verifies as valid), gate receipts, first-version
  receipts, refused reports, and the remote signer's issuer, request and answer.
- `src/tui.rs`: the terminal verifier's fields and what each key does.
- `src/proofmail/`: packet manifests, integrity hashes, the packet store,
  audit trail and delivery.
- `src/wasm.rs`: entry points for an embedding host (bytes in, JSON text out).
- `src/vectors.rs`: deterministic kernel test vectors.
- `app/`: the `ink` command line (file reading, JSON parsing with serde, report
  printing), the host's file work and HTTP calls to a remote signer
  (`reqwest`), the terminal screen (`ratatui`, `crossterm`), the ProofMail
  service and packet store.

Outside crates (`sha2`, `ed25519-dalek`, `base64ct`, `hex`, `serde_json`,
`mime_guess`, `chrono`, `uuid`) are called from `src/` only through small
trusted wrappers whose contracts state what each call returns.
