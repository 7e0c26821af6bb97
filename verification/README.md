# drriga_agent

The verified core of a user-mode anti-cheat agent, written in Verus.

- `src/secure_session.rs`: X25519 key agreement, HKDF-SHA256 key derivation,
  AES-256-GCM heartbeats whose sequence numbers are both nonce and replay
  window, with proofs that a peer holding the key accepts a heartbeat, that
  accepted packets are refused when replayed, that failed packets never move
  the window and that no nonce is used twice.
- `src/wire.rs`: big-endian, little-endian and decimal encodings.
- `src/driver_comm.rs`: IOCTL codes and the HMAC-signed protect-process request.
- `src/jvm_integrity.rs`: bytecode digests and structural checks of JIT code.
- `src/vad_scanner.rs`: which memory regions are reported, and the walk's steps.
- `src/agent.rs`: the escalation policy for driver integrity violations.
- `src/primitives.rs`: the trusted wrappers around the cryptographic crates,
  the random number generators and the clock.

`app/` is the Windows process around it: the device handle and IOCTLs,
`VirtualQueryEx`, JVMTI, and the main loop.
