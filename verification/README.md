# whisper_desktop

End-to-end encrypted messaging core, verified with Verus.

- `src/` is the verified library: the relay wire protocol (`relay::protocol`),
  the relay client's handshake and connection state machine (`relay::client`),
  the offline message queue and its flush decisions (`relay::queue`), the
  message and key-sealing cryptography framing (`crypto`, `storage::identity`),
  the storage records and their text forms, and what the frontend commands
  decide (link QR text, relay addresses, encrypted outgoing messages, status).
  Calls into outside crates (ed25519-dalek, x25519-dalek, chacha20poly1305,
  sha2, argon2, bs58, hex, rand) sit behind small trusted wrappers whose
  contracts name what the crates compute.
- `tests/` exercises the library on concrete values.
- `app/` is the Tauri application around it: SQLite storage, the WebSocket
  transport, files, tray and notifications. It holds no rule of its own.
