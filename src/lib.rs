//! Core of a secure signaling client: the crypto primitives, nonce and
//! cookie bookkeeping, the envelope frame codec, the server and peer
//! handshake state machines, the orchestrator that sequences them, and task
//! negotiation.

pub mod codec;
pub mod crypto;
pub mod hex;
pub mod negotiation;
pub mod nonce;
pub mod signaling;
pub mod state;
