//! A single-slot bridge that hands the outcome of an asynchronous wallet
//! connection to a synchronous per-frame update step.
mod address;
mod bridge;
mod hand_off;
mod laws;
mod state;

pub use address::{byte_hex, hex_digit, label_of, AccountId};
pub use state::{ConnectError, ProviderError, Receive, Send, WalletAddress, Web3State};
pub use hand_off::{bound_of, queued, HandOff, SLOT_CAPACITY};
pub use bridge::{accounts_view, connect_outcome, deliver, delivered, forwarded, receive, refused_count, send, offered, outcome_of, polled};
pub use laws::{accepted_at, from_delivered, handed_over, lemma_address_only_from_delivered, lemma_full_slot_drops_new_result, lemma_poll_idempotent, run, step, Bridge, BridgeStep};
