//! A small voting ledger. Each non-empty key gets at most one record,
//! stored at an address derived deterministically from the key; the record
//! carries a signed score and an activity counter, both moved only by
//! checked, all-or-nothing vote operations, and every successful operation
//! emits a notification.

pub mod contexts;
pub mod derivation;
pub mod errors;
pub mod events;
pub mod laws;
pub mod ledger;
pub mod state;

pub use contexts::{Initialize, Vote};
pub use errors::VoteError;
pub use events::{VoteAccountCreated, VoteCast, VoteEvent, VoteType};
pub use ledger::{downvote, initialize, upvote, VoteLedger};
pub use state::VoteState;
