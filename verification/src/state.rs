use vstd::prelude::*;

verus! {

/// The persistent record kept for one key: a signed score, the bump that
/// re-derives and authenticates the record's address, the creation time,
/// and the count of successful votes ever applied.
///
/// The field order and widths mirror the stored byte layout: score
/// (8 bytes signed), bump (1 byte), created_at (8 bytes signed),
/// total_votes (8 bytes unsigned).
#[derive(Clone, Copy, Debug, PartialEq, Eq, Structural)]
pub struct VoteState {
    /// Current vote score; moves by one per successful vote and may go
    /// negative.
    pub score: i64,
    /// Derivation proof (bump seed) recorded at creation.
    pub bump: u8,
    /// Timestamp captured at creation, immutable afterwards.
    pub created_at: i64,
    /// Total number of successful votes, upvotes and downvotes together;
    /// never decreases.
    pub total_votes: u64,
}

} // verus!
