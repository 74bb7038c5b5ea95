use crate::errors::VoteError;
use crate::state::VoteState;
use vstd::prelude::*;

verus! {

/// The accounts taking part in a record creation: the paying identity and
/// the freshly allocated record about to be filled in.
pub struct Initialize {
    /// The identity paying for the allocation.
    pub payer: [u8; 32],
    /// The record being created.
    pub vote_account: VoteState,
}

impl Initialize {
    /// Fills a freshly allocated record with its starting values: zero
    /// score, zero activity, the derivation bump, and the creation time.
    pub fn initialize(&mut self, bump: u8, now: i64) -> (r: Result<(), VoteError>)
        ensures
            r is Ok,
            final(self).vote_account == (VoteState {
                score: 0,
                bump: bump,
                created_at: now,
                total_votes: 0,
            }),
            final(self).payer == old(self).payer,
    {
        self.vote_account.score = 0;
        self.vote_account.bump = bump;
        self.vote_account.created_at = now;
        self.vote_account.total_votes = 0;
        Ok(())
    }
}

/// The accounts taking part in casting a vote: the record being mutated.
pub struct Vote {
    /// The record the vote lands on.
    pub vote_account: VoteState,
}

impl Vote {
    /// Moves the score up by one and the activity counter up by one, both
    /// with checked addition; fails with `Overflow`, changing nothing, if
    /// either counter is at its maximum.
    pub fn upvote(&mut self) -> (r: Result<(), VoteError>)
        ensures
            r is Ok <==> (old(self).vote_account.score < i64::MAX
                && old(self).vote_account.total_votes < u64::MAX),
            r is Ok ==> final(self).vote_account == (VoteState {
                score: (old(self).vote_account.score + 1) as i64,
                bump: old(self).vote_account.bump,
                created_at: old(self).vote_account.created_at,
                total_votes: (old(self).vote_account.total_votes + 1) as u64,
            }),
            r is Err ==> r == Err::<(), VoteError>(VoteError::Overflow) && *final(self) == *old(self),
    {
        let new_score = match self.vote_account.score.checked_add(1) {
            Some(s) => s,
            None => {
                return Err(VoteError::Overflow);
            },
        };
        let new_total = match self.vote_account.total_votes.checked_add(1) {
            Some(t) => t,
            None => {
                return Err(VoteError::Overflow);
            },
        };
        self.vote_account.score = new_score;
        self.vote_account.total_votes = new_total;
        Ok(())
    }

    /// Moves the score down by one and the activity counter up by one, the
    /// score with checked subtraction; fails with `Overflow`, changing
    /// nothing, if the score is at its minimum or the activity counter at
    /// its maximum.
    pub fn downvote(&mut self) -> (r: Result<(), VoteError>)
        ensures
            r is Ok <==> (old(self).vote_account.score > i64::MIN
                && old(self).vote_account.total_votes < u64::MAX),
            r is Ok ==> final(self).vote_account == (VoteState {
                score: (old(self).vote_account.score - 1) as i64,
                bump: old(self).vote_account.bump,
                created_at: old(self).vote_account.created_at,
                total_votes: (old(self).vote_account.total_votes + 1) as u64,
            }),
            r is Err ==> r == Err::<(), VoteError>(VoteError::Overflow) && *final(self) == *old(self),
    {
        let new_score = match self.vote_account.score.checked_sub(1) {
            Some(s) => s,
            None => {
                return Err(VoteError::Overflow);
            },
        };
        let new_total = match self.vote_account.total_votes.checked_add(1) {
            Some(t) => t,
            None => {
                return Err(VoteError::Overflow);
            },
        };
        self.vote_account.score = new_score;
        self.vote_account.total_votes = new_total;
        Ok(())
    }
}

} // verus!
