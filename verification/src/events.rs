use vstd::prelude::*;

verus! {

/// Which direction a cast vote moved the score.
#[derive(Clone, Copy, Debug, PartialEq, Eq, Structural)]
pub enum VoteType {
    Upvote,
    Downvote,
}

/// Notification emitted when a record is created for a key.
#[derive(Debug)]
pub struct VoteAccountCreated {
    /// The key the record was created for.
    pub url: String,
    /// The derived address the record stands at.
    pub vote_account: [u8; 32],
    /// The identity that paid for the creation.
    pub payer: [u8; 32],
}

/// Notification emitted when a vote is cast on an existing record.
#[derive(Debug)]
pub struct VoteCast {
    /// The key the vote was cast for.
    pub url: String,
    /// The derived address of the record the vote landed on.
    pub vote_account: [u8; 32],
    /// Which direction the vote moved the score.
    pub vote_type: VoteType,
    /// The score after the vote.
    pub new_score: i64,
}

/// One entry of the ledger's notification log.
#[derive(Debug)]
pub enum VoteEvent {
    Created(VoteAccountCreated),
    Cast(VoteCast),
}

/// The mathematical content of a notification.
pub enum EventModel {
    Created { url: Seq<char>, vote_account: Seq<u8>, payer: Seq<u8> },
    Cast { url: Seq<char>, vote_account: Seq<u8>, vote_type: VoteType, new_score: i64 },
}

impl View for VoteEvent {
    type V = EventModel;

    open spec fn view(&self) -> EventModel {
        match self {
            VoteEvent::Created(e) => EventModel::Created {
                url: e.url@,
                vote_account: e.vote_account@,
                payer: e.payer@,
            },
            VoteEvent::Cast(e) => EventModel::Cast {
                url: e.url@,
                vote_account: e.vote_account@,
                vote_type: e.vote_type,
                new_score: e.new_score,
            },
        }
    }
}

} // verus!
