use crate::events::VoteType;
use crate::state::VoteState;
use vstd::prelude::*;

verus! {

/// The two counters of a record, viewed as unbounded integers.
pub struct Tally {
    pub score: int,
    pub total_activity: int,
}

/// The counters a stored record holds, as a tally.
pub open spec fn tally_of(rec: VoteState) -> Tally {
    Tally { score: rec.score as int, total_activity: rec.total_votes as int }
}

/// One successful vote: the score moves by one in the vote's direction and
/// the activity counter grows by one.
pub open spec fn vote_step(t: Tally, v: VoteType) -> Tally {
    match v {
        VoteType::Upvote => Tally { score: t.score + 1, total_activity: t.total_activity + 1 },
        VoteType::Downvote => Tally { score: t.score - 1, total_activity: t.total_activity + 1 },
    }
}

/// The tally after a whole sequence of successful votes, applied oldest
/// first.
pub open spec fn replay(t: Tally, ops: Seq<VoteType>) -> Tally
    decreases ops.len(),
{
    if ops.len() == 0 {
        t
    } else {
        vote_step(replay(t, ops.drop_last()), ops.last())
    }
}

/// How many votes of one kind a sequence holds.
pub open spec fn count_votes(ops: Seq<VoteType>, v: VoteType) -> int
    decreases ops.len(),
{
    if ops.len() == 0 {
        0
    } else {
        count_votes(ops.drop_last(), v) + (if ops.last() == v {
            1int
        } else {
            0int
        })
    }
}

/// Law: after any sequence of successful votes on one record, the score has
/// moved by the number of upvotes minus the number of downvotes, and the
/// activity counter by the length of the sequence — whatever order the
/// votes came in.
pub proof fn lemma_replay_tally(t: Tally, ops: Seq<VoteType>)
    ensures
        replay(t, ops).score == t.score + count_votes(ops, VoteType::Upvote) - count_votes(
            ops,
            VoteType::Downvote,
        ),
        replay(t, ops).total_activity == t.total_activity + ops.len(),
    decreases ops.len(),
{
    if ops.len() > 0 {
        lemma_replay_tally(t, ops.drop_last());
    }
}

/// Law: starting from a fresh record, a sequence of `n` successful upvotes
/// and `m` successful downvotes leaves the score at `n - m` and the
/// activity counter at `n + m`.
pub proof fn lemma_tally_from_fresh(ops: Seq<VoteType>)
    ensures
        replay(Tally { score: 0, total_activity: 0 }, ops).score == count_votes(
            ops,
            VoteType::Upvote,
        ) - count_votes(ops, VoteType::Downvote),
        replay(Tally { score: 0, total_activity: 0 }, ops).total_activity == ops.len(),
{
    lemma_replay_tally(Tally { score: 0, total_activity: 0 }, ops);
}

/// Law: a record read back immediately after its creation shows a zero
/// score and no recorded activity.
pub proof fn lemma_fresh_record_read(
    records: Map<Seq<char>, VoteState>,
    url: Seq<char>,
    bump: u8,
    now: i64,
)
    ensures
        ({
            let after = records.insert(
                url,
                (VoteState { score: 0, bump: bump, created_at: now, total_votes: 0 }),
            );
            &&& after.contains_key(url)
            &&& after[url].score == 0
            &&& after[url].total_votes == 0
        }),
{
}

/// Law: record creation is exclusive. Once a record stands at a key, that
/// key is occupied and keeps the stored record, so a later attempt to
/// create it again reports a collision instead of touching it.
pub proof fn lemma_second_initialize_collides(
    records: Map<Seq<char>, VoteState>,
    url: Seq<char>,
    rec: VoteState,
)
    ensures
        records.insert(url, rec).contains_key(url),
        records.insert(url, rec)[url] == rec,
{
}

} // verus!
