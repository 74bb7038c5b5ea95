use vote_program::{
    downvote, initialize, upvote, Vote, VoteError, VoteEvent, VoteLedger, VoteState, VoteType,
};

const PAYER: [u8; 32] = [7u8; 32];
const NOW: i64 = 1_700_000_000;

#[test]
fn fresh_record_reads_back_zeroed() {
    let mut ledger = VoteLedger::new();
    let address = initialize(&mut ledger, "some-key", PAYER, NOW).expect("creation succeeds");
    let record = ledger.get("some-key").expect("record exists");
    assert_eq!(record.score, 0);
    assert_eq!(record.total_votes, 0);
    assert_eq!(record.created_at, NOW);
    assert_eq!(address.len(), 32);
}

#[test]
fn empty_key_is_rejected_and_nothing_is_created() {
    let mut ledger = VoteLedger::new();
    assert_eq!(initialize(&mut ledger, "", PAYER, NOW), Err(VoteError::InvalidUrl));
    assert!(ledger.get("").is_none());
    assert!(ledger.events().is_empty());
}

#[test]
fn second_initialize_collides_and_leaves_record_unchanged() {
    let mut ledger = VoteLedger::new();
    initialize(&mut ledger, "k", PAYER, NOW).expect("first creation succeeds");
    upvote(&mut ledger, "k").expect("vote succeeds");
    let before = *ledger.get("k").expect("record exists");
    assert_eq!(
        initialize(&mut ledger, "k", PAYER, NOW + 5),
        Err(VoteError::AddressCollision)
    );
    let after = *ledger.get("k").expect("record still exists");
    assert_eq!(after, before);
}

#[test]
fn mixed_vote_sequence_tallies_by_counts_not_order() {
    let mut ledger = VoteLedger::new();
    initialize(&mut ledger, "k", PAYER, NOW).expect("creation succeeds");
    // three upvotes and two downvotes, interleaved
    upvote(&mut ledger, "k").expect("vote succeeds");
    downvote(&mut ledger, "k").expect("vote succeeds");
    upvote(&mut ledger, "k").expect("vote succeeds");
    downvote(&mut ledger, "k").expect("vote succeeds");
    let last = upvote(&mut ledger, "k").expect("vote succeeds");
    assert_eq!(last, 1); // 3 - 2
    let record = ledger.get("k").expect("record exists");
    assert_eq!(record.score, 1);
    assert_eq!(record.total_votes, 5); // 3 + 2
}

#[test]
fn voting_on_missing_key_fails_and_creates_nothing() {
    let mut ledger = VoteLedger::new();
    assert_eq!(upvote(&mut ledger, "never-made"), Err(VoteError::RecordNotFound));
    assert_eq!(downvote(&mut ledger, "never-made"), Err(VoteError::RecordNotFound));
    assert!(ledger.get("never-made").is_none());
    assert!(ledger.events().is_empty());
}

#[test]
fn voting_with_empty_key_is_invalid() {
    let mut ledger = VoteLedger::new();
    assert_eq!(upvote(&mut ledger, ""), Err(VoteError::InvalidUrl));
    assert_eq!(downvote(&mut ledger, ""), Err(VoteError::InvalidUrl));
}

#[test]
fn upvote_at_maximum_score_overflows_without_partial_mutation() {
    let mut accounts = Vote {
        vote_account: VoteState { score: i64::MAX, bump: 3, created_at: NOW, total_votes: 10 },
    };
    assert_eq!(accounts.upvote(), Err(VoteError::Overflow));
    assert_eq!(accounts.vote_account.score, i64::MAX);
    assert_eq!(accounts.vote_account.total_votes, 10);
}

#[test]
fn upvote_at_maximum_activity_overflows_without_partial_mutation() {
    let mut accounts = Vote {
        vote_account: VoteState { score: 5, bump: 3, created_at: NOW, total_votes: u64::MAX },
    };
    assert_eq!(accounts.upvote(), Err(VoteError::Overflow));
    assert_eq!(accounts.vote_account.score, 5);
    assert_eq!(accounts.vote_account.total_votes, u64::MAX);
}

#[test]
fn downvote_at_minimum_score_overflows_without_partial_mutation() {
    let mut accounts = Vote {
        vote_account: VoteState { score: i64::MIN, bump: 3, created_at: NOW, total_votes: 10 },
    };
    assert_eq!(accounts.downvote(), Err(VoteError::Overflow));
    assert_eq!(accounts.vote_account.score, i64::MIN);
    assert_eq!(accounts.vote_account.total_votes, 10);
}

#[test]
fn example_scenario_runs_to_minus_one_with_three_votes() {
    let mut ledger = VoteLedger::new();
    initialize(&mut ledger, "https://example.com", PAYER, NOW).expect("creation succeeds");
    let record = ledger.get("https://example.com").expect("record exists");
    assert_eq!(record.score, 0);
    assert_eq!(record.total_votes, 0);
    assert_eq!(upvote(&mut ledger, "https://example.com"), Ok(1));
    assert_eq!(downvote(&mut ledger, "https://example.com"), Ok(0));
    assert_eq!(downvote(&mut ledger, "https://example.com"), Ok(-1));
    let record = ledger.get("https://example.com").expect("record exists");
    assert_eq!(record.score, -1);
    assert_eq!(record.total_votes, 3);
}

#[test]
fn derivation_is_deterministic_across_ledgers() {
    let mut first = VoteLedger::new();
    let mut second = VoteLedger::new();
    let a = initialize(&mut first, "same-key", PAYER, NOW).expect("creation succeeds");
    let b = initialize(&mut second, "same-key", [9u8; 32], NOW + 1).expect("creation succeeds");
    assert_eq!(a, b);
    let bump_first = first.get("same-key").expect("record exists").bump;
    let bump_second = second.get("same-key").expect("record exists").bump;
    assert_eq!(bump_first, bump_second);
}

#[test]
fn distinct_keys_get_distinct_addresses_and_records() {
    let mut ledger = VoteLedger::new();
    let a = initialize(&mut ledger, "alpha", PAYER, NOW).expect("creation succeeds");
    let b = initialize(&mut ledger, "beta", PAYER, NOW).expect("creation succeeds");
    assert_ne!(a, b);
    upvote(&mut ledger, "alpha").expect("vote succeeds");
    assert_eq!(ledger.get("alpha").expect("record exists").score, 1);
    assert_eq!(ledger.get("beta").expect("record exists").score, 0);
}

#[test]
fn notifications_record_creation_and_votes_in_order() {
    let mut ledger = VoteLedger::new();
    let address = initialize(&mut ledger, "k", PAYER, NOW).expect("creation succeeds");
    upvote(&mut ledger, "k").expect("vote succeeds");
    downvote(&mut ledger, "k").expect("vote succeeds");
    let events = ledger.events();
    assert_eq!(events.len(), 3);
    match &events[0] {
        VoteEvent::Created(e) => {
            assert_eq!(e.url, "k");
            assert_eq!(e.vote_account, address);
            assert_eq!(e.payer, PAYER);
        }
        VoteEvent::Cast(_) => panic!("expected a creation notification first"),
    }
    match &events[1] {
        VoteEvent::Cast(e) => {
            assert_eq!(e.url, "k");
            assert_eq!(e.vote_account, address);
            assert_eq!(e.vote_type, VoteType::Upvote);
            assert_eq!(e.new_score, 1);
        }
        VoteEvent::Created(_) => panic!("expected a vote notification second"),
    }
    match &events[2] {
        VoteEvent::Cast(e) => {
            assert_eq!(e.vote_type, VoteType::Downvote);
            assert_eq!(e.new_score, 0);
        }
        VoteEvent::Created(_) => panic!("expected a vote notification third"),
    }
}

#[test]
fn failed_votes_emit_no_notification() {
    let mut ledger = VoteLedger::new();
    initialize(&mut ledger, "k", PAYER, NOW).expect("creation succeeds");
    let emitted = ledger.events().len();
    assert_eq!(upvote(&mut ledger, "missing"), Err(VoteError::RecordNotFound));
    assert_eq!(upvote(&mut ledger, ""), Err(VoteError::InvalidUrl));
    assert_eq!(ledger.events().len(), emitted);
}

#[test]
fn overlong_key_cannot_be_derived_and_is_rejected() {
    // a key longer than the derivation's maximum seed length of 32 bytes
    let long_key = "a-key-well-beyond-thirty-two-bytes-in-length";
    let mut ledger = VoteLedger::new();
    assert_eq!(initialize(&mut ledger, long_key, PAYER, NOW), Err(VoteError::InvalidUrl));
    assert!(ledger.get(long_key).is_none());
}
