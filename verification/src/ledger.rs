use crate::contexts::{Initialize, Vote};
use crate::derivation::{derivable, derived_record_address, find_record_address, PROGRAM_ID};
use crate::errors::VoteError;
use crate::events::{EventModel, VoteAccountCreated, VoteCast, VoteEvent, VoteType};
use crate::laws::{tally_of, vote_step};
use crate::state::VoteState;
use vstd::hash_map::StringHashMap;
use vstd::prelude::*;
use vstd::string::StringExecFns;

verus! {

/// The mathematical content of a ledger: the records it stores, keyed by
/// key string, and the notifications it has emitted, oldest first.
pub struct LedgerModel {
    pub records: Map<Seq<char>, VoteState>,
    pub events: Seq<EventModel>,
}

/// An in-memory stand-in for the runtime's account storage: exactly one
/// record per distinct key, and the log of emitted notifications. A map
/// keyed by the key string gives the same exclusivity and lookup guarantees
/// that the runtime's derived addresses give.
pub struct VoteLedger {
    records: StringHashMap<VoteState>,
    events: Vec<VoteEvent>,
}

impl View for VoteLedger {
    type V = LedgerModel;

    closed spec fn view(&self) -> LedgerModel {
        LedgerModel {
            records: self.records@,
            events: self.events@.map_values(|e: VoteEvent| e@),
        }
    }
}

impl VoteLedger {
    /// Every stored record sits under a non-empty key whose address
    /// derivation succeeds and agrees with the record's stored bump.
    #[verifier::type_invariant]
    spec fn wf(self) -> bool {
        forall|k: Seq<char>| #[trigger] self.records@.dom().contains(k) ==> {
            &&& k.len() > 0
            &&& derived_record_address(k, PROGRAM_ID@) matches Some(p) && p.1
                == self.records@[k].bump
        }
    }

    /// An empty ledger: no records and no notifications yet.
    pub fn new() -> (r: VoteLedger)
        ensures
            r@.records == Map::<Seq<char>, VoteState>::empty(),
            r@.events == Seq::<EventModel>::empty(),
    {
        let ledger = VoteLedger { records: StringHashMap::new(), events: Vec::new() };
        proof {
            assert(ledger.events@.map_values(|e: VoteEvent| e@) =~= Seq::<EventModel>::empty());
        }
        ledger
    }

    /// Reads the record stored for a key, if there is one. Reading changes
    /// nothing and emits nothing.
    pub fn get(&self, url: &str) -> (r: Option<&VoteState>)
        ensures
            (match r {
                Some(v) => self@.records.contains_key(url@) && *v == self@.records[url@],
                None => !self@.records.contains_key(url@),
            }),
    {
        self.records.get(url)
    }

    /// The notifications emitted so far, oldest first.
    pub fn events(&self) -> (r: &Vec<VoteEvent>)
        ensures
            r@.map_values(|e: VoteEvent| e@) == self@.events,
    {
        &self.events
    }
}

/// Creates the record for a key. An empty key, or one no address can be
/// derived for, is rejected as invalid before anything else; a key whose
/// record already exists collides. Otherwise a record is stored with zero
/// counters, the derivation's bump and the given creation time, a creation
/// notification is emitted, and the derived address is returned. On any
/// failure the ledger is left exactly as it was.
pub fn initialize(ledger: &mut VoteLedger, url: &str, payer: [u8; 32], now: i64) -> (r: Result<
    [u8; 32],
    VoteError,
>)
    ensures
        r is Err ==> final(ledger)@ == old(ledger)@,
        r == Err::<[u8; 32], VoteError>(VoteError::InvalidUrl) <==> (url@.len() == 0 || !derivable(
            url@,
        )),
        r == Err::<[u8; 32], VoteError>(VoteError::AddressCollision) <==> (url@.len() > 0
            && derivable(url@) && old(ledger)@.records.contains_key(url@)),
        r is Ok <==> (url@.len() > 0 && derivable(url@) && !old(ledger)@.records.contains_key(
            url@,
        )),
        r matches Ok(address) ==> (derived_record_address(url@, PROGRAM_ID@) matches Some(p) && {
            &&& address@ == p.0
            &&& final(ledger)@.records == old(ledger)@.records.insert(
                url@,
                (VoteState { score: 0, bump: p.1, created_at: now, total_votes: 0 }),
            )
            &&& final(ledger)@.events == old(ledger)@.events.push(
                (EventModel::Created { url: url@, vote_account: p.0, payer: payer@ }),
            )
        }),
{
    proof {
        use_type_invariant(&*ledger);
    }
    if url.is_empty() {
        return Err(VoteError::InvalidUrl);
    }
    let derived = find_record_address(url, &PROGRAM_ID);
    let (address, bump) = match derived {
        Some(p) => p,
        None => {
            return Err(VoteError::InvalidUrl);
        },
    };
    if ledger.records.contains_key(url) {
        return Err(VoteError::AddressCollision);
    }
    let mut accounts = Initialize {
        payer,
        vote_account: VoteState { score: 0, bump: 0, created_at: 0, total_votes: 0 },
    };
    match accounts.initialize(bump, now) {
        Ok(()) => {},
        Err(e) => {
            return Err(e);
        },
    }
    let mut records: StringHashMap<VoteState> = StringHashMap::new();
    let mut events: Vec<VoteEvent> = Vec::new();
    core::mem::swap(&mut records, &mut ledger.records);
    core::mem::swap(&mut events, &mut ledger.events);
    let ghost events_before = events@;
    records.insert(String::from_str(url), accounts.vote_account);
    events.push(
        VoteEvent::Created(
            VoteAccountCreated { url: String::from_str(url), vote_account: address, payer },
        ),
    );
    proof {
        assert(events@.map_values(|e: VoteEvent| e@) =~= events_before.map_values(
            |e: VoteEvent| e@,
        ).push((EventModel::Created { url: url@, vote_account: address@, payer: payer@ })));
    }
    core::mem::swap(&mut records, &mut ledger.records);
    core::mem::swap(&mut events, &mut ledger.events);
    Ok(address)
}

/// Casts an upvote for a key: moves its record's score up by one and its
/// activity counter up by one, emits a cast notification carrying the
/// re-derived address and the new score, and returns that score. An empty
/// key is invalid; a key without a record is not found; a counter at its
/// maximum overflows. On any failure the ledger is left exactly as it was —
/// in particular, neither counter moves without the other.
pub fn upvote(ledger: &mut VoteLedger, url: &str) -> (r: Result<i64, VoteError>)
    ensures
        r is Err ==> final(ledger)@ == old(ledger)@,
        r == Err::<i64, VoteError>(VoteError::InvalidUrl) <==> url@.len() == 0,
        r == Err::<i64, VoteError>(VoteError::RecordNotFound) <==> (url@.len() > 0 && !old(ledger)@.records.contains_key(url@)),
        r == Err::<i64, VoteError>(VoteError::Overflow) <==> (url@.len() > 0 && old(ledger)@.records.contains_key(url@) && (old(ledger)@.records[url@].score == i64::MAX || old(ledger)@.records[url@].total_votes == u64::MAX)),
        r is Ok <==> (url@.len() > 0 && old(ledger)@.records.contains_key(url@) && old(ledger)@.records[url@].score < i64::MAX && old(ledger)@.records[url@].total_votes < u64::MAX),
        r matches Ok(new_score) ==> ({
            let prev = old(ledger)@.records[url@];
            let rec = VoteState {
                score: (prev.score + 1) as i64,
                bump: prev.bump,
                created_at: prev.created_at,
                total_votes: (prev.total_votes + 1) as u64,
            };
            &&& new_score == prev.score + 1
            &&& tally_of(rec) == vote_step(tally_of(prev), VoteType::Upvote)
            &&& final(ledger)@.records == old(ledger)@.records.insert(url@, rec)
            &&& derived_record_address(url@, PROGRAM_ID@) matches Some(p) && final(ledger)@.events == old(ledger)@.events.push(
                (EventModel::Cast {
                    url: url@,
                    vote_account: p.0,
                    vote_type: VoteType::Upvote,
                    new_score: rec.score,
                }),
            )
        }),
{
    proof {
        use_type_invariant(&*ledger);
    }
    if url.is_empty() {
        return Err(VoteError::InvalidUrl);
    }
    let derived = find_record_address(url, &PROGRAM_ID);
    let (address, bump) = match derived {
        Some(p) => p,
        None => {
            return Err(VoteError::RecordNotFound);
        },
    };
    let stored = match ledger.records.get(url) {
        Some(v) => *v,
        None => {
            return Err(VoteError::RecordNotFound);
        },
    };
    if bump != stored.bump {
        // The re-derived bump authenticates the stored derivation proof;
        // derivation is deterministic, so a mismatch cannot happen.
        return Err(VoteError::RecordNotFound);
    }
    let mut accounts = Vote { vote_account: stored };
    match accounts.upvote() {
        Ok(()) => {},
        Err(e) => {
            return Err(e);
        },
    }
    let new_score = accounts.vote_account.score;
    let mut records: StringHashMap<VoteState> = StringHashMap::new();
    let mut events: Vec<VoteEvent> = Vec::new();
    core::mem::swap(&mut records, &mut ledger.records);
    core::mem::swap(&mut events, &mut ledger.events);
    let ghost events_before = events@;
    records.insert(String::from_str(url), accounts.vote_account);
    events.push(
        VoteEvent::Cast(VoteCast {
            url: String::from_str(url),
            vote_account: address,
            vote_type: VoteType::Upvote,
            new_score,
        }),
    );
    proof {
        assert(events@.map_values(|e: VoteEvent| e@) =~= events_before.map_values(
            |e: VoteEvent| e@,
        ).push(
            (EventModel::Cast {
                url: url@,
                vote_account: address@,
                vote_type: VoteType::Upvote,
                new_score: new_score,
            }),
        ));
    }
    core::mem::swap(&mut records, &mut ledger.records);
    core::mem::swap(&mut events, &mut ledger.events);
    Ok(new_score)
}

/// Casts a downvote for a key: moves its record's score down by one and its
/// activity counter up by one, emits a cast notification carrying the
/// re-derived address and the new score, and returns that score. An empty
/// key is invalid; a key without a record is not found; the score at its
/// minimum or the activity counter at its maximum overflows. On any failure
/// the ledger is left exactly as it was — in particular, neither counter
/// moves without the other.
pub fn downvote(ledger: &mut VoteLedger, url: &str) -> (r: Result<i64, VoteError>)
    ensures
        r is Err ==> final(ledger)@ == old(ledger)@,
        r == Err::<i64, VoteError>(VoteError::InvalidUrl) <==> url@.len() == 0,
        r == Err::<i64, VoteError>(VoteError::RecordNotFound) <==> (url@.len() > 0 && !old(ledger)@.records.contains_key(url@)),
        r == Err::<i64, VoteError>(VoteError::Overflow) <==> (url@.len() > 0 && old(ledger)@.records.contains_key(url@) && (old(ledger)@.records[url@].score == i64::MIN || old(ledger)@.records[url@].total_votes == u64::MAX)),
        r is Ok <==> (url@.len() > 0 && old(ledger)@.records.contains_key(url@) && old(ledger)@.records[url@].score > i64::MIN && old(ledger)@.records[url@].total_votes < u64::MAX),
        r matches Ok(new_score) ==> ({
            let prev = old(ledger)@.records[url@];
            let rec = VoteState {
                score: (prev.score - 1) as i64,
                bump: prev.bump,
                created_at: prev.created_at,
                total_votes: (prev.total_votes + 1) as u64,
            };
            &&& new_score == prev.score - 1
            &&& tally_of(rec) == vote_step(tally_of(prev), VoteType::Downvote)
            &&& final(ledger)@.records == old(ledger)@.records.insert(url@, rec)
            &&& derived_record_address(url@, PROGRAM_ID@) matches Some(p) && final(ledger)@.events == old(ledger)@.events.push(
                (EventModel::Cast {
                    url: url@,
                    vote_account: p.0,
                    vote_type: VoteType::Downvote,
                    new_score: rec.score,
                }),
            )
        }),
{
    proof {
        use_type_invariant(&*ledger);
    }
    if url.is_empty() {
        return Err(VoteError::InvalidUrl);
    }
    let derived = find_record_address(url, &PROGRAM_ID);
    let (address, bump) = match derived {
        Some(p) => p,
        None => {
            return Err(VoteError::RecordNotFound);
        },
    };
    let stored = match ledger.records.get(url) {
        Some(v) => *v,
        None => {
            return Err(VoteError::RecordNotFound);
        },
    };
    if bump != stored.bump {
        // The re-derived bump authenticates the stored derivation proof;
        // derivation is deterministic, so a mismatch cannot happen.
        return Err(VoteError::RecordNotFound);
    }
    let mut accounts = Vote { vote_account: stored };
    match accounts.downvote() {
        Ok(()) => {},
        Err(e) => {
            return Err(e);
        },
    }
    let new_score = accounts.vote_account.score;
    let mut records: StringHashMap<VoteState> = StringHashMap::new();
    let mut events: Vec<VoteEvent> = Vec::new();
    core::mem::swap(&mut records, &mut ledger.records);
    core::mem::swap(&mut events, &mut ledger.events);
    let ghost events_before = events@;
    records.insert(String::from_str(url), accounts.vote_account);
    events.push(
        VoteEvent::Cast(VoteCast {
            url: String::from_str(url),
            vote_account: address,
            vote_type: VoteType::Downvote,
            new_score,
        }),
    );
    proof {
        assert(events@.map_values(|e: VoteEvent| e@) =~= events_before.map_values(
            |e: VoteEvent| e@,
        ).push(
            (EventModel::Cast {
                url: url@,
                vote_account: address@,
                vote_type: VoteType::Downvote,
                new_score: new_score,
            }),
        ));
    }
    core::mem::swap(&mut records, &mut ledger.records);
    core::mem::swap(&mut events, &mut ledger.events);
    Ok(new_score)
}

} // verus!
