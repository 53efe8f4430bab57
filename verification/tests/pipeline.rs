use edit_policy::actor::Actor;
use edit_policy::instant::Instant;
use edit_policy::pipeline::{AwaitingRecord, EditError, FetchReply, PersistReply};
use edit_policy::policy::{DenyReason, PolicyEngine};
use edit_policy::record::{Ownership, Proposal, Record};

const DAY: i64 = 86_400;
const CREATED: i64 = 1_700_000_000;

#[derive(Clone, Debug, PartialEq, Eq)]
struct ArtistFields {
    name: String,
    description: String,
    pictures: Vec<String>,
}

/// A store that lives in memory and counts what it is asked.
struct Store {
    records: Vec<Record<ArtistFields>>,
    fetches: usize,
    persists: usize,
    down_for_reads: bool,
    down_for_writes: bool,
}

impl Store {
    fn holding(records: Vec<Record<ArtistFields>>) -> Store {
        Store { records, fetches: 0, persists: 0, down_for_reads: false, down_for_writes: false }
    }

    fn fetch(&mut self, id: i64) -> FetchReply<ArtistFields> {
        self.fetches += 1;
        if self.down_for_reads {
            return FetchReply::Unavailable;
        }
        match self.records.iter().find(|r| r.id == id) {
            Some(found) => FetchReply::Found(found.clone()),
            None => FetchReply::Missing,
        }
    }

    fn persist(&mut self, record: &Record<ArtistFields>) -> PersistReply<ArtistFields> {
        self.persists += 1;
        if self.down_for_writes {
            return PersistReply::Unavailable;
        }
        match self.records.iter_mut().find(|r| r.id == record.id) {
            Some(slot) => {
                *slot = record.clone();
                PersistReply::Stored(slot.clone())
            }
            None => PersistReply::Unavailable,
        }
    }
}

/// Runs one edit against the store, as a request handler would.
fn edit(
    store: &mut Store,
    actor: Actor,
    proposed: Proposal<ArtistFields>,
    now: Instant,
) -> Result<Record<ArtistFields>, EditError> {
    let waiting = AwaitingRecord::begin(PolicyEngine::new(7), actor, proposed);
    let reply = store.fetch(waiting.target());
    let approved = waiting.on_fetched(reply, now)?;
    let reply = store.persist(approved.record());
    approved.on_persisted(reply)
}

fn early_fields() -> ArtistFields {
    ArtistFields {
        name: "The Beatles".to_string(),
        description: "A band from Liverpool.".to_string(),
        pictures: vec![],
    }
}

fn artist_of_42() -> Record<ArtistFields> {
    Record { id: 1, creator_id: 42, created_at: Instant::new(CREATED, 0), payload: early_fields() }
}

fn new_fields() -> ArtistFields {
    ArtistFields {
        name: "Beatles, The".to_string(),
        description:
            "They are actually called 'The Beatles', but we decided to be weird with articles."
                .to_string(),
        pictures: vec![
            "https://upload.wikimedia.org/wikipedia/commons/d/d8/The_Beatles_members_at_New_York_City_in_1964.jpg"
                .to_string(),
        ],
    }
}

#[test]
fn test_staff_can_edit_artist() {
    let mut store = Store::holding(vec![artist_of_42()]);
    let staff = Actor::staff(100);
    let req_body = Proposal::new(1, new_fields());
    let now = Instant::new(CREATED + 8 * DAY, 0);

    let response = edit(&mut store, staff, req_body.clone(), now).unwrap();

    assert_eq!(response.payload.name, req_body.payload.name);
    assert_eq!(response.payload.description, req_body.payload.description);
    assert_eq!(response.payload.pictures.len(), 1);
    assert_eq!(response.payload.pictures[0], req_body.payload.pictures[0]);
    assert_eq!(store.records[0], response);
    assert_eq!(store.persists, 1);
}

#[test]
fn member_can_edit_own_artist_inside_the_window() {
    let mut store = Store::holding(vec![artist_of_42()]);
    let now = Instant::new(CREATED + 3 * DAY, 0);
    let written = edit(&mut store, Actor::member(42), Proposal::new(1, new_fields()), now).unwrap();
    assert_eq!(
        written,
        Record { id: 1, creator_id: 42, created_at: Instant::new(CREATED, 0), payload: new_fields() }
    );
    assert_eq!(store.records[0], written);
}

#[test]
fn member_cannot_edit_own_artist_after_the_window() {
    let mut store = Store::holding(vec![artist_of_42()]);
    let now = Instant::new(CREATED + 8 * DAY, 0);
    let outcome = edit(&mut store, Actor::member(42), Proposal::new(1, new_fields()), now);
    assert_eq!(outcome, Err(EditError::InsufficientPrivileges));
    assert_eq!(store.persists, 0);
    assert_eq!(store.records[0], artist_of_42());
}

#[test]
fn member_cannot_edit_artist_of_another_user() {
    let mut store = Store::holding(vec![artist_of_42()]);
    let now = Instant::new(CREATED + 3_600, 0);
    let outcome = edit(&mut store, Actor::member(7), Proposal::new(1, new_fields()), now);
    assert_eq!(outcome, Err(EditError::InsufficientPrivileges));
    assert_eq!(store.fetches, 1);
    assert_eq!(store.persists, 0);
    assert_eq!(store.records[0], artist_of_42());
}

#[test]
fn edit_of_a_missing_record_is_not_found_for_every_actor() {
    let now = Instant::new(CREATED, 0);
    for actor in [Actor::member(42), Actor::member(7), Actor::staff(100)] {
        let mut store = Store::holding(vec![artist_of_42()]);
        let outcome = edit(&mut store, actor, Proposal::new(999, new_fields()), now);
        assert_eq!(outcome, Err(EditError::NotFound));
        assert_eq!(store.fetches, 1);
        assert_eq!(store.persists, 0);
        assert_eq!(store.records[0], artist_of_42());
    }
}

#[test]
fn missing_record_ends_the_edit_before_the_policy() {
    let waiting = AwaitingRecord::begin(
        PolicyEngine::new(7),
        Actor::staff(100),
        Proposal::new(999, new_fields()),
    );
    assert_eq!(waiting.target(), 999);
    let outcome = waiting.on_fetched(FetchReply::Missing, Instant::new(CREATED, 0));
    assert_eq!(outcome.err(), Some(EditError::NotFound));
    assert_eq!(
        FetchReply::<ArtistFields>::Missing.into_record(),
        Err(EditError::NotFound)
    );
}

#[test]
fn denial_leaves_nothing_to_write() {
    let denied_cases = [
        (Actor::member(7), CREATED + 1),
        (Actor::member(7), CREATED + 8 * DAY),
        (Actor::member(42), CREATED + 7 * DAY),
        (Actor::member(42), CREATED + 8 * DAY),
    ];
    for (actor, secs) in denied_cases {
        let waiting =
            AwaitingRecord::begin(PolicyEngine::new(7), actor, Proposal::new(1, new_fields()));
        let outcome = waiting.on_fetched(FetchReply::Found(artist_of_42()), Instant::new(secs, 0));
        assert_eq!(outcome, Err(EditError::InsufficientPrivileges));
    }
}

#[test]
fn judge_returns_the_record_to_write_or_the_denial() {
    let now = Instant::new(CREATED + DAY, 0);
    let allowed =
        AwaitingRecord::begin(PolicyEngine::new(7), Actor::member(42), Proposal::new(1, new_fields()))
            .judge(artist_of_42(), now)
            .unwrap();
    assert_eq!(allowed.record().payload, new_fields());
    assert_eq!(allowed.record().ownership(), artist_of_42().ownership());
    let denied =
        AwaitingRecord::begin(PolicyEngine::new(7), Actor::member(7), Proposal::new(1, new_fields()))
            .judge(artist_of_42(), now);
    assert_eq!(denied.err(), Some(EditError::InsufficientPrivileges));
}

#[test]
fn edit_keeps_creator_and_creation_time_against_a_forged_proposal() {
    let mut store = Store::holding(vec![artist_of_42()]);
    let forged = Proposal {
        id: 1,
        creator_id: Some(7),
        created_at: Some(Instant::new(CREATED + 100 * DAY, 0)),
        payload: new_fields(),
    };
    let now = Instant::new(CREATED + 8 * DAY, 0);
    let written = edit(&mut store, Actor::staff(100), forged, now).unwrap();
    assert_eq!(written.creator_id, 42);
    assert_eq!(written.created_at, Instant::new(CREATED, 0));
    assert_eq!(written.id, 1);
    assert_eq!(written.payload, new_fields());
    assert_eq!(store.records[0].creator_id, 42);
    assert_eq!(store.records[0].created_at, Instant::new(CREATED, 0));
}

#[test]
fn forged_creation_time_does_not_reopen_the_window() {
    let mut store = Store::holding(vec![artist_of_42()]);
    let now = Instant::new(CREATED + 8 * DAY, 0);
    let forged = Proposal {
        id: 1,
        creator_id: Some(42),
        created_at: Some(now),
        payload: new_fields(),
    };
    let outcome = edit(&mut store, Actor::member(42), forged, now);
    assert_eq!(outcome, Err(EditError::InsufficientPrivileges));
    assert_eq!(store.persists, 0);
}

#[test]
fn forged_creator_does_not_make_a_stranger_the_owner() {
    let mut store = Store::holding(vec![artist_of_42()]);
    let now = Instant::new(CREATED + 1, 0);
    let forged = Proposal { id: 1, creator_id: Some(7), created_at: None, payload: new_fields() };
    let outcome = edit(&mut store, Actor::member(7), forged, now);
    assert_eq!(outcome, Err(EditError::InsufficientPrivileges));
    assert_eq!(store.records[0], artist_of_42());
}

#[test]
fn revised_record_takes_only_the_business_fields() {
    let forged = Proposal {
        id: 5,
        creator_id: Some(7),
        created_at: Some(Instant::new(1, 1)),
        payload: new_fields(),
    };
    let revised = artist_of_42().revised(forged);
    assert_eq!(
        revised,
        Record { id: 1, creator_id: 42, created_at: Instant::new(CREATED, 0), payload: new_fields() }
    );
    assert_eq!(
        revised.ownership(),
        Ownership { creator_id: 42, created_at: Instant::new(CREATED, 0) }
    );
}

#[test]
fn proposal_without_claims_holds_none() {
    let proposal = Proposal::new(3, new_fields());
    assert_eq!(
        proposal,
        Proposal { id: 3, creator_id: None, created_at: None, payload: new_fields() }
    );
}

#[test]
fn store_down_on_fetch_is_store_unavailable() {
    let mut store = Store::holding(vec![artist_of_42()]);
    store.down_for_reads = true;
    let now = Instant::new(CREATED, 0);
    let outcome = edit(&mut store, Actor::staff(100), Proposal::new(1, new_fields()), now);
    assert_eq!(outcome, Err(EditError::StoreUnavailable));
    assert_eq!(store.persists, 0);
    assert_eq!(
        FetchReply::<ArtistFields>::Unavailable.into_record(),
        Err(EditError::StoreUnavailable)
    );
}

#[test]
fn store_down_on_write_is_store_unavailable() {
    let mut store = Store::holding(vec![artist_of_42()]);
    store.down_for_writes = true;
    let now = Instant::new(CREATED, 0);
    let outcome = edit(&mut store, Actor::staff(100), Proposal::new(1, new_fields()), now);
    assert_eq!(outcome, Err(EditError::StoreUnavailable));
    assert_eq!(store.persists, 1);
    assert_eq!(store.records[0], artist_of_42());
}

#[test]
fn caller_gets_the_record_as_the_store_reports_it() {
    let waiting =
        AwaitingRecord::begin(PolicyEngine::new(7), Actor::staff(100), Proposal::new(1, new_fields()));
    let approved = waiting
        .on_fetched(FetchReply::Found(artist_of_42()), Instant::new(CREATED, 0))
        .unwrap();
    let mut as_stored = approved.record().clone();
    as_stored.payload.name = "Beatles, The (normalised)".to_string();
    let outcome = approved.on_persisted(PersistReply::Stored(as_stored.clone()));
    assert_eq!(outcome, Ok(as_stored));
}

#[test]
fn found_reply_hands_out_the_stored_record() {
    assert_eq!(FetchReply::Found(artist_of_42()).into_record(), Ok(artist_of_42()));
}

#[test]
fn denial_becomes_the_failure_of_the_edit() {
    assert_eq!(
        EditError::from(DenyReason::InsufficientPrivileges),
        EditError::InsufficientPrivileges
    );
}

#[test]
fn edit_at_the_current_time_follows_the_clock() {
    let fresh = Record { created_at: Instant::now(), ..artist_of_42() };
    let owner_of_fresh =
        AwaitingRecord::begin(PolicyEngine::new(7), Actor::member(42), Proposal::new(1, new_fields()));
    let approved = owner_of_fresh.on_fetched_now(FetchReply::Found(fresh.clone())).unwrap();
    assert_eq!(approved.record().payload, new_fields());
    assert_eq!(approved.record().created_at, fresh.created_at);

    let owner_of_old =
        AwaitingRecord::begin(PolicyEngine::new(7), Actor::member(42), Proposal::new(1, new_fields()));
    let outcome = owner_of_old.on_fetched_now(FetchReply::Found(artist_of_42()));
    assert_eq!(outcome, Err(EditError::InsufficientPrivileges));

    let staff =
        AwaitingRecord::begin(PolicyEngine::new(7), Actor::staff(100), Proposal::new(1, new_fields()));
    assert!(staff.on_fetched_now(FetchReply::Found(artist_of_42())).is_ok());

    let stranger =
        AwaitingRecord::begin(PolicyEngine::new(7), Actor::member(7), Proposal::new(1, new_fields()));
    assert_eq!(
        stranger.on_fetched_now(FetchReply::Found(fresh)),
        Err(EditError::InsufficientPrivileges)
    );

    let nobody =
        AwaitingRecord::begin(PolicyEngine::new(7), Actor::staff(100), Proposal::new(9, new_fields()));
    assert_eq!(nobody.on_fetched_now(FetchReply::Missing), Err(EditError::NotFound));
    let down =
        AwaitingRecord::begin(PolicyEngine::new(7), Actor::staff(100), Proposal::new(9, new_fields()));
    assert_eq!(down.on_fetched_now(FetchReply::Unavailable), Err(EditError::StoreUnavailable));
}
