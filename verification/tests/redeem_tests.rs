use file_sharer::bytes::ByteCount;
use file_sharer::config::UploadConfig;
use file_sharer::error::Error;
use file_sharer::redeem::{Action, Event, Phase, Redemption};
use file_sharer::timestamp::{Civil, Timestamp};

fn at(hour: u8) -> Timestamp {
    Timestamp::new(Civil {
        year: 2030,
        month: 6,
        day: 15,
        hour,
        minute: 0,
        second: 0,
        nanosecond: 0,
        offset_hours: 0,
        offset_minutes: 0,
        offset_seconds: 0,
    })
    .unwrap()
}

fn upload(quota: usize) -> UploadConfig {
    UploadConfig { name: String::from("papers"), expiry: at(12), space_quota: ByteCount(quota) }
}

fn loaded(quota: usize, hour: u8) -> Event {
    Event::Loaded { config: upload(quota), now: at(hour) }
}

fn stored_quota(action: Action) -> usize {
    match action {
        Action::Store(config) => config.space_quota.0,
        other => panic!("expected a store, got {other:?}"),
    }
}

/// Runs one redemption against a quota that nothing else touches, and
/// gives the quota in the end with the answer to the request.
fn redeem(quota: usize, declared: u64, written: usize, outcome: Result<(), Error>) -> (usize, Result<(), Error>) {
    let mut session = Redemption::new(declared);
    assert!(matches!(session.step(Event::Begin), Action::Load));
    let left = match session.step(loaded(quota, 11)) {
        Action::Store(config) => config.space_quota.0,
        Action::Release => {
            return match session.step(Event::Released) {
                Action::Finish(answer) => (quota, answer),
                other => panic!("expected the end, got {other:?}"),
            };
        }
        other => panic!("expected a store or a release, got {other:?}"),
    };
    assert!(matches!(session.step(Event::Stored), Action::Ingest));
    let ingested = Event::Ingested { written: ByteCount(written), outcome };
    assert!(matches!(session.step(ingested), Action::Load));
    let refund = loaded(left, 14);
    assert!(session.accepts(&refund));
    let last = stored_quota(session.step(refund));
    match session.step(Event::Stored) {
        Action::Finish(answer) => (last, answer),
        other => panic!("expected the end, got {other:?}"),
    }
}

#[test]
fn quota_shrinks_by_what_was_written() {
    let (quota, answer) = redeem(1000, 800, 800, Ok(()));
    assert_eq!((quota, answer), (200, Ok(())));
    let (quota, answer) = redeem(quota, 300, 0, Ok(()));
    assert_eq!((quota, answer), (200, Err(Error::OutOfSpace)));
}

#[test]
fn a_failed_stream_is_refunded() {
    let (quota, answer) = redeem(1000, 500, 200, Err(Error::IoFailure));
    assert_eq!(quota, 1000 - 500 + (500 - 200));
    assert_eq!(quota, 800);
    assert_eq!(answer, Err(Error::IoFailure));
}

#[test]
fn what_was_declared_and_not_written_comes_back() {
    assert_eq!(redeem(1000, 1000, 1, Ok(())), (999, Ok(())));
    assert_eq!(redeem(1000, 400, 0, Err(Error::IoFailure)), (1000, Err(Error::IoFailure)));
}

#[test]
fn writing_more_than_declared_costs_what_was_declared() {
    assert_eq!(redeem(1000, 100, 250, Ok(())), (900, Ok(())));
}

#[test]
fn an_expired_token_is_refused_without_a_write() {
    let mut session = Redemption::new(10);
    assert!(matches!(session.step(Event::Begin), Action::Load));
    assert!(matches!(session.step(loaded(1000, 13)), Action::Release));
    assert_eq!(session.phase, Phase::Releasing { outcome: Err(Error::Expired) });
    assert!(matches!(session.step(Event::Released), Action::Finish(Err(Error::Expired))));
    assert_eq!(session.phase, Phase::Finished { outcome: Err(Error::Expired) });
}

#[test]
fn expiry_is_judged_before_the_quota() {
    let mut session = Redemption::new(5000);
    session.step(Event::Begin);
    session.step(loaded(1000, 13));
    assert!(matches!(session.step(Event::Released), Action::Finish(Err(Error::Expired))));
}

#[test]
fn a_token_redeemed_at_its_expiry_is_taken() {
    let mut session = Redemption::new(10);
    session.step(Event::Begin);
    assert_eq!(stored_quota(session.step(loaded(1000, 12))), 990);
}

#[test]
fn a_missing_config_ends_the_redemption() {
    let mut session = Redemption::new(10);
    session.step(Event::Begin);
    assert!(matches!(session.step(Event::Failed(Error::NotFound)), Action::Release));
    assert!(matches!(session.step(Event::Released), Action::Finish(Err(Error::NotFound))));
}

#[test]
fn a_reservation_that_cannot_be_stored_streams_nothing() {
    let mut session = Redemption::new(10);
    session.step(Event::Begin);
    session.step(loaded(1000, 11));
    assert!(matches!(session.step(Event::Failed(Error::IoFailure)), Action::Finish(Err(Error::IoFailure))));
}

#[test]
fn a_refund_that_fails_is_the_answer() {
    let mut session = Redemption::new(10);
    session.step(Event::Begin);
    session.step(loaded(1000, 11));
    session.step(Event::Stored);
    session.step(Event::Ingested { written: ByteCount(10), outcome: Ok(()) });
    assert!(matches!(session.step(Event::Failed(Error::Malformed)), Action::Release));
    assert!(matches!(session.step(Event::Released), Action::Finish(Err(Error::Malformed))));
}

#[test]
fn the_refund_is_made_on_the_config_as_it_is_then() {
    let mut session = Redemption::new(500);
    session.step(Event::Begin);
    assert_eq!(stored_quota(session.step(loaded(1000, 11))), 500);
    session.step(Event::Stored);
    session.step(Event::Ingested { written: ByteCount(200), outcome: Ok(()) });
    // Another request has taken 100 bytes meanwhile.
    assert_eq!(stored_quota(session.step(loaded(400, 11))), 700);
}

#[test]
fn the_refund_is_made_after_the_expiry_too() {
    let mut session = Redemption::new(500);
    session.step(Event::Begin);
    session.step(loaded(1000, 11));
    session.step(Event::Stored);
    session.step(Event::Ingested { written: ByteCount(0), outcome: Err(Error::IoFailure) });
    assert_eq!(stored_quota(session.step(loaded(500, 23))), 1000);
    assert!(matches!(session.step(Event::Stored), Action::Finish(Err(Error::IoFailure))));
}

#[test]
fn an_event_out_of_turn_ends_the_redemption() {
    let mut session = Redemption::new(10);
    assert!(matches!(session.step(Event::Stored), Action::Finish(Err(Error::IoFailure))));
    let mut session = Redemption::new(10);
    session.step(Event::Begin);
    assert!(matches!(session.step(Event::Stored), Action::Release));
    assert!(matches!(session.step(Event::Stored), Action::Release));
    assert!(matches!(session.step(Event::Released), Action::Finish(Err(Error::IoFailure))));
    assert!(matches!(session.step(Event::Begin), Action::Finish(Err(Error::IoFailure))));
}

#[test]
fn accepts_sees_a_refund_that_leaves_the_word() {
    let mut session = Redemption::new(100);
    session.step(Event::Begin);
    session.step(loaded(1000, 11));
    session.step(Event::Stored);
    session.step(Event::Ingested { written: ByteCount(0), outcome: Ok(()) });
    assert!(!session.accepts(&loaded(usize::MAX, 11)));
    assert!(session.accepts(&loaded(usize::MAX - 100, 11)));
    assert!(session.accepts(&Event::Stored));
}
