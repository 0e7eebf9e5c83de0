use session_auth::api_error::ApiErrorType;
use session_auth::store::{SessionStore, SESSION_TTL_SECONDS, SWEEP_GRACE_SECONDS};
use session_auth::token::{DBId, SessionId};

fn sid(b: u8) -> SessionId {
    SessionId::from_bytes(vec![b; 16]).expect("16 bytes")
}

fn aid(b: u8) -> DBId {
    DBId::from_bytes(vec![b; 16]).expect("16 bytes")
}

#[test]
fn create_sets_ttl_expiry_and_fetch_finds_it() {
    let mut store = SessionStore::new();
    let now = 1_000_000;
    let exp = store.create(&aid(9), sid(1), now).expect("fresh id inserts");
    assert_eq!(exp, now + SESSION_TTL_SECONDS);
    let row = store.fetch(&sid(1)).expect("the row is there");
    assert_eq!(row.expires_at, now + SESSION_TTL_SECONDS);
    assert_eq!(row.account_id.as_bytes().as_slice(), &[9u8; 16]);
    assert!(store.fetch(&sid(2)).is_none());
}

#[test]
fn create_collision_is_db_error_and_changes_nothing() {
    let mut store = SessionStore::new();
    let now = 50;
    store.create(&aid(1), sid(7), now).expect("first insert");
    match store.create(&aid(2), sid(7), now + 10) {
        Err(e) => assert!(matches!(e, ApiErrorType::DbError)),
        Ok(_) => panic!("a duplicate identifier must be refused"),
    }
    assert_eq!(store.len(), 1);
    let row = store.fetch(&sid(7)).expect("still there");
    assert_eq!(row.account_id.as_bytes().as_slice(), &[1u8; 16]);
    assert_eq!(row.expires_at, now + SESSION_TTL_SECONDS);
}

#[test]
fn refresh_extends_expiry_by_exactly_the_ttl() {
    let mut store = SessionStore::new();
    let created_at = 10_000;
    store.create(&aid(4), sid(3), created_at).expect("inserts");
    let before = store.fetch(&sid(3)).expect("there").expires_at;
    let later = created_at + 600;
    let row = store.refresh(&sid(3), later).expect("the row exists");
    assert_eq!(row.expires_at, later + SESSION_TTL_SECONDS);
    assert!(row.expires_at > before);
    assert_eq!(row.expires_at - later, SESSION_TTL_SECONDS);
    assert_eq!(row.account_id.as_bytes().as_slice(), &[4u8; 16]);
    let fetched = store.fetch(&sid(3)).expect("still there");
    assert_eq!(fetched.expires_at, later + SESSION_TTL_SECONDS);
}

#[test]
fn refresh_of_a_vanished_row_is_db_error() {
    let mut store = SessionStore::new();
    match store.refresh(&sid(5), 123) {
        Err(e) => assert!(matches!(e, ApiErrorType::DbError)),
        Ok(_) => panic!("refreshing a missing row must fail hard"),
    }
}

#[test]
fn sweep_removes_exactly_the_old_rows() {
    let mut store = SessionStore::new();
    // Sessions created at different instants; at sweep time a row is purged
    // only once its expiry lies more than the grace window in the past.
    let now = 100_000;
    let threshold = now - SWEEP_GRACE_SECONDS;
    // expires_at == created + TTL, so choose creation times around the line.
    let stale_creation = threshold - SESSION_TTL_SECONDS - 1; // expiry just below
    let exact_creation = threshold - SESSION_TTL_SECONDS; // expiry exactly at the line
    let in_grace_creation = now - SESSION_TTL_SECONDS - 600; // expired, within grace
    let live_creation = now; // expiry far above
    store.create(&aid(1), sid(1), stale_creation).expect("inserts");
    store.create(&aid(2), sid(2), exact_creation).expect("inserts");
    store.create(&aid(3), sid(3), live_creation).expect("inserts");
    store.create(&aid(4), sid(4), stale_creation).expect("inserts");
    store.create(&aid(5), sid(5), in_grace_creation).expect("inserts");
    assert_eq!(store.len(), 5);

    store.sweep(now);

    assert_eq!(store.len(), 3);
    assert!(store.fetch(&sid(1)).is_none());
    assert!(store.fetch(&sid(4)).is_none());
    let kept_exact = store.fetch(&sid(2)).expect("a row exactly at the line survives");
    assert_eq!(kept_exact.expires_at, threshold);
    assert_eq!(kept_exact.account_id.as_bytes().as_slice(), &[2u8; 16]);
    let kept_in_grace = store.fetch(&sid(5)).expect("a row expired within the grace survives");
    assert_eq!(kept_in_grace.expires_at, now - 600);
    let kept_live = store.fetch(&sid(3)).expect("a live row survives untouched");
    assert_eq!(kept_live.expires_at, live_creation + SESSION_TTL_SECONDS);
}

#[test]
fn sweep_never_touches_live_rows() {
    // A live session, even one expiring this very second, must survive: the
    // purge line lies a full grace window in the past.
    let mut store = SessionStore::new();
    let now = 500_000;
    store.create(&aid(1), sid(1), now - SESSION_TTL_SECONDS).expect("inserts");
    store.create(&aid(2), sid(2), now - SESSION_TTL_SECONDS + 100).expect("inserts");
    store.sweep(now);
    assert_eq!(store.len(), 2);
    assert_eq!(store.fetch(&sid(1)).expect("expiring right now").expires_at, now);
    assert_eq!(store.fetch(&sid(2)).expect("expiring shortly").expires_at, now + 100);
}

#[test]
fn sweep_of_only_live_rows_changes_nothing() {
    let mut store = SessionStore::new();
    let now = 777;
    store.create(&aid(1), sid(1), now).expect("inserts");
    store.create(&aid(2), sid(2), now).expect("inserts");
    store.sweep(now);
    assert_eq!(store.len(), 2);
}

#[test]
fn sweep_of_only_stale_rows_empties_the_table() {
    let mut store = SessionStore::new();
    let now = 1_000_000;
    store.create(&aid(1), sid(1), 0).expect("inserts");
    store.create(&aid(2), sid(2), 1).expect("inserts");
    store.sweep(now);
    assert_eq!(store.len(), 0);
}
