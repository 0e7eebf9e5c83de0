use session_auth::account::{Account, AccountTable, Lang};
use session_auth::api_error::ApiErrorType;
use session_auth::authorisation::{extract_bearer_token, route_is_login, Authorisation,
    HandlerOutcome};
use session_auth::envelope::HandlerResponse;
use session_auth::routes::{not_found_handler, run_login_request, run_session_request,
    session_handler, set_user_language_handler, LoginRequest, NewLangData, SessionRequest};
use session_auth::store::SessionStore;
use session_auth::token::DBId;

fn secret() -> Vec<u8> {
    b"the process-wide session secret!".to_vec()
}

fn table_with_alice() -> AccountTable {
    let mut table = AccountTable::new();
    table
        .add(Account {
            id: DBId::from_bytes(vec![1; 16]).expect("16 bytes"),
            name: "alice".to_string(),
            pw_hash: bcrypt::hash("correct horse", 4).expect("hashes"),
            preferred_language: Lang::De,
        })
        .expect("inserts");
    table
}

fn login_token(
    mw: &session_auth::authorisation::AuthorisationMiddleware,
    accounts: &AccountTable,
    store: &mut SessionStore,
    now: i64,
) -> String {
    let req = LoginRequest {
        account: Some("alice".to_string()),
        pw: Some("correct horse".to_string()),
    };
    let resp = run_login_request(mw, accounts, store, &req, now);
    match resp.body.data {
        HandlerResponse::Login(l) => l.session_token,
        _ => panic!("login succeeds"),
    }
}

#[test]
fn missing_authorization_header_renders_unauthorized_at_200() {
    let mw = Authorisation::new(secret()).new_transform();
    let accounts = table_with_alice();
    let mut store = SessionStore::new();
    let resp = run_session_request(&mw, &accounts, &mut store, None, 1_700_000_000);
    assert_eq!(resp.status, 200);
    assert_eq!(resp.body.error, "Unauthorized");
    assert_eq!(resp.body.expires_at, 0);
    assert!(matches!(resp.body.data, HandlerResponse::Empty));
    assert_eq!(store.len(), 0);
}

#[test]
fn header_without_bearer_token_is_unauthorized() {
    let mw = Authorisation::new(secret()).new_transform();
    let accounts = table_with_alice();
    let mut store = SessionStore::new();
    for bad in ["", "Basic abc", "Bearer", "Bearer ", "bearer abc"] {
        let header = bad.to_string();
        let resp = run_session_request(&mw, &accounts, &mut store, Some(&header), 100);
        assert_eq!(resp.status, 200);
        assert_eq!(resp.body.error, "Unauthorized");
        assert!(matches!(resp.body.data, HandlerResponse::Empty));
    }
}

#[test]
fn expired_session_is_rejected_as_expired_not_unauthorized() {
    let mw = Authorisation::new(secret()).new_transform();
    let accounts = table_with_alice();
    let mut store = SessionStore::new();
    let issued_at = 1_700_000_000;
    let token = login_token(&mw, &accounts, &mut store, issued_at);
    let header = format!("Bearer {}", token);
    // Past the TTL: the session has expired, and its row is still present
    // (the sweep purges a row only once its expiry lies more than the grace
    // window in the past, and an early error skips the sweep anyway).
    let much_later = issued_at + 3600 + 60;
    let resp = run_session_request(&mw, &accounts, &mut store, Some(&header), much_later);
    assert_eq!(resp.status, 200);
    assert_eq!(resp.body.error, "Expired");
    assert_ne!(resp.body.error, "Unauthorized");
    assert!(matches!(resp.body.data, HandlerResponse::Empty));
}

#[test]
fn live_session_refreshes_and_reports_the_new_expiry() {
    let mw = Authorisation::new(secret()).new_transform();
    let accounts = table_with_alice();
    let mut store = SessionStore::new();
    let issued_at = 1_700_000_000;
    let token = login_token(&mw, &accounts, &mut store, issued_at);
    let header = format!("Bearer {}", token);
    let later = issued_at + 1800;
    let resp = run_session_request(&mw, &accounts, &mut store, Some(&header), later);
    assert_eq!(resp.body.error, "");
    assert_eq!(resp.body.expires_at, later + 3600);
    // The same token keeps working after the refresh.
    let resp2 = run_session_request(&mw, &accounts, &mut store, Some(&header), later + 10);
    assert_eq!(resp2.body.error, "");
}

#[test]
fn bearer_extraction_follows_the_pattern() {
    assert_eq!(extract_bearer_token("Bearer abc").as_deref(), Some("abc"));
    assert_eq!(extract_bearer_token("xxBearer abc").as_deref(), Some("abc"));
    assert_eq!(
        extract_bearer_token("Bearer first\nBearer second").as_deref(),
        Some("first")
    );
    assert_eq!(extract_bearer_token("Bearer a b c").as_deref(), Some("a b c"));
    assert_eq!(extract_bearer_token("Bearer \nBearer x").as_deref(), Some("x"));
    assert_eq!(extract_bearer_token("Bearer"), None);
    assert_eq!(extract_bearer_token("Bearer "), None);
    assert_eq!(extract_bearer_token("Bearer \n"), None);
    assert_eq!(extract_bearer_token("token xyz"), None);
    assert_eq!(extract_bearer_token(""), None);
}

#[test]
fn the_login_route_is_picked_by_its_last_segment() {
    assert!(route_is_login("/api/login"));
    assert!(route_is_login("login"));
    assert!(route_is_login("/deeply/nested/login"));
    assert!(!route_is_login("/api/session"));
    assert!(!route_is_login("/api/login/"));
    assert!(!route_is_login("/api/loginx"));
    assert!(!route_is_login(""));
}

#[test]
fn language_update_accepts_de_and_en_case_insensitively() {
    for (text, expected) in [
        ("de", Lang::De),
        ("DE", Lang::De),
        ("De", Lang::De),
        ("en", Lang::En),
        ("EN", Lang::En),
    ] {
        let req = SessionRequest { preferred_lang: text.to_string() };
        let parsed = NewLangData::parse(&req).expect("a known option parses");
        assert_eq!(parsed.into_inner(), expected);
    }
}

#[test]
fn language_update_rejects_unknown_options() {
    for text in ["fr", "", "german", "d e", "en "] {
        let req = SessionRequest { preferred_lang: text.to_string() };
        let err = NewLangData::parse(&req).expect_err("an unknown option is refused");
        assert_eq!(err.message().as_str(), "Unknown or missing option");
    }
}

#[test]
fn language_update_handler_updates_the_account() {
    let mut accounts = table_with_alice();
    let alice = DBId::from_bytes(vec![1; 16]).expect("16 bytes");
    let req = SessionRequest { preferred_lang: "EN".to_string() };
    match set_user_language_handler(&mut accounts, &req, &alice) {
        HandlerOutcome::Done(HandlerResponse::Session(s)) => {
            assert_eq!(s.name, "alice");
            assert_eq!(s.preferred_lang, Lang::En);
        },
        _ => panic!("the update succeeds for an existing account"),
    }
    let row = accounts.get(&alice).expect("alice is there");
    assert_eq!(row.preferred_language, Lang::En);
}

#[test]
fn language_update_handler_reports_bad_request_and_db_error() {
    let mut accounts = table_with_alice();
    let alice = DBId::from_bytes(vec![1; 16]).expect("16 bytes");
    let bad = SessionRequest { preferred_lang: "fr".to_string() };
    assert!(matches!(
        set_user_language_handler(&mut accounts, &bad, &alice),
        HandlerOutcome::Failed(ApiErrorType::BadRequest)
    ));
    let nobody = DBId::from_bytes(vec![9; 16]).expect("16 bytes");
    let ok = SessionRequest { preferred_lang: "de".to_string() };
    assert!(matches!(
        set_user_language_handler(&mut accounts, &ok, &nobody),
        HandlerOutcome::Failed(ApiErrorType::DbError)
    ));
}

#[test]
fn session_handler_reports_db_error_for_a_vanished_account() {
    let accounts = table_with_alice();
    let nobody = DBId::from_bytes(vec![8; 16]).expect("16 bytes");
    assert!(matches!(
        session_handler(&accounts, &nobody),
        HandlerOutcome::Failed(ApiErrorType::DbError)
    ));
}

#[test]
fn unknown_routes_fall_through_to_not_found() {
    match not_found_handler() {
        HandlerOutcome::Failed(e) => {
            assert!(matches!(e, ApiErrorType::NotFoundError));
            assert_eq!(e.label(), "Not found requested API endpoint");
        },
        _ => panic!("the fallback always fails"),
    }
}
