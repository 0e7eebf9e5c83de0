use session_auth::account::{Account, AccountTable, Lang};
use session_auth::authorisation::Authorisation;
use session_auth::envelope::HandlerResponse;
use session_auth::routes::{run_login_request, run_session_request, LoginRequest};
use session_auth::store::{SessionStore, SESSION_TTL_SECONDS};
use session_auth::token::DBId;

fn secret() -> Vec<u8> {
    b"the process-wide session secret!".to_vec()
}

fn account(b: u8, name: &str, password: &str) -> Account {
    Account {
        id: DBId::from_bytes(vec![b; 16]).expect("16 bytes"),
        name: name.to_string(),
        pw_hash: bcrypt::hash(password, 4).expect("hashing succeeds"),
        preferred_language: Lang::En,
    }
}

fn table_with(accounts: Vec<Account>) -> AccountTable {
    let mut table = AccountTable::new();
    for a in accounts {
        table.add(a).expect("distinct accounts insert");
    }
    table
}

fn request(account: &str, pw: &str) -> LoginRequest {
    LoginRequest { account: Some(account.to_string()), pw: Some(pw.to_string()) }
}

#[test]
fn valid_login_issues_a_working_token() {
    let mw = Authorisation::new(secret()).new_transform();
    let accounts = table_with(vec![account(1, "alice", "correct horse")]);
    let mut store = SessionStore::new();
    let now = 1_700_000_000;

    let resp = run_login_request(&mw, &accounts, &mut store, &request("alice", "correct horse"), now);
    assert_eq!(resp.status, 200);
    assert_eq!(resp.body.error, "");
    assert!(resp.body.expires_at > now);
    assert_eq!(resp.body.expires_at, now + SESSION_TTL_SECONDS);
    let token = match resp.body.data {
        HandlerResponse::Login(l) => l.session_token,
        _ => panic!("a successful login carries the login payload"),
    };
    assert!(!token.is_empty());
    assert_eq!(store.len(), 1);

    // A subsequent request on a protected route with that token succeeds and
    // reports an expiry no earlier than the one issued at login.
    let header = format!("Bearer {}", token);
    let later = now + 60;
    let resp2 = run_session_request(&mw, &accounts, &mut store, Some(&header), later);
    assert_eq!(resp2.status, 200);
    assert_eq!(resp2.body.error, "");
    assert!(resp2.body.expires_at >= resp.body.expires_at);
    match resp2.body.data {
        HandlerResponse::Session(s) => {
            assert_eq!(s.name, "alice");
            assert_eq!(s.preferred_lang, Lang::En);
        },
        _ => panic!("the session route answers with the session payload"),
    }
}

#[test]
fn unknown_account_and_wrong_password_are_indistinguishable() {
    let mw = Authorisation::new(secret()).new_transform();
    let accounts = table_with(vec![account(1, "alice", "correct horse")]);
    let mut store = SessionStore::new();
    let now = 1_700_000_000;

    let unknown = run_login_request(&mw, &accounts, &mut store, &request("mallory", "correct horse"), now);
    let wrong_pw = run_login_request(&mw, &accounts, &mut store, &request("alice", "wrong password!"), now);

    assert_eq!(unknown.status, wrong_pw.status);
    assert_eq!(unknown.body.error, wrong_pw.body.error);
    assert_eq!(unknown.body.error, "Unauthorized");
    assert_eq!(unknown.body.expires_at, wrong_pw.body.expires_at);
    assert_eq!(unknown.body.expires_at, 0);
    assert!(matches!(unknown.body.data, HandlerResponse::Empty));
    assert!(matches!(wrong_pw.body.data, HandlerResponse::Empty));
    assert_eq!(store.len(), 0);
}

#[test]
fn twenty_one_grapheme_account_name_is_rejected_without_a_session() {
    let mw = Authorisation::new(secret()).new_transform();
    let accounts = table_with(vec![account(1, "alice", "correct horse")]);
    let mut store = SessionStore::new();
    let now = 1_700_000_000;

    let long_name = "a".repeat(21);
    assert_eq!(long_name.chars().count(), 21);
    let resp = run_login_request(&mw, &accounts, &mut store, &request(&long_name, "correct horse"), now);
    assert_eq!(resp.status, 200);
    assert_eq!(resp.body.error, "Unauthorized");
    assert!(matches!(resp.body.data, HandlerResponse::Empty));
    assert_eq!(store.len(), 0, "no session row may be inserted");
}

#[test]
fn twenty_grapheme_account_name_is_accepted() {
    let name = "b".repeat(20);
    let mw = Authorisation::new(secret()).new_transform();
    let accounts = table_with(vec![account(2, &name, "correct horse")]);
    let mut store = SessionStore::new();
    let resp = run_login_request(&mw, &accounts, &mut store, &request(&name, "correct horse"), 500);
    assert_eq!(resp.body.error, "");
    assert_eq!(store.len(), 1);
}

#[test]
fn missing_fields_and_short_password_are_unauthorized() {
    let mw = Authorisation::new(secret()).new_transform();
    let accounts = table_with(vec![account(1, "alice", "correct horse")]);
    let mut store = SessionStore::new();
    let now = 100;

    let cases = vec![
        LoginRequest { account: None, pw: Some("correct horse".to_string()) },
        LoginRequest { account: Some("alice".to_string()), pw: None },
        LoginRequest { account: Some("   ".to_string()), pw: Some("correct horse".to_string()) },
        LoginRequest { account: Some("alice".to_string()), pw: Some("short".to_string()) },
        LoginRequest { account: Some("alice".to_string()), pw: Some("x".repeat(49)) },
        LoginRequest { account: Some("al/ice".to_string()), pw: Some("correct horse".to_string()) },
    ];
    for req in cases {
        let resp = run_login_request(&mw, &accounts, &mut store, &req, now);
        assert_eq!(resp.status, 200);
        assert_eq!(resp.body.error, "Unauthorized");
        assert!(matches!(resp.body.data, HandlerResponse::Empty));
    }
    assert_eq!(store.len(), 0);
}

#[test]
fn login_sweeps_expired_rows_even_on_the_bypass_path() {
    let mw = Authorisation::new(secret()).new_transform();
    let accounts = table_with(vec![account(1, "alice", "correct horse")]);
    let mut store = SessionStore::new();
    store
        .create(&DBId::from_bytes(vec![1; 16]).unwrap(), session_auth::token::SessionId::from_bytes(vec![9; 16]).unwrap(), 0)
        .expect("inserts");
    let much_later = 1_700_000_000;
    let resp = run_login_request(&mw, &accounts, &mut store, &request("alice", "correct horse"), much_later);
    assert_eq!(resp.body.error, "");
    // The stale row is gone; only the session just minted remains.
    assert_eq!(store.len(), 1);
}
