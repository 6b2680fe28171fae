use token_store::error::StoreError;
use token_store::genid::generate_token;
use token_store::genid::u64_hex_string;
use token_store::token::Namespace;
use token_store::token::Token;
use token_store::token::TokenStore;

#[test]
fn namespace_codes_are_stable() {
    assert_eq!(Namespace::Unknown.to_code(), 0);
    assert_eq!(Namespace::Auth.to_code(), 110);
    assert_eq!(Namespace::InviteNumber.to_code(), 100);
}

#[test]
fn namespace_codes_round_trip() {
    assert_eq!(Namespace::from_code(0), Some(Namespace::Unknown));
    assert_eq!(Namespace::from_code(110), Some(Namespace::Auth));
    assert_eq!(Namespace::from_code(100), Some(Namespace::InviteNumber));
    for ns in [Namespace::Unknown, Namespace::Auth, Namespace::InviteNumber] {
        assert_eq!(Namespace::from_code(ns.to_code()), Some(ns));
    }
}

#[test]
fn namespace_unknown_codes_are_rejected() {
    assert_eq!(Namespace::from_code(1), None);
    assert_eq!(Namespace::from_code(-1), None);
    assert_eq!(Namespace::from_code(99), None);
    assert_eq!(Namespace::from_code(111), None);
}

#[test]
fn namespace_default_is_unknown() {
    assert_eq!(Namespace::default(), Namespace::Unknown);
}

#[test]
fn hex_rendering_exact_values() {
    assert_eq!(u64_hex_string(0), "0000000000000000");
    assert_eq!(u64_hex_string(1), "0000000000000001");
    assert_eq!(u64_hex_string(0xdeadbeef01234567), "deadbeef01234567");
    assert_eq!(u64_hex_string(u64::MAX), "ffffffffffffffff");
}

#[test]
fn generated_token_matches_format() {
    let t = generate_token();
    assert_eq!(t.len(), 32);
    for c in t.chars() {
        assert!(('0'..='9').contains(&c) || ('a'..='f').contains(&c));
    }
}

#[test]
fn save_returns_nonempty_token_even_without_connection() {
    let mut st = TokenStore::new();
    let t = st.save(Namespace::Auth, 5);
    assert_eq!(t.len(), 32);
    // the write was best effort and the store had no connection: after opening,
    // nothing is on file for the pair
    st.open().unwrap();
    assert_eq!(st.lookup(Namespace::Auth, 5).unwrap(), None);
}

#[test]
fn scenario_auth_tokens() {
    let mut st = TokenStore::new();
    st.open().unwrap();
    let tok = st.save(Namespace::Auth, 42);
    assert!(!tok.is_empty());
    assert_eq!(st.lookup(Namespace::Auth, 42).unwrap(), Some(tok.clone()));
    assert!(st.token_exists(Namespace::Auth, &tok));
    assert!(!st.token_exists(Namespace::Auth, "nope"));
    assert_eq!(st.lookup(Namespace::Auth, 99).unwrap(), None);
}

#[test]
fn lookup_none_when_no_exact_pair() {
    let mut st = TokenStore::new();
    st.open().unwrap();
    assert_eq!(st.lookup(Namespace::InviteNumber, 1).unwrap(), None);
    let _ = st.save(Namespace::InviteNumber, 2);
    assert_eq!(st.lookup(Namespace::InviteNumber, 1).unwrap(), None);
    assert_eq!(st.lookup(Namespace::Auth, 2).unwrap(), None);
}

#[test]
fn save_then_lookup_returns_saved_token() {
    let mut st = TokenStore::new();
    st.open().unwrap();
    let tok = st.save(Namespace::InviteNumber, 17);
    assert_eq!(st.lookup(Namespace::InviteNumber, 17).unwrap(), Some(tok));
}

#[test]
fn foreign_id_zero_is_a_valid_owner() {
    let mut st = TokenStore::new();
    st.open().unwrap();
    let tok = st.save(Namespace::Unknown, 0);
    assert_eq!(st.lookup(Namespace::Unknown, 0).unwrap(), Some(tok));
}

#[test]
fn lookup_or_new_is_idempotent_sequentially() {
    let mut st = TokenStore::new();
    st.open().unwrap();
    let t1 = st.lookup_or_new(Namespace::Auth, 7);
    let t2 = st.lookup_or_new(Namespace::Auth, 7);
    assert_eq!(t1, t2);
}

#[test]
fn lookup_or_new_returns_existing_token() {
    let mut st = TokenStore::new();
    st.open().unwrap();
    let saved = st.save(Namespace::Auth, 11);
    let found = st.lookup_or_new(Namespace::Auth, 11);
    assert_eq!(found, saved);
}

#[test]
fn lookup_or_new_swallows_lookup_failure() {
    let mut st = TokenStore::new();
    let t = st.lookup_or_new(Namespace::Auth, 3);
    assert_eq!(t.len(), 32);
}

#[test]
fn exists_is_false_without_a_row_or_without_a_connection() {
    let mut st = TokenStore::new();
    assert!(!st.token_exists(Namespace::Auth, "anything"));
    st.open().unwrap();
    let tok = st.save(Namespace::Auth, 1);
    assert!(st.token_exists(Namespace::Auth, &tok));
    assert!(!st.token_exists(Namespace::InviteNumber, &tok));
    st.close();
    assert!(!st.token_exists(Namespace::Auth, &tok));
}

#[test]
fn most_recent_matching_row_wins() {
    let mut st = TokenStore::new();
    st.open().unwrap();
    let t1 = st.save(Namespace::Auth, 9);
    let t2 = st.save(Namespace::Auth, 9);
    assert_eq!(st.lookup(Namespace::Auth, 9).unwrap(), Some(t2.clone()));
    assert!(st.token_exists(Namespace::Auth, &t1));
    assert!(st.token_exists(Namespace::Auth, &t2));
}

#[test]
fn lookup_surfaces_missing_connection() {
    let st = TokenStore::new();
    assert!(matches!(
        st.lookup(Namespace::Auth, 1),
        Err(StoreError::SqlNoConnection)
    ));
}

#[test]
fn insert_reports_missing_connection() {
    let mut st = TokenStore::new();
    let row = Token {
        namespace: Namespace::Auth,
        foreign_id: 1,
        token: String::from("t"),
        timestamp: 0,
    };
    assert!(matches!(st.insert(row), Err(StoreError::SqlNoConnection)));
}

#[test]
fn open_twice_reports_already_open() {
    let mut st = TokenStore::new();
    st.open().unwrap();
    assert!(matches!(st.open(), Err(StoreError::SqlAlreadyOpen)));
}

#[test]
fn error_from_engine_failure() {
    let e = StoreError::from(rusqlite::Error::QueryReturnedNoRows);
    assert!(matches!(e, StoreError::Sql(_)));
}

#[test]
fn error_from_driver_failure() {
    let e = StoreError::from(sqlx::Error::RowNotFound);
    assert!(matches!(e, StoreError::Sqlx(_)));
}

#[test]
fn error_from_io_failure() {
    let e = StoreError::from(std::io::Error::other("disk gone"));
    assert!(matches!(e, StoreError::Io(_)));
}

#[test]
fn error_from_upstream_message() {
    let e = StoreError::from(String::from("upstream failure"));
    assert!(matches!(e, StoreError::Other(m) if m == "upstream failure"));
}
