use domain_verify::{
    create_record_request, create_verification, finish_verification, outcome_of_reply, verify,
    Cache, RecordCheck, VerificationOutcome,
};

fn ok_reply() -> Vec<u8> {
    candid::encode_one(Ok::<String, String>("canister-id".to_string())).unwrap()
}

fn err_reply() -> Vec<u8> {
    candid::encode_one(Err::<String, String>("already claimed".to_string())).unwrap()
}

fn run(store: &Cache, domain: &str, txt: Option<&str>, reply: Result<Vec<u8>, String>) -> VerificationOutcome {
    match verify(store, &domain.to_string(), txt.map(|t| t.to_string())) {
        RecordCheck::Rejected(o) => o,
        RecordCheck::Authorized => {
            let args = create_record_request(&domain.to_string()).unwrap();
            assert!(!args.is_empty());
            finish_verification(reply)
        }
    }
}

#[test]
fn issue_then_lookup_returns_token() {
    let mut store = Cache::new();
    let token = create_verification(&mut store, "example.com".to_string());
    assert_eq!(token.len(), 36);
    for (i, c) in token.chars().enumerate() {
        if [8, 13, 18, 23].contains(&i) {
            assert_eq!(c, '-');
        } else {
            assert!(c.is_ascii_digit() || ('a'..='f').contains(&c));
        }
    }
    assert_eq!(token.chars().nth(14), Some('4'));
    assert!(matches!(token.chars().nth(19), Some('8' | '9' | 'a' | 'b')));
    assert_eq!(store.get(&"example.com".to_string()), Some(token));
}

#[test]
fn reissue_invalidates_first_token() {
    let mut store = Cache::new();
    let first = create_verification(&mut store, "example.com".to_string());
    let second = create_verification(&mut store, "example.com".to_string());
    assert_ne!(first, second);
    let outcome = run(&store, "example.com", Some(&first), Ok(ok_reply()));
    assert_eq!(outcome, VerificationOutcome::Mismatch);
    let outcome = run(&store, "example.com", Some(&second), Ok(ok_reply()));
    assert_eq!(outcome, VerificationOutcome::Success);
}

#[test]
fn no_challenge_pending_whatever_the_record() {
    let store = Cache::new();
    for txt in ["anything", "", "T1"] {
        let outcome = run(&store, "nope.com", Some(txt), Ok(ok_reply()));
        assert_eq!(outcome, VerificationOutcome::NoChallengePending);
    }
}

#[test]
fn no_record_even_with_pending_challenge() {
    let mut store = Cache::new();
    create_verification(&mut store, "example.com".to_string());
    let outcome = run(&store, "example.com", None, Ok(ok_reply()));
    assert_eq!(outcome, VerificationOutcome::NoRecordFound);
}

#[test]
fn case_and_whitespace_differences_mismatch() {
    let mut store = Cache::new();
    store.set("example.com".to_string(), "Token-abc".to_string());
    for txt in ["token-abc", "TOKEN-ABC", " Token-abc", "Token-abc ", "Token-abc\n"] {
        let outcome = run(&store, "example.com", Some(txt), Ok(ok_reply()));
        assert_eq!(outcome, VerificationOutcome::Mismatch);
    }
    let outcome = run(&store, "example.com", Some("Token-abc"), Ok(ok_reply()));
    assert_eq!(outcome, VerificationOutcome::Success);
}

#[test]
fn scenario_success() {
    let mut store = Cache::new();
    let t1 = create_verification(&mut store, "example.com".to_string());
    let outcome = run(&store, "example.com", Some(&t1), Ok(ok_reply()));
    assert_eq!(outcome, VerificationOutcome::Success);
    assert_eq!(outcome.status_code(), 200);
    assert_eq!(outcome.body(), "");
}

#[test]
fn scenario_mismatch() {
    let mut store = Cache::new();
    create_verification(&mut store, "example.com".to_string());
    let outcome = run(&store, "example.com", Some("T2"), Ok(ok_reply()));
    assert_eq!(outcome, VerificationOutcome::Mismatch);
    assert_eq!(outcome.status_code(), 400);
    assert_eq!(outcome.body(), "Invalid TXT record");
}

#[test]
fn scenario_no_challenge() {
    let store = Cache::new();
    let outcome = run(&store, "nope.com", Some("whatever"), Ok(ok_reply()));
    assert_eq!(outcome, VerificationOutcome::NoChallengePending);
    assert_eq!(outcome.status_code(), 404);
}

#[test]
fn scenario_no_txt_record() {
    let mut store = Cache::new();
    create_verification(&mut store, "example.com".to_string());
    let outcome = run(&store, "example.com", None, Ok(ok_reply()));
    assert_eq!(outcome, VerificationOutcome::NoRecordFound);
    assert_eq!(outcome.status_code(), 417);
    assert_eq!(outcome.body(), "There's no TXT data in that domain");
}

#[test]
fn remote_rejection() {
    let mut store = Cache::new();
    let t = create_verification(&mut store, "example.com".to_string());
    let outcome = run(&store, "example.com", Some(&t), Ok(err_reply()));
    assert_eq!(outcome, VerificationOutcome::RemoteRejected("Error from the canister".to_string()));
    assert_eq!(outcome.status_code(), 500);
    assert_eq!(outcome.body(), "Error from the canister");
}

#[test]
fn remote_transport_failure() {
    let outcome = finish_verification(Err("connection refused".to_string()));
    assert_eq!(outcome, VerificationOutcome::RemoteCallFailed("connection refused".to_string()));
    assert_eq!(outcome.status_code(), 500);
    assert_eq!(outcome.body(), "connection refused");
}

#[test]
fn undecodable_reply_is_call_failure() {
    let outcome = finish_verification(Ok(vec![1, 2, 3]));
    assert!(matches!(outcome, VerificationOutcome::RemoteCallFailed(_)));
    assert_eq!(outcome.status_code(), 500);
}

#[test]
fn reply_outcomes() {
    assert_eq!(outcome_of_reply(Ok(true)), VerificationOutcome::Success);
    assert_eq!(
        outcome_of_reply(Ok(false)),
        VerificationOutcome::RemoteRejected("Error from the canister".to_string())
    );
    assert_eq!(
        outcome_of_reply(Err("bad".to_string())),
        VerificationOutcome::RemoteCallFailed("bad".to_string())
    );
}

#[test]
fn create_record_request_encodes_arguments() {
    let bytes = create_record_request(&"example.com".to_string()).unwrap();
    let (domain, owner, config): (String, String, Option<String>) =
        candid::decode_args(&bytes).unwrap();
    assert_eq!(domain, "example.com");
    assert_eq!(owner, "");
    assert_eq!(config, None);
    let expected =
        candid::encode_args(("example.com", "", None::<candid::Empty>)).unwrap();
    assert_eq!(bytes, expected);
}

#[test]
fn cache_set_get_remove() {
    let mut store = Cache::new();
    let a = "a.com".to_string();
    let b = "b.com".to_string();
    assert_eq!(store.get(&a), None);
    store.set(a.clone(), "1".to_string());
    store.set(b.clone(), "2".to_string());
    store.set(a.clone(), "3".to_string());
    assert_eq!(store.get(&a), Some("3".to_string()));
    assert_eq!(store.get(&b), Some("2".to_string()));
    store.remove(&a);
    assert_eq!(store.get(&a), None);
    assert_eq!(store.get(&b), Some("2".to_string()));
    store.remove(&a);
    assert_eq!(store.get(&b), Some("2".to_string()));
}
