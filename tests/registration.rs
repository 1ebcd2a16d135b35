use bastet::{
    check_invite, check_key, check_url, register_reply, RegisterError, Register, Status, Store,
    WriteError,
};

fn request(invite: &str, key: &str, url: &str) -> Register {
    Register { key: key.to_string(), invite: invite.to_string(), url: url.to_string() }
}

#[test]
fn invite_registers_once() {
    let mut store = Store::new();
    let reg = request("Invite", "1234567890", "https://example.com");
    assert_eq!(store.register(&reg), Ok(()));
    assert_eq!(store.users().len(), 1);
    assert_eq!(store.users()[0].public_key, "1234567890");
    let again = request("Invite", "other key", "https://example.org");
    assert_eq!(store.register(&again), Err(RegisterError::InvalidInvite));
    assert_eq!(store.users().len(), 1);
}

#[test]
fn repeated_requests_with_one_invite_admit_one() {
    let mut store = Store::new();
    let reg = request("Invite", "1234567890", "https://example.com");
    let mut accepted = 0;
    for _ in 0..16 {
        if store.register(&reg).is_ok() {
            accepted += 1;
        }
    }
    assert_eq!(accepted, 1);
    assert_eq!(store.users().len(), 1);
}

#[test]
fn malformed_url_is_bad_request() {
    let mut store = Store::new();
    let reg = request("Invite", "1234567890", "not a url");
    let r = store.register(&reg);
    assert_eq!(r, Err(RegisterError::InvalidUrl));
    let reply = register_reply(&r);
    assert_eq!(reply.status, Status::BadRequest);
    assert_eq!(reply.body, "Invalid Url");
    assert_eq!(store.users().len(), 0);
    // The invite was not consumed by the refused attempt.
    let fixed = request("Invite", "1234567890", "https://example.com");
    assert_eq!(store.register(&fixed), Ok(()));
}

#[test]
fn wrong_invite_decides_before_url() {
    let mut store = Store::new();
    let r = store.register(&request("Wrong", "1234567890", "not a url"));
    assert_eq!(r, Err(RegisterError::InvalidInvite));
    let reply = register_reply(&r);
    assert_eq!(reply.status, Status::Forbidden);
    assert_eq!(reply.body, "Invalid Invite Code");
    assert_eq!(store.users().len(), 0);
}

#[test]
fn register_with_given_url_verdict() {
    let mut store = Store::new();
    let reg = request("Invite", "k", "anything");
    assert_eq!(store.register_with(&reg, false, 5), Err(RegisterError::InvalidUrl));
    assert_eq!(store.users().len(), 0);
    assert_eq!(store.register_with(&reg, true, 5), Ok(()));
    assert_eq!(store.users()[0].created_at, 5);
    assert_eq!(store.register_with(&reg, true, 6), Err(RegisterError::InvalidInvite));
    assert!(!store.invite_available(&"Invite".to_string()));
}

#[test]
fn consumed_invite_is_not_available() {
    let mut store = Store::new();
    assert!(store.invite_available(&"Invite".to_string()));
    store.mark_invite_consumed("Invite".to_string());
    assert!(!store.invite_available(&"Invite".to_string()));
    let r = store.register(&request("Invite", "k", "https://example.com"));
    assert_eq!(r, Err(RegisterError::InvalidInvite));
}

#[test]
fn gate_checks() {
    assert!(check_invite(&"Invite".to_string()));
    assert!(!check_invite(&"invite".to_string()));
    assert!(!check_invite(&String::new()));
    assert!(check_key(&"1234567890".to_string()));
    assert!(check_url(&"https://example.com".to_string()));
    assert!(check_url(&"http://10.0.0.2:8080/hub?x=1".to_string()));
    assert!(!check_url(&"not a url".to_string()));
    assert!(!check_url(&"/relative/path".to_string()));
    assert!(!check_url(&String::new()));
    // A redirect target needs a scheme with a host and a known port.
    assert!(!check_url(&"mailto:hub@example.com".to_string()));
    assert!(!check_url(&"foo://example.com".to_string()));
}

#[test]
fn register_replies() {
    let ok = register_reply(&Ok(()));
    assert_eq!(ok.status, Status::Success);
    assert_eq!(ok.body, "Created user");
    let key = register_reply(&Err(RegisterError::InvalidKey));
    assert_eq!(key.status, Status::Forbidden);
    assert_eq!(key.body, "Invalid Key");
}

#[test]
fn prepared_registration_is_kept_only_when_one_row_written() {
    let mut store = Store::new();
    let reg = request("Invite", "1234567890", "https://example.com");
    let user = store.prepare_registration(&reg).unwrap();
    assert_eq!(user.public_key, "1234567890");
    assert_eq!(store.settle_registration(&reg, &user, Ok(0)), Err(WriteError::RowCount));
    assert_eq!(store.settle_registration(&reg, &user, Ok(2)), Err(WriteError::RowCount));
    assert_eq!(store.settle_registration(&reg, &user, Err(())), Err(WriteError::Storage));
    assert_eq!(store.users().len(), 0);
    assert!(store.invite_available(&"Invite".to_string()));
    assert_eq!(store.settle_registration(&reg, &user, Ok(1)), Ok(()));
    assert_eq!(store.users().len(), 1);
    assert_eq!(store.users()[0].created_at, user.created_at);
    assert!(!store.invite_available(&"Invite".to_string()));
    assert_eq!(store.prepare_registration(&reg).err(), Some(RegisterError::InvalidInvite));
}

#[test]
fn prepare_registration_checks_in_order() {
    let store = Store::new();
    let bad_invite = store.prepare_registration(&request("Wrong", "k", "not a url"));
    assert_eq!(bad_invite.err(), Some(RegisterError::InvalidInvite));
    let bad_url = store.prepare_registration(&request("Invite", "k", "not a url"));
    assert_eq!(bad_url.err(), Some(RegisterError::InvalidUrl));
}
