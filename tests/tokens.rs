use bastet::{decimal, token_from_draw, token_reply, Store, Status, Token, TokenError, WriteError};

#[test]
fn draw_becomes_non_negative_id() {
    assert_eq!(token_from_draw(0), 0);
    assert_eq!(token_from_draw(42), 42);
    assert_eq!(token_from_draw(-42), 42);
    assert_eq!(token_from_draw(i64::MAX), i64::MAX);
    assert_eq!(token_from_draw(i64::MIN + 1), i64::MAX);
    assert_eq!(token_from_draw(i64::MIN), i64::MAX);
}

#[test]
fn issue_token_records_and_refuses_collision() {
    let mut store = Store::new();
    let t = store.issue_token(-7, 1_700_000_000).unwrap();
    assert_eq!(t, Token { id: 7, issued_at: 1_700_000_000 });
    assert!(store.contains_token(7));
    assert_eq!(store.issue_token(7, 1_700_000_001), Err(TokenError::Collision));
    assert_eq!(store.tokens().len(), 1);
    assert_eq!(store.tokens()[0].issued_at, 1_700_000_000);
}

#[test]
fn random_tokens_are_non_negative_and_unpredictable() {
    let mut store = Store::new();
    let mut previous: Option<i64> = None;
    let mut previous_step: Option<i128> = None;
    let mut same_step = 0;
    for _ in 0..10_000 {
        let t = store.issue_random_token().unwrap();
        assert!(t.id >= 0);
        assert!(t.issued_at > 1_600_000_000);
        if let Some(p) = previous {
            let step = t.id as i128 - p as i128;
            assert!(step.abs() > 1_000);
            if previous_step == Some(step) {
                same_step += 1;
            }
            previous_step = Some(step);
        }
        previous = Some(t.id);
    }
    assert_eq!(same_step, 0);
    assert_eq!(store.tokens().len(), 10_000);
}

#[test]
fn token_reply_is_decimal_id() {
    let ok = token_reply(&Ok(Token { id: 1234567890, issued_at: 0 }));
    assert_eq!(ok.status, Status::Success);
    assert_eq!(ok.body, "1234567890");
    let zero = token_reply(&Ok(Token { id: 0, issued_at: 0 }));
    assert_eq!(zero.body, "0");
    let err = token_reply(&Err(TokenError::RandomSource));
    assert_eq!(err.status, Status::InternalError);
    assert_eq!(err.body, "Entropy source unavailable");
    let clash = token_reply(&Err(TokenError::Collision));
    assert_eq!(clash.status, Status::InternalError);
    assert_eq!(clash.body, "Failed to issue token");
}

#[test]
fn decimal_text() {
    assert_eq!(decimal(0), "0");
    assert_eq!(decimal(9), "9");
    assert_eq!(decimal(10), "10");
    assert_eq!(decimal(i64::MAX), "9223372036854775807");
}

#[test]
fn drawn_token_is_kept_only_when_written() {
    let mut store = Store::new();
    let t = store.draw_token().unwrap();
    assert!(t.id >= 0);
    assert!(!store.contains_token(t.id));
    assert_eq!(store.settle_token(t, Ok(0)), Err(WriteError::RowCount));
    assert!(!store.contains_token(t.id));
    assert_eq!(store.settle_token(t, Err(())), Err(WriteError::Storage));
    assert_eq!(store.tokens().len(), 0);
    assert_eq!(store.settle_token(t, Ok(1)), Ok(()));
    assert!(store.contains_token(t.id));
    assert_eq!(store.tokens(), &[t]);
}

#[test]
fn token_for_draw_is_the_draws_own() {
    let mut store = Store::new();
    assert_eq!(store.token_for_draw(None, 5), Err(TokenError::RandomSource));
    assert_eq!(store.token_for_draw(Some(-12), 5), Ok(Token { id: 12, issued_at: 5 }));
    assert_eq!(store.token_for_draw(Some(i64::MIN), 6), Ok(Token { id: i64::MAX, issued_at: 6 }));
    store.issue_token(12, 5).unwrap();
    assert_eq!(store.token_for_draw(Some(12), 7), Err(TokenError::Collision));
    assert_eq!(store.token_for_draw(Some(-12), 7), Err(TokenError::Collision));
    assert_eq!(store.token_for_draw(Some(13), 7), Ok(Token { id: 13, issued_at: 7 }));
    assert_eq!(store.tokens().len(), 1);
}
