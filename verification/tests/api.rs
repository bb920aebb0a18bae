use farmhand::api::{
    bearer_token, may_read_events, may_see_stream, may_shadow, second_word, Refusal, Status,
};

#[test]
fn statuses_have_their_codes() {
    assert_eq!(Status::Unauthorized.code(), 401);
    assert_eq!(Status::Forbidden.code(), 403);
    assert_eq!(Status::NotFound.code(), 404);
    assert_eq!(Status::InternalServerError.code(), 500);
}

#[test]
fn refusals_have_their_statuses_and_texts() {
    let all = [
        (Refusal::Unauthorized, Status::Unauthorized, "Unauthorized"),
        (Refusal::Forbidden, Status::Forbidden, "Forbidden"),
        (Refusal::NotOwner, Status::Forbidden, "You do not own this stream"),
        (Refusal::Unauthenticated, Status::Unauthorized, "Authentication required"),
        (
            Refusal::NotPermitted,
            Status::Unauthorized,
            "User does not have required permissions",
        ),
        (Refusal::UserNotFound, Status::NotFound, "User not found"),
        (Refusal::StreamNotFound, Status::NotFound, "Stream not found"),
        (Refusal::UserMissing, Status::InternalServerError, "User not found"),
        (Refusal::EventsFailed, Status::InternalServerError, "Failed to fetch events"),
        (Refusal::TokenFailed, Status::InternalServerError, "Failed to encode JWT"),
    ];
    for (refusal, status, text) in all {
        assert_eq!(refusal.status(), status);
        assert_eq!(refusal.text(), text);
    }
}

#[test]
fn only_the_user_reads_the_user_s_events() {
    let alice = "alice".to_string();
    let bob = "bob".to_string();
    assert_eq!(may_read_events(Some(&alice), &alice), Ok(()));
    assert_eq!(may_read_events(Some(&bob), &alice), Err(Refusal::Forbidden));
    assert_eq!(may_read_events(Some(&"Alice".to_string()), &alice), Err(Refusal::Forbidden));
    assert_eq!(may_read_events(None, &alice), Err(Refusal::Unauthorized));
}

#[test]
fn only_the_owner_sees_a_stream() {
    assert_eq!(may_see_stream(7, 7), Ok(()));
    assert_eq!(may_see_stream(7, 8), Err(Refusal::NotOwner));
    assert_eq!(may_see_stream(u128::MAX, 0), Err(Refusal::NotOwner));
}

#[test]
fn only_an_admin_acts_as_another_user() {
    assert_eq!(may_shadow(Some(true)), Ok(()));
    assert_eq!(may_shadow(Some(false)), Err(Refusal::NotPermitted));
    assert_eq!(may_shadow(None), Err(Refusal::Unauthenticated));
}

#[test]
fn bearer_token_is_the_second_word() {
    assert_eq!(bearer_token("Bearer abc.def.ghi"), Some("abc.def.ghi".to_string()));
    assert_eq!(bearer_token("  Bearer \t abc  trailing words"), Some("abc".to_string()));
    assert_eq!(bearer_token("Basic x"), Some("x".to_string()));
    assert_eq!(bearer_token("a\u{a0}b\u{3000}c"), Some("b".to_string()));
    assert_eq!(bearer_token("é ü"), Some("ü".to_string()));
}

#[test]
fn bearer_token_is_missing_without_a_second_word() {
    assert_eq!(bearer_token(""), None);
    assert_eq!(bearer_token("   "), None);
    assert_eq!(bearer_token("Bearer"), None);
    assert_eq!(bearer_token("  Bearer  "), None);
    assert_eq!(bearer_token("Bearer\u{200b}abc"), None);
}

#[test]
fn bearer_token_splits_as_the_standard_library_does() {
    let headers = ["Bearer abc", " a  b c", "one", "", "x\ny", "\u{2028}a\u{85}b\u{1680}"];
    for header in headers {
        assert_eq!(
            bearer_token(header),
            header.split_whitespace().nth(1).map(str::to_string)
        );
    }
}

#[test]
fn second_word_is_found_between_the_spaces() {
    let t = true;
    let f = false;
    assert_eq!(second_word(&vec![f, f, t, f, f, f]), Some((3, 6)));
    assert_eq!(second_word(&vec![t, f, t, t, f, t, f]), Some((4, 5)));
    assert_eq!(second_word(&vec![f, t, f]), Some((2, 3)));
    assert_eq!(second_word(&vec![f, f, f]), None);
    assert_eq!(second_word(&vec![t, t]), None);
    assert_eq!(second_word(&vec![t, f, f, t]), None);
    assert_eq!(second_word(&Vec::new()), None);
}
