use rusterm::pty::PtyManager;
use rusterm::session_id::{
    can_shorten, is_valid_session_id, session_id_or_new, short_id, SHORT_ID_LEN,
};

#[test]
fn fresh_ids_have_the_written_form() {
    for _ in 0..50 {
        let id = session_id_or_new(None);
        assert!(is_valid_session_id(&id), "{}", id);
        assert_eq!(id.len(), 36);
        assert_eq!(id, id.to_lowercase());
    }
}

#[test]
fn fresh_ids_differ() {
    let a = PtyManager::<()>::new_session_id();
    let b = PtyManager::<()>::new_session_id();
    assert!(is_valid_session_id(&a));
    assert!(is_valid_session_id(&b));
    assert_ne!(a, b);
}

#[test]
fn an_id_asked_for_is_kept() {
    assert_eq!(session_id_or_new(Some("mine".to_string())), "mine");
    assert_eq!(session_id_or_new(Some(String::new())), "");
}

#[test]
fn written_form_is_checked() {
    assert!(is_valid_session_id("123e4567-e89b-42d3-a456-426614174000"));
    assert!(is_valid_session_id("00000000-0000-0000-0000-000000000000"));
    assert!(!is_valid_session_id("123E4567-e89b-42d3-a456-426614174000"));
    assert!(!is_valid_session_id("123e4567e89b42d3a456426614174000"));
    assert!(!is_valid_session_id("123e4567-e89b-42d3-a456-42661417400"));
    assert!(!is_valid_session_id("123e4567-e89b-42d3-a456-4266141740000"));
    assert!(!is_valid_session_id("123e4567-e89b-42d3-a456_426614174000"));
    assert!(!is_valid_session_id("123e4567-e89b-42d3-a456-42661417400g"));
    assert!(!is_valid_session_id("-23e4567-e89b-42d3-a456-426614174000"));
    assert!(!is_valid_session_id(""));
}

#[test]
fn short_form_is_the_first_eight_bytes() {
    assert_eq!(SHORT_ID_LEN, 8);
    assert_eq!(short_id("123e4567-e89b-42d3-a456-426614174000"), "123e4567");
    assert_eq!(short_id("abcdefgh"), "abcdefgh");
    assert_eq!(short_id("ééééxyz"), "éééé");
}

#[test]
fn ids_that_cannot_be_cut() {
    assert!(can_shorten("123e4567-e89b"));
    assert!(can_shorten("abcdefgh"));
    assert!(can_shorten("ééééxyz"));
    assert!(!can_shorten("abcdefg"));
    assert!(!can_shorten(""));
    assert!(!can_shorten("abcdefgé"));
}
