use backend::session::{token_state, Session, TokenState, SESSION_WINDOW_SECONDS};

#[test]
fn the_window_is_fourteen_days() {
    assert_eq!(SESSION_WINDOW_SECONDS, 14 * 24 * 60 * 60);
    assert_eq!(SESSION_WINDOW_SECONDS, 1_209_600);
}

#[test]
fn issue_sets_every_field() {
    let session = Session::issue(7, 9, 1_000);
    assert_eq!(
        session,
        Session { user_id: 7, auth_token: 9, creation_time: 1_000, expiration_time: 1_210_600 }
    );
}

#[test]
fn issue_near_the_end_of_time_saturates() {
    let session = Session::issue(1, 2, i64::MAX - 5);
    assert_eq!(session.expiration_time, i64::MAX);
    let session = Session::issue(1, 2, i64::MAX - SESSION_WINDOW_SECONDS);
    assert_eq!(session.expiration_time, i64::MAX);
    let session = Session::issue(1, 2, i64::MAX - SESSION_WINDOW_SECONDS - 1);
    assert_eq!(session.expiration_time, i64::MAX - 1);
    let session = Session::issue(1, 2, i64::MIN);
    assert_eq!(session.expiration_time, i64::MIN + SESSION_WINDOW_SECONDS);
}

#[test]
fn a_session_expires_exactly_at_its_expiration_time() {
    let session = Session::issue(1, 2, 100);
    assert!(!session.is_expired(100));
    assert!(!session.is_expired(100 + SESSION_WINDOW_SECONDS - 1));
    assert!(session.is_expired(100 + SESSION_WINDOW_SECONDS));
    assert!(session.is_expired(i64::MAX));
    assert!(!session.is_expired(i64::MIN));
}

#[test]
fn token_state_tells_the_three_states_apart() {
    let session = Session::issue(1, 2, 100);
    assert_eq!(token_state(&None, 100), TokenState::Absent);
    assert_eq!(token_state(&Some(session), 100), TokenState::Valid);
    assert_eq!(token_state(&Some(session), 100 + SESSION_WINDOW_SECONDS), TokenState::Expired);
}
