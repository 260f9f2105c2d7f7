use backend::answer::{Answer, AnswerContent, MultipleChoiceAnswer, OpenQuestionAnswer, VerifyStep};
use backend::server::answer::AnswerForm;
use backend::server::user::{LoginForm, RegisterForm, UserInfo};
use backend::server::{
    check_authorization, check_authorization_at, read_credential, validate_token,
    validate_token_at, Grant, Pass, Rejection,
};
use backend::session::Session;
use backend::statement::Statement;
use backend::user::{
    AuthorizationError, ReadError, StorageFailure, User, UserError, UserLevel, UserProgress,
};

fn text(value: &str) -> String {
    value.to_string()
}

fn sample(id: u128) -> User {
    User {
        id,
        password_hash: text("aaaaa"),
        username: text("test"),
        email: Some(text("test@test.com")),
        phone: None,
        bio: None,
        friends: vec![4],
        level: UserLevel { level: 1, xp: 0 },
        progress: UserProgress::new(),
        auth_token: None,
    }
}

fn grant_for(user_id: u128) -> Grant {
    check_authorization_at(5, &user_id, Ok(Some(Session::issue(user_id, 5, 0))), 1)
        .expect("a good token of that user")
}

fn pass_for(token: u128) -> Pass {
    validate_token_at(token, Ok(Some(Session::issue(1, token, 0))), 1).expect("a good token")
}

fn denied(rejection: &Rejection, error: AuthorizationError) -> bool {
    matches!(rejection, Rejection::Denied(found) if *found == error)
}

#[test]
fn credential_is_read_as_an_identifier() {
    assert_eq!(
        read_credential(Some("550e8400-e29b-41d4-a716-446655440000")).unwrap(),
        0x550e8400e29b41d4a716446655440000
    );
    assert_eq!(
        read_credential(Some("550e8400e29b41d4a716446655440000")).unwrap(),
        0x550e8400e29b41d4a716446655440000
    );
    assert_eq!(read_credential(Some("00000000000000000000000000000001")).unwrap(), 1);
    assert_eq!(read_credential(Some("ffffffffffffffffffffffffffffffff")).unwrap(), u128::MAX);
}

#[test]
fn missing_and_malformed_credentials_are_told_apart() {
    assert!(matches!(read_credential(None), Err(Rejection::MissingCredential)));
    assert!(matches!(read_credential(Some("")), Err(Rejection::MalformedCredential)));
    assert!(matches!(read_credential(Some("Bearer x")), Err(Rejection::MalformedCredential)));
    assert!(matches!(
        read_credential(Some("550e8400-e29b-41d4-a716-44665544000g")),
        Err(Rejection::MalformedCredential)
    ));
    assert!(matches!(
        read_credential(Some("550e8400e29b41d4a71644665544000")),
        Err(Rejection::MalformedCredential)
    ));
}

#[test]
fn validate_token_at_covers_every_case() {
    let session = Session::issue(1, 5, 100);
    let pass = validate_token_at(5, Ok(Some(session)), 100).unwrap();
    assert_eq!(pass.token(), 5);
    let expired = validate_token_at(5, Ok(Some(session)), session.expiration_time).unwrap_err();
    assert!(denied(&expired, AuthorizationError::TokenExpired));
    let unknown = validate_token_at(5, Ok(None), 100).unwrap_err();
    assert!(denied(&unknown, AuthorizationError::TokenNotInDatabase));
    let other = validate_token_at(6, Ok(Some(session)), 100).unwrap_err();
    assert!(denied(&other, AuthorizationError::TokenNotInDatabase));
    let failed =
        validate_token_at(5, Err(StorageFailure { message: text("down") }), 100).unwrap_err();
    assert!(matches!(failed, Rejection::Storage(failure) if failure.message == "down"));
}

#[test]
fn check_authorization_at_covers_every_case() {
    let session = Session::issue(1, 5, 100);
    let grant = check_authorization_at(5, &1, Ok(Some(session)), 100).unwrap();
    assert_eq!(grant.token(), 5);
    assert_eq!(grant.user_id(), 1);
    let foreign = check_authorization_at(5, &2, Ok(Some(session)), 100).unwrap_err();
    assert!(denied(&foreign, AuthorizationError::NotAuthorized));
    let expired =
        check_authorization_at(5, &1, Ok(Some(session)), session.expiration_time).unwrap_err();
    assert!(denied(&expired, AuthorizationError::TokenExpired));
    let expired_and_foreign =
        check_authorization_at(5, &2, Ok(Some(session)), session.expiration_time).unwrap_err();
    assert!(denied(&expired_and_foreign, AuthorizationError::TokenExpired));
    let unknown = check_authorization_at(5, &1, Ok(None), 100).unwrap_err();
    assert!(denied(&unknown, AuthorizationError::TokenNotInDatabase));
    let failed =
        check_authorization_at(5, &1, Err(StorageFailure { message: text("down") }), 100)
            .unwrap_err();
    assert!(matches!(failed, Rejection::Storage(failure) if failure.message == "down"));
}

#[test]
fn checks_against_the_clock() {
    let now = std::time::SystemTime::now()
        .duration_since(std::time::UNIX_EPOCH)
        .unwrap()
        .as_secs() as i64;
    let fresh = Session::issue(1, 5, now);
    let stale = Session::issue(1, 5, now - 1_209_600 - 60);
    assert_eq!(validate_token(5, Ok(Some(fresh))).unwrap().token(), 5);
    assert!(denied(
        &validate_token(5, Ok(Some(stale))).unwrap_err(),
        AuthorizationError::TokenExpired
    ));
    assert_eq!(check_authorization(5, &1, Ok(Some(fresh))).unwrap().user_id(), 1);
    assert!(denied(
        &check_authorization(5, &2, Ok(Some(fresh))).unwrap_err(),
        AuthorizationError::NotAuthorized
    ));
    assert!(denied(
        &check_authorization(5, &1, Ok(Some(stale))).unwrap_err(),
        AuthorizationError::TokenExpired
    ));
}

#[test]
fn user_info_leaves_out_id_verifier_and_token() {
    let mut user = sample(3);
    user.auth_token = Some(9);
    user.bio = Some(text("hi"));
    let info = UserInfo::from_user(user);
    assert_eq!(info.username, "test");
    assert_eq!(info.email, Some(text("test@test.com")));
    assert_eq!(info.phone, None);
    assert_eq!(info.bio, Some(text("hi")));
    assert_eq!(info.friends, vec![4]);
    assert_eq!(info.level, UserLevel { level: 1, xp: 0 });
    assert_eq!(info.progress, UserProgress::new());
    let shown = format!("{:?}", info);
    assert!(!shown.contains("aaaaa"));
    assert!(!shown.contains("password"));
}

#[test]
fn user_info_keeps_id_verifier_and_token_of_the_stored_user() {
    let mut persisted = sample(3);
    persisted.auth_token = Some(9);
    let info = UserInfo {
        username: text("renamed"),
        email: None,
        phone: Some(text("123456789")),
        bio: Some(text("bio")),
        friends: vec![7, 8],
        level: UserLevel { level: 2, xp: 5 },
        progress: UserProgress { course: 1, unit: 1, sector: 1, level: 1, task: 1 },
    };
    let user = info.to_user(&persisted);
    assert_eq!(
        user,
        User {
            id: 3,
            password_hash: text("aaaaa"),
            username: text("renamed"),
            email: None,
            phone: Some(text("123456789")),
            bio: Some(text("bio")),
            friends: vec![7, 8],
            level: UserLevel { level: 2, xp: 5 },
            progress: UserProgress { course: 1, unit: 1, sector: 1, level: 1, task: 1 },
            auth_token: Some(9),
        }
    );
}

#[test]
fn register_gives_the_user_and_its_plan() {
    let form = RegisterForm {
        username: text("test"),
        password: text("aaaaa"),
        email: Some(text("test@test.com")),
        phone: None,
    };
    let (user, plan) = backend::server::user::register(form, Ok(None)).unwrap();
    assert_eq!(user.username, "test");
    assert_eq!(user.password_hash, "aaaaa");
    assert_eq!(plan.len(), 2);
    assert!(matches!(&plan[0], Statement::InsertUser(row) if row.id == user.id && row.username == "test"));
    assert!(matches!(&plan[1], Statement::InsertProgress(id, _) if *id == user.id));
    let form =
        RegisterForm { username: text("test"), password: text("aaaaa"), email: None, phone: None };
    assert!(matches!(
        backend::server::user::register(form, Ok(None)),
        Err(UserError::MissingFields)
    ));
    let form = RegisterForm {
        username: text("test"),
        password: text("aaaaa"),
        email: Some(text("test@test.com")),
        phone: None,
    };
    assert!(matches!(
        backend::server::user::register(form, Ok(Some(1))),
        Err(UserError::UsernameExists)
    ));
}

#[test]
fn login_form_logs_in() {
    let form = LoginForm { username: text("test"), password: text("aaaaa") };
    let (user, plan) = backend::server::user::login(form, Ok(Some(sample(3)))).unwrap();
    assert_eq!(user.id, 3);
    assert!(user.auth_token.is_some());
    assert!(matches!(&plan[0], Statement::InsertSession(session) if Some(session.auth_token) == user.auth_token && session.user_id == 3));
    let form = LoginForm { username: text("test"), password: text("wrong") };
    assert!(matches!(
        backend::server::user::login(form, Ok(Some(sample(3)))),
        Err(UserError::BadCredentials)
    ));
}

#[test]
fn put_needs_a_grant_for_the_stored_user() {
    let persisted = sample(3);
    let info = || {
        let mut changed = sample(3);
        changed.friends = vec![4, 6];
        UserInfo::from_user(changed)
    };
    let (user, plan) = backend::server::user::put(&grant_for(3), info(), &persisted).unwrap();
    assert_eq!(user.id, 3);
    assert_eq!(user.friends, vec![4, 6]);
    assert_eq!(plan.len(), 3);
    assert!(matches!(&plan[2], Statement::InsertFriend(3, 6)));
    let refused = backend::server::user::put(&grant_for(4), info(), &persisted).unwrap_err();
    assert!(denied(&refused, AuthorizationError::NotAuthorized));
}

#[test]
fn get_shows_the_stored_user() {
    let info = backend::server::user::get(
        &pass_for(5),
        Some(sample(3).row()),
        vec![1],
        Some(UserProgress::new()),
    )
    .unwrap();
    assert_eq!(info.username, "test");
    assert_eq!(info.friends, vec![1]);
    let missing = backend::server::user::get(&pass_for(5), None, vec![], None);
    assert!(matches!(missing, Err(ReadError::NotFound)));
}

#[test]
fn delete_and_logout_need_their_tokens() {
    let plan = backend::server::user::delete(&grant_for(3), 3).unwrap();
    assert_eq!(plan.len(), 5);
    assert!(matches!(&plan[4], Statement::DeleteUser(3)));
    let refused = backend::server::user::delete(&grant_for(4), 3).unwrap_err();
    assert!(denied(&refused, AuthorizationError::NotAuthorized));
    let plan = backend::server::user::logout(&pass_for(8));
    assert_eq!(plan.len(), 1);
    assert!(matches!(&plan[0], Statement::DeleteSession(8)));
}

#[test]
fn random_task_is_one_of_the_tasks() {
    assert_eq!(backend::server::task::get_random(&vec![]), None);
    assert_eq!(backend::server::task::get_random(&vec![7]), Some(7));
    for _ in 0..50 {
        let picked = backend::server::task::get_random(&vec![1, 2, 3]).unwrap();
        assert!([1, 2, 3].contains(&picked));
    }
}

#[test]
fn next_task_is_none_of_the_seen_ones() {
    assert_eq!(backend::server::task::get_other_than(&vec![], &vec![]), None);
    assert_eq!(backend::server::task::get_other_than(&vec![1, 2], &vec![2, 1, 3]), None);
    assert_eq!(backend::server::task::get_other_than(&vec![1, 2], &vec![1]), Some(2));
    for _ in 0..50 {
        let picked = backend::server::task::get_other_than(&vec![1, 2, 3, 4], &vec![2, 9]).unwrap();
        assert!([1, 3, 4].contains(&picked));
    }
}

#[test]
fn form_becomes_an_answer_under_a_fresh_id() {
    let form = || AnswerForm {
        user_id: 1,
        task_id: 2,
        content: Some(AnswerContent::OpenQuestion(OpenQuestionAnswer { content: text("x") })),
    };
    let answer = form().into_answer();
    assert_eq!(answer.user_id, 1);
    assert_eq!(answer.task_id, 2);
    assert_eq!(
        answer.content,
        Some(AnswerContent::OpenQuestion(OpenQuestionAnswer { content: text("x") }))
    );
    assert_ne!(form().into_answer().id, answer.id);
}

#[test]
fn post_stores_the_answer_and_starts_grading() {
    let form = AnswerForm {
        user_id: 1,
        task_id: 2,
        content: Some(AnswerContent::MultipleChoice(MultipleChoiceAnswer {
            selected_answers_indices: vec![1, 0, 2],
        })),
    };
    let (answer, plan, step) = backend::server::answer::post(&grant_for(1), form).unwrap();
    assert_eq!(plan.len(), 1);
    assert!(matches!(&plan[0], Statement::InsertAnswer(stored) if *stored == answer));
    assert!(matches!(step, VerifyStep::Done(Ok(result)) if result.correct));
    let form = AnswerForm { user_id: 1, task_id: 2, content: None };
    let refused = backend::server::answer::post(&grant_for(2), form).unwrap_err();
    assert!(denied(&refused, AuthorizationError::NotAuthorized));
    let form = AnswerForm {
        user_id: 1,
        task_id: 2,
        content: Some(AnswerContent::OpenQuestion(OpenQuestionAnswer { content: text("x") })),
    };
    let (_, _, step) = backend::server::answer::post(&grant_for(1), form).unwrap();
    assert!(matches!(step, VerifyStep::Ask(_)));
}

#[test]
fn answers_are_changed_and_removed_by_their_user_only() {
    let answer = Answer { id: 9, task_id: 2, user_id: 1, content: None };
    let changed = answer.solve(AnswerContent::MultipleChoice(MultipleChoiceAnswer {
        selected_answers_indices: vec![1],
    }));
    let plan = backend::server::answer::put(&grant_for(1), &changed, &answer).unwrap();
    assert_eq!(plan.len(), 1);
    assert!(matches!(&plan[0], Statement::UpdateAnswer(stored) if *stored == changed));
    assert!(backend::server::answer::put(&grant_for(1), &answer, &answer).unwrap().is_empty());
    let refused = backend::server::answer::put(&grant_for(9), &changed, &answer).unwrap_err();
    assert!(denied(&refused, AuthorizationError::NotAuthorized));
    let of_another = Answer { id: 9, task_id: 2, user_id: 4, content: None };
    let refused = backend::server::answer::put(&grant_for(1), &changed, &of_another).unwrap_err();
    assert!(denied(&refused, AuthorizationError::NotAuthorized));
    let refused = backend::server::answer::put(&grant_for(4), &changed, &of_another).unwrap_err();
    assert!(denied(&refused, AuthorizationError::NotAuthorized));
    let plan = backend::server::answer::delete(&grant_for(1), &answer).unwrap();
    assert_eq!(plan.len(), 1);
    assert!(matches!(&plan[0], Statement::DeleteAnswer(9)));
    let refused = backend::server::answer::delete(&grant_for(9), &answer).unwrap_err();
    assert!(denied(&refused, AuthorizationError::NotAuthorized));
}
