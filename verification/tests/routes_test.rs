use user_service::db::models::User;
use user_service::errors::ServiceError;
use user_service::mail::{password_reset_email, password_reset_message, send_password_reset_token};
use user_service::routes::{
    blocking_error, forgotten_password, issue_reset_token, forgotten_password_sent, reset_password,
    reset_password_done, update_yapily_credentials, user_login, user_login_stored, yapily_id_stored,
    public_fields, RegisterStep,
    user_register, BlockingFailure, ForgotStep, LoginStep, Payload, Reply, ResetStep,
};

const ID: [u8; 16] = [
    0x93, 0x6d, 0xa0, 0x1f, 0x9a, 0xbd, 0x4d, 0x9d, 0x80, 0xc7, 0x02, 0xaf, 0x85, 0xc8, 0x22, 0xa8,
];

fn sample_user() -> User {
    User {
        id: ID,
        email: "ada@example.com".to_string(),
        hash: "h".to_string(),
        first_name: "Ada".to_string(),
        last_name: "Lovelace".to_string(),
        created_at: chrono::NaiveDate::from_ymd_opt(2019, 6, 1)
            .unwrap()
            .and_hms_opt(0, 0, 0)
            .unwrap(),
        yapily_id: "yap-7".to_string(),
    }
}

#[test]
fn blocking_failures() {
    assert!(matches!(
        blocking_error(BlockingFailure::Failed(ServiceError::Unauthorized)),
        ServiceError::Unauthorized
    ));
    assert!(matches!(
        blocking_error(BlockingFailure::Canceled),
        ServiceError::InternalServerError
    ));
}

#[test]
fn login_stores_user_id_in_session() {
    match user_login(Ok(sample_user())) {
        LoginStep::StoreSession { entry, user } => {
            assert_eq!(entry.key, "user.id");
            assert_eq!(entry.value, "936da01f-9abd-4d9d-80c7-02af85c822a8");
            assert_eq!(user.email, "ada@example.com");
        }
        LoginStep::Done(_) => panic!("expected a session write"),
    }
    match user_login(Err(BlockingFailure::Failed(ServiceError::Unauthorized))) {
        LoginStep::Done(Reply::Failure(ServiceError::Unauthorized)) => {}
        _ => panic!("expected Unauthorized"),
    }
    match user_login(Err(BlockingFailure::Canceled)) {
        LoginStep::Done(Reply::Failure(ServiceError::InternalServerError)) => {}
        _ => panic!("expected an internal error"),
    }
}

#[test]
fn login_answer_after_session_write() {
    match user_login_stored(sample_user(), true) {
        (Reply::Success(Payload::Text(t)), true) => assert_eq!(t, "yap-7"),
        _ => panic!("expected the yapily id"),
    }
    match user_login_stored(sample_user(), false) {
        (Reply::Failure(ServiceError::InternalServerError), false) => {}
        _ => panic!("expected an internal error"),
    }
}

#[test]
fn registration_steps() {
    assert!(user_register(Ok(sample_user())).is_ok());
    assert!(matches!(
        user_register(Err(BlockingFailure::Failed(ServiceError::Unauthorized))),
        Err(ServiceError::InternalServerError)
    ));
    match update_yapily_credentials(Ok(sample_user())) {
        RegisterStep::StoreYapilyId(u) => assert_eq!(u.yapily_id, "yap-7"),
        RegisterStep::Done(_) => panic!("expected the store step"),
    }
    assert!(matches!(
        update_yapily_credentials(Err(ServiceError::InternalServerError)),
        RegisterStep::Done(Reply::Failure(ServiceError::InternalServerError))
    ));
    match yapily_id_stored(Ok(sample_user())) {
        Reply::Success(Payload::Account(a)) => {
            assert_eq!(a.email, "ada@example.com");
            assert_eq!(a.first_name, "Ada");
            assert_eq!(a.last_name, "Lovelace");
        }
        _ => panic!("expected the account"),
    }
    assert!(matches!(yapily_id_stored(Err(())), Reply::EmptyServerError));
    let a = public_fields(sample_user());
    assert_eq!((a.email.as_str(), a.first_name.as_str()), ("ada@example.com", "Ada"));
}

#[test]
fn reset_email_texts() {
    let token = [0u8, 1, 2, 3, 4, 5, 6, 7, 8, 9, 10, 11, 12, 13, 14, 255];
    let mail = password_reset_email(&sample_user(), token);
    assert_eq!(mail.to_address, "ada@example.com");
    assert_eq!(mail.to_name, "Ada Lovelace");
    assert_eq!(mail.from_address, "user@example.com");
    assert_eq!(mail.subject, "Hi, Hello world");
    assert_eq!(
        mail.html,
        "<h2>Hi<br><br>Your password reset token is: 00010203-0405-0607-0809-0a0b0c0d0eff</h2>"
    );
    assert_eq!(mail.text, "Hi Your password reset token is: 00010203-0405-0607-0809-0a0b0c0d0eff");
    assert!(send_password_reset_token(true).is_ok());
    assert!(matches!(send_password_reset_token(false), Err(ServiceError::EmailServerError)));
}

#[test]
fn forgotten_password_issues_a_token_for_the_account() {
    match forgotten_password(Ok(sample_user())) {
        ForgotStep::Issue(issue) => {
            assert_eq!(issue.entry.value, "936da01f-9abd-4d9d-80c7-02af85c822a8");
            assert_eq!(issue.entry.key, uuid::Uuid::from_bytes(issue.token).to_string());
            assert_eq!(issue.token[6] >> 4, 4);
            assert!(issue.email.text.ends_with(&issue.entry.key));
            match forgotten_password_sent(issue.token, true) {
                Reply::Success(Payload::Text(t)) => assert_eq!(t, issue.entry.key),
                _ => panic!("expected the token"),
            }
        }
        ForgotStep::Done(_) => panic!("expected a token"),
    }
    assert!(matches!(
        forgotten_password(Err(BlockingFailure::Canceled)),
        ForgotStep::Done(Reply::EmptyServerError)
    ));
    assert!(matches!(
        forgotten_password_sent(ID, false),
        Reply::Failure(ServiceError::InternalServerError)
    ));
}

#[test]
fn issued_token_resets_its_account() {
    let issue = match forgotten_password(Ok(sample_user())) {
        ForgotStep::Issue(issue) => issue,
        ForgotStep::Done(_) => panic!("expected a token"),
    };
    match reset_password(Some(issue.entry.value.clone())) {
        ResetStep::Update { user_id } => assert_eq!(user_id, ID),
        ResetStep::Done(_) => panic!("expected an update"),
    }
}

#[test]
fn reset_reads_every_uuid_form() {
    for text in [
        "936da01f-9abd-4d9d-80c7-02af85c822a8",
        "936DA01F-9ABD-4D9D-80C7-02AF85C822A8",
        "936da01f9abd4d9d80c702af85c822a8",
        "urn:uuid:936da01f-9abd-4d9d-80c7-02af85c822a8",
    ] {
        match reset_password(Some(text.to_string())) {
            ResetStep::Update { user_id } => assert_eq!(user_id, ID),
            ResetStep::Done(_) => panic!("expected an update for {}", text),
        }
    }
}

#[test]
fn reset_refuses_missing_or_malformed_entries() {
    assert!(matches!(reset_password(None), ResetStep::Done(Reply::EmptyServerError)));
    for text in [
        "",
        "936da01f-9abd-4d9d-80c7-02af85c822a",
        "936da01f9abd-4d9d-80c7-02af85c822a8x",
        "936da01f-9abd-4d9d-80c7-02af85c822ag",
        "URN:uuid:936da01f-9abd-4d9d-80c7-02af85c822a8",
        "urn:uuid:936da01f9abd4d9d80c702af85c822a8",
    ] {
        assert!(
            matches!(reset_password(Some(text.to_string())), ResetStep::Done(Reply::EmptyServerError)),
            "{}",
            text
        );
    }
}

#[test]
fn reset_removes_the_token_only_on_success() {
    match reset_password_done("tok".to_string(), true) {
        (Reply::Success(Payload::Flag(true)), Some(t)) => assert_eq!(t, "tok"),
        _ => panic!("expected success"),
    }
    assert!(matches!(
        reset_password_done("tok".to_string(), false),
        (Reply::EmptyServerError, None)
    ));
}

#[test]
fn reset_mail_is_built_for_accepted_addresses_only() {
    let token = [7u8; 16];
    let mail = password_reset_email(&sample_user(), token);
    let built = password_reset_message(mail).unwrap();
    assert_eq!(
        built.source.text,
        "Hi Your password reset token is: 07070707-0707-0707-0707-070707070707"
    );
    assert_eq!(built.source.to_address, "ada@example.com");
    assert_eq!(built.to, vec!["ada@example.com".to_string()]);
    assert_eq!(built.from, Some("user@example.com".to_string()));
    assert_eq!(built.email.envelope().to().len(), 1);
    let mut user = sample_user();
    user.email = "not an address".to_string();
    assert!(password_reset_message(password_reset_email(&user, token)).is_none());
    user.email = "not an address on localhost".to_string();
    assert!(password_reset_message(password_reset_email(&user, token)).is_some());
}

#[test]
fn reset_mail_depends_only_on_email_name_and_token() {
    let token = [9u8; 16];
    let mut other = sample_user();
    other.id = [1u8; 16];
    other.hash = "another hash".to_string();
    other.yapily_id = "another".to_string();
    let a = password_reset_email(&sample_user(), token);
    let b = password_reset_email(&other, token);
    assert_eq!(
        (a.to_address, a.to_name, a.from_address, a.subject, a.html, a.text),
        (b.to_address, b.to_name, b.from_address, b.subject, b.html, b.text)
    );
}

#[test]
fn issued_token_is_the_drawn_one() {
    let token = [0xabu8; 16];
    match issue_reset_token(Ok(sample_user()), token) {
        ForgotStep::Issue(issue) => {
            assert_eq!(issue.token, token);
            assert_eq!(issue.entry.key, "abababab-abab-abab-abab-abababababab");
            assert_eq!(issue.entry.value, "936da01f-9abd-4d9d-80c7-02af85c822a8");
            assert_eq!(
                issue.email.text,
                "Hi Your password reset token is: abababab-abab-abab-abab-abababababab"
            );
        }
        ForgotStep::Done(_) => panic!("expected a token"),
    }
    assert!(matches!(
        issue_reset_token(Err(BlockingFailure::Canceled), token),
        ForgotStep::Done(Reply::EmptyServerError)
    ));
}
