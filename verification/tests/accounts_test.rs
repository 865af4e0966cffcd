use user_service::config::get_server_url;
use user_service::db::models::{secret_key, User};
use user_service::db::{login_user, UserRegisterReq};
use user_service::errors::{DbErrorKind, DbFailure, ServiceError};

fn sample_time() -> chrono::NaiveDateTime {
    chrono::NaiveDate::from_ymd_opt(2019, 6, 1).unwrap().and_hms_opt(12, 30, 0).unwrap()
}

fn sample_user() -> User {
    User {
        id: [
            0x93, 0x6d, 0xa0, 0x1f, 0x9a, 0xbd, 0x4d, 0x9d, 0x80, 0xc7, 0x02, 0xaf, 0x85, 0xc8,
            0x22, 0xa8,
        ],
        email: "ada@example.com".to_string(),
        hash: "$argon2id$v=19$m=4096,t=192,p=4$c2FsdA$aGFzaA".to_string(),
        first_name: "Ada".to_string(),
        last_name: "Lovelace".to_string(),
        created_at: sample_time(),
        yapily_id: "".to_string(),
    }
}

#[test]
fn default_secret_key_is_1234_eight_times() {
    assert_eq!(secret_key(None), "12341234123412341234123412341234");
    assert_eq!(secret_key(None).len(), 32);
}

#[test]
fn configured_secret_key_is_kept() {
    assert_eq!(secret_key(Some("s3cr3t".to_string())), "s3cr3t");
}

#[test]
fn registration_copies_request_fields() {
    let req = UserRegisterReq {
        email: "bob@example.com".to_string(),
        password: "hunter2".to_string(),
        first_name: "Bob".to_string(),
        last_name: "Builder".to_string(),
    };
    let user = User::from_user_data(req, "hashed-password".to_string());
    assert_eq!(user.email, "bob@example.com");
    assert_eq!(user.first_name, "Bob");
    assert_eq!(user.last_name, "Builder");
    assert_eq!(user.hash, "hashed-password");
    assert_eq!(user.yapily_id, "");
    assert_eq!(user.id[6] >> 4, 4);
    assert_eq!(user.id[8] >> 6, 2);
}

#[test]
fn registration_ids_are_fresh() {
    let make = || {
        User::from_user_data(
            UserRegisterReq {
                email: "e".to_string(),
                password: "p".to_string(),
                first_name: "f".to_string(),
                last_name: "l".to_string(),
            },
            "h".to_string(),
        )
    };
    assert_ne!(make().id, make().id);
}

#[test]
fn full_name_joins_names() {
    assert_eq!(sample_user().full_name(), "Ada Lovelace");
}

#[test]
fn login_succeeds_only_on_matching_password() {
    let user = sample_user();
    match login_user(Ok((user, Ok(true)))) {
        Ok(u) => assert_eq!(u.email, "ada@example.com"),
        Err(e) => panic!("unexpected {:?}", e),
    }
    assert!(matches!(login_user(Ok((sample_user(), Ok(false)))), Err(ServiceError::Unauthorized)));
    assert!(matches!(
        login_user(Ok((sample_user(), Err(ServiceError::Unauthorized)))),
        Err(ServiceError::Unauthorized)
    ));
    assert!(matches!(
        login_user(Ok((sample_user(), Err(ServiceError::InternalServerError)))),
        Err(ServiceError::Unauthorized)
    ));
}

#[test]
fn server_url_defaults() {
    assert_eq!(get_server_url(None, None), "localhost:8080");
    assert_eq!(get_server_url(Some("0.0.0.0".to_string()), None), "0.0.0.0:8080");
    assert_eq!(get_server_url(None, Some("3000".to_string())), "localhost:3000");
    assert_eq!(
        get_server_url(Some("api.example.com".to_string()), Some("443".to_string())),
        "api.example.com:443"
    );
}

#[test]
fn new_account_keeps_given_id_and_time() {
    let req = UserRegisterReq {
        email: "bob@example.com".to_string(),
        password: "hunter2".to_string(),
        first_name: "Bob".to_string(),
        last_name: "Builder".to_string(),
    };
    let user = User::new_account(req, "hashed".to_string(), [5u8; 16], sample_time());
    assert_eq!(user.id, [5u8; 16]);
    assert_eq!(user.created_at, sample_time());
    assert_eq!(user.hash, "hashed");
    assert_eq!(user.yapily_id, "");
}

#[test]
fn login_with_unknown_email_is_internal_error() {
    assert!(matches!(login_user(Err(DbFailure::NotFound)), Err(ServiceError::InternalServerError)));
    let broken = DbFailure::DatabaseError {
        kind: DbErrorKind::UnableToSendCommand,
        message: "connection lost".to_string(),
        details: None,
    };
    assert!(matches!(login_user(Err(broken)), Err(ServiceError::InternalServerError)));
}
