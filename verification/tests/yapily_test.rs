use user_service::db::models::User;
use user_service::errors::ServiceError;
use user_service::yapily::{
    authorization_header, create_user, create_user_call, get_user_consents,
    get_user_consents_call, CreateUserResponse, UserConsents,
};

fn sample_user(yapily_id: &str) -> User {
    User {
        id: [
            0x93, 0x6d, 0xa0, 0x1f, 0x9a, 0xbd, 0x4d, 0x9d, 0x80, 0xc7, 0x02, 0xaf, 0x85, 0xc8,
            0x22, 0xa8,
        ],
        email: "ada@example.com".to_string(),
        hash: "h".to_string(),
        first_name: "Ada".to_string(),
        last_name: "Lovelace".to_string(),
        created_at: chrono::NaiveDate::from_ymd_opt(2019, 6, 1)
            .unwrap()
            .and_hms_opt(0, 0, 0)
            .unwrap(),
        yapily_id: yapily_id.to_string(),
    }
}

#[test]
fn authorization_header_is_basic_base64_of_key_and_secret() {
    assert_eq!(authorization_header("key", "secret"), "Basic a2V5OnNlY3JldA==");
    assert_eq!(authorization_header("", ""), "Basic Og==");
    assert_eq!(authorization_header("ab", "c"), "Basic YWI6Yw==");
    assert_eq!(authorization_header("abc", "de"), "Basic YWJjOmRl");
    assert_eq!(authorization_header("é", "ü"), "Basic w6k6w7w=");
}

#[test]
fn create_user_call_targets_users_endpoint() {
    let call = create_user_call(&sample_user(""), "Basic xyz");
    assert_eq!(call.url, "https://api.yapily.com/users");
    assert_eq!(call.authorization, "Basic xyz");
    let body = call.body.unwrap();
    assert_eq!(body.user_id, "936da01f-9abd-4d9d-80c7-02af85c822a8");
    assert_eq!(body.reference_id, "ada@example.com");
}

#[test]
fn create_user_records_the_yapily_id() {
    let answer = CreateUserResponse {
        uuid: "ab12".to_string(),
        application_uuid: "app".to_string(),
        application_user_id: "936da01f-9abd-4d9d-80c7-02af85c822a8".to_string(),
        reference_id: "ada@example.com".to_string(),
    };
    let user = create_user(sample_user(""), Ok(answer)).unwrap();
    assert_eq!(user.yapily_id, "ab12");
    assert_eq!(user.email, "ada@example.com");
    assert_eq!(user.first_name, "Ada");
}

#[test]
fn create_user_failure_is_internal() {
    assert!(matches!(
        create_user(sample_user(""), Err(())),
        Err(ServiceError::InternalServerError)
    ));
}

#[test]
fn consents_call_url_joins_parts_as_they_stand() {
    let call = get_user_consents_call(&sample_user("u-1"), "Basic xyz");
    assert_eq!(call.url, "https://api.yapily.com/usersu-1/consents");
    assert!(call.body.is_none());
}

#[test]
fn consents_pass_through() {
    let c = UserConsents {
        id: "c1".to_string(),
        user_uuid: "u-1".to_string(),
        institution_id: "bank".to_string(),
        status: "AUTHORIZED".to_string(),
        consent_token: "tok".to_string(),
    };
    let list = get_user_consents(Ok(vec![c])).unwrap();
    assert_eq!(list.len(), 1);
    assert_eq!(list[0].status, "AUTHORIZED");
    assert!(matches!(get_user_consents(Err(())), Err(ServiceError::InternalServerError)));
}
