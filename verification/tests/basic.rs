use b2_uploader::add;
use b2_uploader::client::UploadRegistry;
use b2_uploader::client::{has_capabilities, has_capability, B2ClientStatus};
use b2_uploader::definitions::responses::{
    B2AuthData, B2AuthDataApiInfo, B2AuthDataApiInfoType, B2AuthDataStorageApiInfo,
};
use b2_uploader::definitions::shared::B2KeyCapability;
use b2_uploader::error::B2Error;

#[test]
fn it_works() {
    let result = add(2, 2);
    assert_eq!(result, 4);
}

fn auth_with(caps: Vec<B2KeyCapability>) -> B2AuthData {
    B2AuthData {
        account_id: "acct".to_string(),
        api_info: B2AuthDataApiInfo {
            storage_api: B2AuthDataStorageApiInfo {
                absolute_minimum_part_size: 5 * 1024 * 1024,
                api_url: "https://api.example".to_string(),
                bucket_id: None,
                bucket_name: None,
                capabilities: caps,
                download_url: "https://dl.example".to_string(),
                info_type: B2AuthDataApiInfoType::StorageApi,
                name_prefix: None,
                recommended_part_size: 100 * 1024 * 1024,
                s3_api_url: "https://s3.example".to_string(),
            },
        },
        authorization_token: "token".to_string(),
        application_key_expiration_timestamp: None,
    }
}

#[test]
fn capability_check_finds_granted_capability() {
    let auth = auth_with(vec![B2KeyCapability::ListFiles, B2KeyCapability::WriteFiles]);
    assert!(has_capability(&auth, B2KeyCapability::WriteFiles).is_ok());
    assert!(has_capabilities(
        &auth,
        &[B2KeyCapability::ListFiles, B2KeyCapability::WriteFiles]
    )
    .is_ok());
}

#[test]
fn capability_check_names_missing_capability() {
    let auth = auth_with(vec![B2KeyCapability::ListFiles]);
    match has_capability(&auth, B2KeyCapability::WriteFiles) {
        Err(B2Error::MissingCapability(c)) => {
            assert!(matches!(c, B2KeyCapability::WriteFiles));
        }
        _ => panic!("expected a missing-capability error"),
    }
}

#[test]
fn client_status_compares() {
    assert_eq!(B2ClientStatus::Authed, B2ClientStatus::Authed);
    assert_ne!(B2ClientStatus::Authed, B2ClientStatus::KeyExpired);
}

#[test]
fn busy_classification_matches_status() {
    let busy = B2Error::RequestError(b2_uploader::error::B2RequestError {
        status: 503,
        code: "service_unavailable".to_string(),
        message: None,
    });
    let fatal = B2Error::RequestError(b2_uploader::error::B2RequestError {
        status: 400,
        code: "bad_request".to_string(),
        message: Some("bad".to_string()),
    });
    assert!(busy.is_busy());
    assert!(!fatal.is_busy());
    assert!(!B2Error::RequestSendError.is_busy());
}

#[test]
fn registry_reuses_the_first_empty_slot() {
    let mut reg = UploadRegistry::new();
    reg.push_upload(10);
    reg.push_upload(20);
    reg.push_upload(30);
    assert_eq!(reg.slots, vec![Some(10), Some(20), Some(30)]);
    reg.remove_upload(20);
    assert_eq!(reg.slots, vec![Some(10), None, Some(30)]);
    reg.push_upload(40);
    assert_eq!(reg.slots, vec![Some(10), Some(40), Some(30)]);
    assert_eq!(reg.tracked_ids(), vec![10, 40, 30]);
    reg.remove_upload(99);
    assert_eq!(reg.tracked_ids(), vec![10, 40, 30]);
}
