use b2_uploader::definitions::bodies::B2StartLargeFileUploadBody;
use b2_uploader::definitions::headers::{B2UploadFileHeaders, B2UploadPartHeaders};
use b2_uploader::definitions::shared::{
    B2BucketFileRetention, B2FileLegalHold, B2FileRetentionMode, B2ServerSideEncryption,
    B2ServerSideEncryptionAlgorithm,
};
use b2_uploader::options::B2FileUploadSettings;

fn settings() -> B2FileUploadSettings {
    let mut s = B2FileUploadSettings::default();
    s.content_type = "text/plain".to_string();
    s.src_last_modified_millis = Some(42);
    s.b2_expires = Some("soon".to_string());
    s.legal_hold = Some(B2FileLegalHold::On);
    s.file_retention = Some(B2BucketFileRetention {
        mode: Some(B2FileRetentionMode::Governance),
        retain_until_timestamp: Some(1000),
    });
    s
}

fn file_headers() -> B2UploadFileHeaders {
    B2UploadFileHeaders {
        authorization: "tok".to_string(),
        file_name: "name".to_string(),
        content_type: String::new(),
        content_length: 5,
        content_sha1: "sha".to_string(),
        src_last_modified_millis: None,
        b2_content_disposition: None,
        b2_content_language: None,
        b2_expires: None,
        b2_cache_control: None,
        b2_content_encoding: None,
        custom_upload_timestamp: None,
        legal_hold: None,
        retention_mode: None,
        retention_retain_until_timestamp: None,
        server_side_encryption: None,
        server_side_encryption_customer_algorithm: None,
        server_side_encryption_customer_key: None,
        server_side_encryption_customer_key_md5: None,
    }
}

#[test]
fn settings_flow_into_single_shot_headers() {
    let r = settings().apply_file_upload(file_headers());
    assert_eq!(r.authorization, "tok");
    assert_eq!(r.content_type, "text/plain");
    assert_eq!(r.src_last_modified_millis, Some(42));
    assert_eq!(r.b2_expires.as_deref(), Some("soon"));
    assert!(matches!(r.legal_hold, Some(B2FileLegalHold::On)));
    assert!(matches!(r.retention_mode, Some(B2FileRetentionMode::Governance)));
    assert_eq!(r.retention_retain_until_timestamp, Some(1000));
    assert_eq!(r.content_length, 5);
    assert_eq!(r.content_sha1, "sha");
}

#[test]
fn settings_append_custom_info_to_session_body() {
    let base = B2StartLargeFileUploadBody {
        bucket_id: "b".to_string(),
        file_name: "f".to_string(),
        content_type: String::new(),
        custom_upload_timestamp: None,
        file_info: Some(vec![("k".to_string(), "v".to_string())]),
        file_retention: None,
        legal_hold: None,
        server_side_encryption: None,
    };
    let r = settings().apply_large_file_upload(base);
    assert_eq!(r.content_type, "text/plain");
    let info = r.file_info.unwrap();
    assert_eq!(
        info,
        vec![
            ("k".to_string(), "v".to_string()),
            ("src_last_modified_millis".to_string(), "42".to_string()),
            ("b2-expires".to_string(), "soon".to_string()),
        ]
    );
}

#[test]
fn customer_key_encryption_flows_into_part_headers() {
    let mut s = B2FileUploadSettings::default();
    s.server_side_encryption = Some(B2ServerSideEncryption::SseC {
        algorithm: B2ServerSideEncryptionAlgorithm::AES256,
        customer_key: "key".to_string(),
        customer_key_md5: "md5".to_string(),
    });
    let base = B2UploadPartHeaders {
        authorization: "tok".to_string(),
        part_number: 4,
        content_length: 9,
        content_sha1: "sha".to_string(),
        server_side_encryption_customer_algorithm: None,
        server_side_encryption_customer_key: None,
        server_side_encryption_customer_key_md5: None,
    };
    let r = s.apply_file_part_upload(base);
    assert_eq!(r.part_number, 4);
    assert!(matches!(
        r.server_side_encryption_customer_algorithm,
        Some(B2ServerSideEncryptionAlgorithm::AES256)
    ));
    assert_eq!(r.server_side_encryption_customer_key.as_deref(), Some("key"));
    assert_eq!(r.server_side_encryption_customer_key_md5.as_deref(), Some("md5"));
}

#[test]
fn disabled_encryption_leaves_part_headers_alone() {
    let mut s = B2FileUploadSettings::default();
    s.server_side_encryption = Some(B2ServerSideEncryption::Disabled);
    let base = B2UploadPartHeaders {
        authorization: "tok".to_string(),
        part_number: 1,
        content_length: 1,
        content_sha1: "sha".to_string(),
        server_side_encryption_customer_algorithm: None,
        server_side_encryption_customer_key: None,
        server_side_encryption_customer_key_md5: None,
    };
    let r = s.apply_file_part_upload(base);
    assert!(r.server_side_encryption_customer_algorithm.is_none());
    assert!(r.server_side_encryption_customer_key.is_none());
}
