//! Response bodies of the remote API's endpoints.
use vstd::prelude::*;

use crate::definitions::shared::{
    B2AppKey, B2Bucket, B2BucketFileRetention, B2EventNotificationRule, B2File, B2KeyCapability,
    B2ServerSideEncryption,
};

verus! {

/// Response to a file-retention update.
#[derive(Clone, Debug)]
pub struct B2UpdateFileRetentionResponse {
    pub file_id: String,
    pub file_name: String,
    pub file_retention: B2BucketFileRetention,
}

/// An upload slot for parts of one multipart session: where to send parts
/// and the token that authorizes them.
#[derive(Clone, Debug)]
pub struct B2GetUploadPartUrlResponse {
    /// The session's file ID.
    pub file_id: String,
    /// The URL parts are uploaded to.
    pub upload_url: String,
    /// The token that must accompany uploads to this URL.
    pub authorization_token: String,
}

/// One page of a file listing.
#[derive(Clone, Debug)]
pub struct B2ListFilesResponse {
    pub files: Vec<B2File>,
    pub next_file_name: Option<String>,
}

/// An upload slot for single-shot uploads into one bucket.
#[derive(Clone, Debug)]
pub struct B2GetUploadUrlResponse {
    /// The bucket the slot uploads into.
    pub bucket_id: String,
    /// The URL files are uploaded to.
    pub upload_url: String,
    /// The token that must accompany uploads to this URL.
    pub authorization_token: String,
}

/// One page of a file-version listing.
#[derive(Clone, Debug)]
pub struct B2ListFileVersionsResponse {
    pub files: Vec<B2File>,
    pub next_file_name: Option<String>,
    pub next_file_id: Option<String>,
}

/// One uploaded part as reported by a part listing.
#[derive(Clone, Debug)]
pub struct B2FilePart {
    pub file_id: String,
    pub part_number: u16,
    pub content_length: u64,
    pub content_sha1: String,
    pub content_md5: Option<String>,
    pub server_side_encryption: B2ServerSideEncryption,
    pub upload_timestamp: u64,
}

/// Which API suite a piece of authorization data belongs to.
#[derive(Clone, Copy, Debug, PartialEq, Eq, Structural)]
pub enum B2AuthDataApiInfoType {
    GroupsApi,
    StorageApi,
    BackupApi,
}

/// Storage-API information of an authorization.
#[derive(Clone, Debug)]
pub struct B2AuthDataStorageApiInfo {
    pub absolute_minimum_part_size: u64,
    pub api_url: String,
    pub bucket_id: Option<String>,
    pub bucket_name: Option<String>,
    pub capabilities: Vec<B2KeyCapability>,
    pub download_url: String,
    pub info_type: B2AuthDataApiInfoType,
    pub name_prefix: Option<String>,
    pub recommended_part_size: u64,
    pub s3_api_url: String,
}

/// Groups-API information of an authorization.
#[derive(Clone, Debug)]
pub struct B2AuthDataGroupsApiInfo {
    pub capabilities: Vec<String>,
    pub groups_api_url: String,
    pub info_type: B2AuthDataApiInfoType,
}

/// Backup-API information of an authorization.
#[derive(Clone, Debug)]
pub struct B2AuthDataBackupApiInfo {
    pub capabilities: Vec<String>,
    pub backup_api_url: String,
    pub info_type: B2AuthDataApiInfoType,
}

/// Per-suite information of an authorization.
#[derive(Clone, Debug)]
pub struct B2AuthDataApiInfo {
    /// What the storage API needs.
    pub storage_api: B2AuthDataStorageApiInfo,
}

/// The result of authorizing an account.
#[derive(Clone, Debug)]
pub struct B2AuthData {
    /// The account's identifier.
    pub account_id: String,
    /// Per-suite information.
    pub api_info: B2AuthDataApiInfo,
    /// The token for subsequent calls; valid for at most 24 hours.
    pub authorization_token: String,
    /// When the application key expires, in milliseconds since the epoch.
    pub application_key_expiration_timestamp: Option<u64>,
}

/// One page of an unfinished-large-files listing.
#[derive(Clone, Debug)]
pub struct B2ListUnfinishedLargeFilesResponse {
    pub files: Vec<B2File>,
    pub next_file_id: Option<String>,
}

/// One page of a part listing.
#[derive(Clone, Debug)]
pub struct B2ListPartsResponse {
    pub next_part_number: Vec<u32>,
    pub parts: Option<B2FilePart>,
}

/// One page of a key listing.
#[derive(Clone, Debug)]
pub struct B2ListKeysResponse {
    pub keys: Vec<B2AppKey>,
    pub next_application_key_id: Option<String>,
}

/// The buckets of an account.
#[derive(Clone, Debug)]
pub struct B2ListBucketsResponse {
    pub buckets: Vec<B2Bucket>,
}

/// Response to a download-authorization request.
#[derive(Clone, Debug)]
pub struct B2GetDownloadAuthorizationBodyResponse {
    pub bucket_id: String,
    pub file_name_prefix: String,
    pub authorization_token: String,
}

/// The event notification rules of a bucket.
#[derive(Clone, Debug)]
pub struct B2BucketNotificationRulesResponseBody {
    pub bucket_id: String,
    pub event_notification_rules: Vec<B2EventNotificationRule>,
}

/// Response to a file-version deletion.
#[derive(Clone, Debug)]
pub struct B2DeleteFileVersionResponse {
    pub file_id: String,
    pub file_name: String,
}

/// Response to cancelling a multipart session.
#[derive(Clone, Debug)]
pub struct B2CancelLargeFileResponse {
    /// The session's file ID.
    pub file_id: String,
    pub account_id: String,
    pub bucket_id: String,
    pub file_name: String,
}

} // verus!
