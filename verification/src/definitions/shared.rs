//! Schema types shared between requests and responses.
use vstd::prelude::*;

verus! {

/// The remote API's endpoints.
#[derive(Clone, Copy, Debug, PartialEq, Eq, Structural)]
pub enum B2Endpoint {
    B2AuthorizeAccount,
    B2CancelLargeFile,
    B2CopyFile,
    B2CopyPart,
    B2CreateBucket,
    B2CreateKey,
    B2DeleteBucket,
    B2DeleteFileVersion,
    B2DeleteKey,
    B2DownloadFileById,
    B2DownloadFileByName,
    B2FinishLargeFile,
    B2GetBucketNotificationRules,
    B2GetDownloadAuthorization,
    B2GetFileInfo,
    B2GetUploadPartUrl,
    B2GetUploadUrl,
    B2HideFile,
    B2ListBuckets,
    B2ListFileNames,
    B2ListFileVersions,
    B2ListKeys,
    B2ListParts,
    B2ListUnfinishedLargeFiles,
    B2SetBucketNotificationRules,
    B2StartLargeFile,
    B2UpdateBucket,
    B2UpdateFileLegalHold,
    B2UpdateFileRetention,
    B2UploadFile,
    B2UploadPart,
}

/// What an application key is allowed to do.
#[derive(Clone, Copy, Debug, PartialEq, Eq, Structural)]
pub enum B2KeyCapability {
    ListKeys,
    WriteKeys,
    DeleteKeys,
    ListBuckets,
    ListAllBucketNames,
    ReadBuckets,
    WriteBuckets,
    DeleteBuckets,
    ReadBucketRetentions,
    WriteBucketRetentions,
    ReadBucketEncryption,
    WriteBucketEncryption,
    ListFiles,
    ReadFiles,
    ShareFiles,
    WriteFiles,
    DeleteFiles,
    ReadFileLegalHolds,
    WriteFileLegalHolds,
    ReadFileRetentions,
    WriteFileRetentions,
    BypassGovernance,
    ReadBucketReplications,
    WriteBucketReplications,
    WriteBucketNotifications,
    ReadBucketNotifications,
    ReadBucketLogging,
    WriteBucketLogging,
}

/// What a stored file record stands for.
#[derive(Clone, Copy, Debug, PartialEq, Eq, Structural)]
pub enum B2Action {
    /// A file that was uploaded.
    Upload,
    /// A large file that has been started but not finished or canceled.
    Start,
    /// A marker hiding the file from name listings.
    Hide,
    /// A virtual folder in a listing.
    Folder,
}

/// A bucket lifecycle rule.
#[derive(Clone, Debug)]
pub struct B2LifeCycleRules {
    pub days_from_hiding_to_deleting: Option<u32>,
    pub days_from_uploading_to_hiding: Option<u32>,
    pub file_name_prefix: String,
}

/// Replication state of a file.
#[derive(Clone, Copy, Debug, PartialEq, Eq, Structural)]
pub enum B2ReplicationStatus {
    Pending,
    Completed,
    Failed,
    Replica,
}

/// Server-side encryption settings of a file or bucket.
#[derive(Clone, Debug)]
pub enum B2ServerSideEncryption {
    /// No server-side encryption.
    Disabled,
    /// Encryption with keys the store manages.
    SseB2 { algorithm: B2ServerSideEncryptionAlgorithm },
    /// Encryption with customer-managed keys.
    SseC {
        algorithm: B2ServerSideEncryptionAlgorithm,
        customer_key: String,
        customer_key_md5: String,
    },
}

/// How long a file retention lasts.
#[derive(Clone, Debug)]
pub struct B2FileRetentionPeriod {
    pub duration: u64,
    pub unit: String,
}

/// Default retention settings of a bucket.
#[derive(Clone, Debug)]
pub struct B2BucketRetention {
    pub mode: Option<String>,
    pub period: Option<B2FileRetentionPeriod>,
}

/// An object-lock value with its default retention.
#[derive(Clone, Debug)]
pub struct B2ObjectLockValue {
    pub default_retention: B2BucketRetention,
    pub is_file_lock_enabled: bool,
}

/// Object-lock retention settings of one file.
#[derive(Clone, Copy, Debug, PartialEq, Eq, Structural)]
pub struct B2BucketFileRetention {
    /// Retention mode.
    pub mode: Option<B2FileRetentionMode>,
    /// Until when the file is retained, in milliseconds since the epoch.
    pub retain_until_timestamp: Option<u64>,
}

/// An object-lock field whose value the key may not be allowed to read.
#[derive(Clone, Debug)]
pub struct B2ObjectLock<T> {
    pub is_client_authorized_to_read: bool,
    pub value: Option<T>,
}

/// What a file version stands for.
#[derive(Clone, Copy, Debug, PartialEq, Eq, Structural)]
pub enum B2FileAction {
    Start,
    Upload,
    Hide,
    Folder,
}

/// A stored file record as the remote store reports it.
#[derive(Clone, Debug)]
pub struct B2File {
    /// The account that owns the file.
    pub account_id: String,
    /// What this record stands for.
    pub action: B2Action,
    /// The bucket the file is in.
    pub bucket_id: String,
    /// The number of bytes stored in the file.
    pub content_length: u64,
    /// The SHA1 of the stored bytes as a 40-digit hex string; "none" for
    /// large files.
    pub content_sha1: Option<String>,
    /// The MD5 of the stored bytes as a 32-digit hex string, when known.
    pub content_md5: Option<String>,
    /// The MIME type of the file.
    pub content_type: Option<String>,
    /// The unique identifier of this version of the file.
    pub file_id: String,
    /// The custom name/value pairs uploaded with the file.
    pub file_info: Vec<(String, String)>,
    /// The name of the file.
    pub file_name: String,
    /// Object-lock retention settings, when readable.
    pub file_retention: Option<B2ObjectLock<B2BucketFileRetention>>,
    /// Object-lock legal hold status, when readable.
    pub legal_hold: Option<B2ObjectLock<B2FileLegalHold>>,
    /// Replication status, when the file is part of a replication rule.
    pub replication_status: Option<B2ReplicationStatus>,
    /// Server-side encryption of the stored data, when any.
    pub server_side_encryption: Option<B2ServerSideEncryption>,
    /// When the file was uploaded, in milliseconds since the epoch.
    pub upload_timestamp: u64,
}

/// The encryption algorithms the store supports.
#[derive(Clone, Copy, Debug, PartialEq, Eq, Structural)]
pub enum B2ServerSideEncryptionAlgorithm {
    AES256,
}

/// Object-lock retention modes.
#[derive(Clone, Copy, Debug, PartialEq, Eq, Structural)]
pub enum B2FileRetentionMode {
    Governance,
    Compliance,
}

/// Object-lock legal hold status.
#[derive(Clone, Copy, Debug, PartialEq, Eq, Structural)]
pub enum B2FileLegalHold {
    On,
    Off,
}

/// Access levels of a bucket.
#[derive(Clone, Copy, Debug, PartialEq, Eq, Structural)]
pub enum B2BucketType {
    /// Anybody can download the files in the bucket.
    AllPublic,
    /// Downloads need an authorization token.
    AllPrivate,
    Restricted,
    /// Snapshots created in the store's web UI.
    Snapshot,
    Shared,
}

/// Access levels a bucket can be updated to.
#[derive(Clone, Copy, Debug, PartialEq, Eq, Structural)]
pub enum B2BucketTypeUpdate {
    AllPublic,
    AllPrivate,
}

/// A cross-origin resource sharing rule of a bucket.
#[derive(Clone, Debug)]
pub struct B2CorsRule {
    pub cors_rule_name: String,
    pub allowed_origins: Vec<String>,
    pub allowed_operations: Vec<B2Endpoint>,
    pub expose_headers: Vec<String>,
    pub max_age_seconds: u32,
}

/// One replication rule of a bucket.
#[derive(Clone, Debug)]
pub struct B2ReplicationRule {
    pub destination_bucket_id: String,
    pub file_name_prefix: String,
    pub include_existing_files: bool,
    pub is_enabled: bool,
    pub priority: u16,
    pub replication_rule_name: String,
}

/// Replication configuration of a bucket.
#[derive(Clone, Debug)]
pub enum B2ReplicationConfig {
    AsReplicationSource {
        replication_rules: Vec<B2ReplicationRule>,
        source_application_key_id: String,
    },
    AsReplicationDestination { source_application_key_id: Vec<(String, String)> },
}

/// Extra options of a bucket or key.
#[derive(Clone, Debug)]
pub enum B2BucketOption {
    S3,
    Unknown(String),
}

/// Events a notification rule can listen for.
#[derive(Clone, Copy, Debug, PartialEq, Eq, Structural)]
pub enum B2EventNotificationEventType {
    ObjectCreatedUpload,
    ObjectCreatedMultipartUpload,
    ObjectCreatedCopy,
    ObjectCreatedReplica,
    ObjectMultipartReplica,
    ObjectCreatedAll,
    ObjectDeleted,
    ObjectDeletedLifecycle,
    ObjectDeletedAll,
    HideMarkerCreated,
    HideMarkerCreatedLifeCycle,
    HideMarkerAll,
    MultiPartUploadCreatedLiveRead,
    MultiPartUploadCreatedAll,
}

/// Where event notifications are delivered.
#[derive(Clone, Copy, Debug, PartialEq, Eq, Structural)]
pub enum B2EventNotificationTargetType {
    Webhook,
}

/// One event notification rule of a bucket.
#[derive(Clone, Debug)]
pub struct B2EventNotificationRule {
    /// The event types the rule listens for.
    pub event_types: Vec<B2EventNotificationEventType>,
    /// Whether the rule is enabled.
    pub is_enabled: bool,
    /// A name unique among the bucket's rules.
    pub name: String,
    /// Which objects the rule applies to.
    pub object_name_prefix: String,
    /// Whether the rule is suspended.
    pub is_suspended: Option<bool>,
    /// Most events one webhook invocation may carry, between 1 and 50.
    pub max_events_per_batch: Option<u8>,
    /// Why the rule was suspended, when it was.
    pub suspension_reason: Option<String>,
    /// Where the events go.
    pub target_configuration: B2NotificationConfiguration,
}

/// The delivery target of an event notification rule.
#[derive(Clone, Debug)]
pub struct B2NotificationConfiguration {
    /// The URL of the webhook.
    pub url: String,
    /// The kind of target.
    pub target_type: B2EventNotificationTargetType,
    /// The secret for signing notifications, when set.
    pub hmac_sha256_signing_secret: Option<String>,
    /// Extra headers sent on the webhook invocation.
    pub custom_headers: Option<Vec<(String, String)>>,
}

/// One uploaded part of a large file.
#[derive(Clone, Debug)]
pub struct B2FilePart {
    pub file_id: String,
    pub part_number: u32,
    pub content_length: u64,
    pub content_sha1: String,
    pub content_md5: Option<String>,
    pub server_side_encryption: B2ServerSideEncryption,
    pub upload_timestamp: u64,
}

/// An application key record.
#[derive(Clone, Debug)]
pub struct B2AppKey {
    /// The account the key belongs to.
    pub account_id: String,
    /// The identifier of the key.
    pub application_key_id: String,
    /// The secret part; only returned when the key is created.
    pub application_key: Option<String>,
    /// When present, access is restricted to one bucket.
    pub bucket_id: Option<String>,
    /// What the key may do.
    pub capabilities: Vec<B2KeyCapability>,
    /// When the key expires, in milliseconds since the epoch.
    pub expiration_timestamp: Option<u64>,
    /// The name given when the key was created.
    pub key_name: String,
    /// When present, access is restricted to files under this prefix.
    pub name_prefix: Option<String>,
    /// Extra options of the key.
    pub options: Option<Vec<B2BucketOption>>,
}

/// A bucket record.
#[derive(Clone, Debug)]
pub struct B2Bucket {
    pub account_id: String,
    pub bucket_id: String,
    pub bucket_name: String,
    pub bucket_type: B2BucketType,
    pub bucket_info: Vec<(String, String)>,
    pub cors_rules: Vec<B2CorsRule>,
    pub file_lock_configuration: B2ObjectLock<B2BucketFileRetention>,
    pub default_server_side_encryption: B2ServerSideEncryption,
    pub life_cycle_rules: Option<Vec<B2LifeCycleRules>>,
    pub replication_configuration: B2ReplicationConfig,
    pub revision: u32,
    pub options: Option<Vec<B2BucketOption>>,
}

/// Encryption settings together with the customer's key material.
#[derive(Clone, Debug)]
pub struct B2CustomerAgnosticServerSideEncryption {
    pub customer_key: String,
    pub customer_key_md5: String,
    pub server_side_encryption: B2ServerSideEncryption,
}

/// How metadata is populated when copying a file.
#[derive(Clone, Copy, Debug, PartialEq, Eq, Structural)]
pub enum B2MetadataDirective {
    Copy,
}

/// Details of a downloaded file.
#[derive(Clone, Debug)]
pub struct B2FileDownloadDetails {
    pub content_length: u64,
    pub content_type: String,
    pub file_id: String,
    pub file_name: String,
    pub content_sha1: Option<String>,
    pub upload_timestamp: u64,
    pub file_info: Option<Vec<(String, String)>>,
}

} // verus!
