//! Request bodies of the remote API's endpoints.
use vstd::prelude::*;

use crate::definitions::shared::{
    B2BucketFileRetention, B2BucketRetention, B2BucketType, B2BucketTypeUpdate, B2CorsRule,
    B2CustomerAgnosticServerSideEncryption, B2FileLegalHold, B2KeyCapability, B2LifeCycleRules,
    B2MetadataDirective, B2ReplicationConfig, B2ServerSideEncryption,
};

verus! {

/// Body of a file-copy request.
#[derive(Clone, Debug)]
pub struct B2CopyFileBody {
    /// The ID of the source file being copied.
    pub source_file_id: String,
    /// The destination bucket; the source file's bucket when absent.
    pub large_file_id: Option<String>,
    /// The name of the new file.
    pub file_name: String,
    /// The byte range to copy; the whole file when absent.
    pub range: Option<String>,
    /// How metadata of the new file is populated.
    pub metadata_directive: Option<B2MetadataDirective>,
    /// The MIME type of the new file, when metadata is replaced.
    pub content_type: Option<String>,
    /// Custom file info of the new file, when metadata is replaced.
    pub file_info: Option<Vec<(String, String)>>,
    /// Object-lock retention settings of the new file.
    pub file_retention: Option<B2BucketFileRetention>,
    /// Object-lock legal hold status of the new file.
    pub legal_hold: Option<B2FileLegalHold>,
    /// Encryption parameters for reading the source file.
    pub source_server_side_encryption: Option<B2CustomerAgnosticServerSideEncryption>,
    /// Encryption parameters for storing the destination file.
    pub destination_server_side_encryption: Option<B2CustomerAgnosticServerSideEncryption>,
}

/// Body of a part-copy request.
#[derive(Clone, Debug)]
pub struct B2CopyPartBody {
    /// The ID of the source file being copied.
    pub source_file_id: String,
    /// The large file the part will belong to.
    pub large_file_id: String,
    /// A number from 1 to 10000; parts of one file are contiguous from 1.
    pub part_number: u16,
    /// The byte range to copy; the whole file when absent.
    pub range: Option<String>,
    /// Encryption parameters for reading the source file.
    pub source_server_side_encryption: Option<B2CustomerAgnosticServerSideEncryption>,
    /// Encryption parameters for storing the destination part.
    pub destination_server_side_encryption: Option<B2CustomerAgnosticServerSideEncryption>,
}

/// Body of a bucket-creation request.
#[derive(Clone, Debug)]
pub struct B2CreateBucketBody {
    pub account_id: String,
    pub bucket_name: String,
    pub bucket_type: B2BucketType,
    pub bucket_info: Option<Vec<(String, String)>>,
    pub cors_rules: Option<Vec<B2CorsRule>>,
    pub file_lock_enabled: Option<bool>,
    pub life_cycle_rules: Option<Vec<B2LifeCycleRules>>,
    pub replication_configuration: Option<B2ReplicationConfig>,
    pub default_server_side_encryption: Option<B2ServerSideEncryption>,
}

/// Body of a file-retention update.
#[derive(Clone, Debug)]
pub struct B2UpdateFileRetentionBody {
    pub file_name: String,
    pub file_id: String,
    pub file_retention: B2BucketFileRetention,
    pub bypass_governance: Option<bool>,
}

/// Body that finishes a multipart session: the session's file ID and the
/// part checksums in part order, the hash of part 1 first.
#[derive(Clone, Debug)]
pub struct B2FinishLargeFileBody {
    /// The ID the session was opened with.
    pub file_id: String,
    /// Hex SHA1 checksums of the parts, ordered by part number.
    pub part_sha1_array: Vec<String>,
}

/// Body that opens a multipart session.
#[derive(Clone, Debug)]
pub struct B2StartLargeFileUploadBody {
    /// The bucket the file will go in.
    pub bucket_id: String,
    /// The name of the file.
    pub file_name: String,
    /// The MIME type of the file's content.
    pub content_type: String,
    /// An upload timestamp to use instead of the server's.
    pub custom_upload_timestamp: Option<u64>,
    /// Custom name/value pairs stored with the file.
    pub file_info: Option<Vec<(String, String)>>,
    /// Object-lock retention settings of the new file.
    pub file_retention: Option<B2BucketFileRetention>,
    /// Object-lock legal hold status of the new file.
    pub legal_hold: Option<B2FileLegalHold>,
    /// Encryption parameters for storing the file.
    pub server_side_encryption: Option<B2ServerSideEncryption>,
}

/// Body and response of a legal-hold update; the endpoint echoes the shape.
#[derive(Clone, Debug)]
pub struct B2UpdateFileLegalHoldBodyResponse {
    pub file_id: String,
    pub file_name: String,
    pub legal_hold: B2FileLegalHold,
}

/// Body of a bucket update.
#[derive(Clone, Debug)]
pub struct B2UpdateBucketBody {
    pub account_id: String,
    pub bucket_id: String,
    pub bucket_type: Option<B2BucketTypeUpdate>,
    pub bucket_info: Option<Vec<(String, String)>>,
    pub cors_rules: Option<Vec<B2CorsRule>>,
    pub default_retention: Option<B2BucketRetention>,
    pub default_server_side_encryption: Option<B2ServerSideEncryption>,
    pub file_lock_enabled: Option<bool>,
    pub life_cycle_rules: Option<Vec<B2LifeCycleRules>>,
    pub replication_configuration: Option<B2ReplicationConfig>,
    pub if_revision_is: Option<u32>,
}

/// A bucket-type filter of a listing request: every type, or a given list.
#[derive(Clone, Debug)]
pub enum B2BucketTypeList {
    All,
    Types(Vec<B2BucketType>),
}

/// Body of a bucket-listing request.
#[derive(Clone, Debug)]
pub struct B2ListBucketsBody {
    pub account_id: String,
    pub bucket_id: Option<String>,
    pub bucket_name: Option<String>,
    pub bucket_types: Option<Vec<B2BucketTypeList>>,
}

/// Body of a download-authorization request.
#[derive(Clone, Debug)]
pub struct B2GetDownloadAuthorizationBody {
    pub bucket_id: String,
    pub file_name_prefix: String,
    pub valid_duration_in_seconds: u64,
    pub b2_content_disposition: Option<String>,
    pub b2_content_language: Option<String>,
    pub b2_expires: Option<String>,
    pub b2_cache_control: Option<String>,
    pub b2_content_encoding: Option<String>,
    pub b2_content_type: Option<String>,
}

/// Body of a file-version deletion.
#[derive(Clone, Debug)]
pub struct B2DeleteFileVersionBody {
    pub file_name: String,
    pub file_id: String,
    pub bypass_governance: Option<bool>,
}

/// Body of a key-creation request.
#[derive(Clone, Debug)]
pub struct B2CreateKeyBody {
    pub account_id: String,
    pub capabilities: Vec<B2KeyCapability>,
    pub key_name: String,
    pub valid_duration_in_seconds: Option<u64>,
    pub bucket_id: Option<String>,
    pub name_prefix: Option<String>,
}

} // verus!
