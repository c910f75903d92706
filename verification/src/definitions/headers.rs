//! Header sets carried by upload requests.
use vstd::prelude::*;

use crate::definitions::shared::{
    B2FileLegalHold, B2FileRetentionMode, B2ServerSideEncryption, B2ServerSideEncryptionAlgorithm,
};

verus! {

/// Headers of one part-upload request.
#[derive(Clone, Debug)]
pub struct B2UploadPartHeaders {
    /// The upload authorization token of the slot.
    pub authorization: String,
    /// The 1-based part number.
    pub part_number: u16,
    /// The exact length of the part body in bytes.
    pub content_length: u64,
    /// The SHA1 of the part body as a 40-digit hex string.
    pub content_sha1: String,
    pub server_side_encryption_customer_algorithm: Option<B2ServerSideEncryptionAlgorithm>,
    pub server_side_encryption_customer_key: Option<String>,
    pub server_side_encryption_customer_key_md5: Option<String>,
}

/// Headers of one single-shot upload request.
#[derive(Clone, Debug)]
pub struct B2UploadFileHeaders {
    /// The upload authorization token of the slot.
    pub authorization: String,
    /// The percent-encoded name of the file.
    pub file_name: String,
    /// The MIME type of the file.
    pub content_type: String,
    /// The exact length of the body in bytes.
    pub content_length: u64,
    /// The SHA1 of the body as a 40-digit hex string.
    pub content_sha1: String,
    pub src_last_modified_millis: Option<u64>,
    pub b2_content_disposition: Option<String>,
    pub b2_content_language: Option<String>,
    pub b2_expires: Option<String>,
    pub b2_cache_control: Option<String>,
    pub b2_content_encoding: Option<String>,
    pub custom_upload_timestamp: Option<u64>,
    pub legal_hold: Option<B2FileLegalHold>,
    pub retention_mode: Option<B2FileRetentionMode>,
    pub retention_retain_until_timestamp: Option<u64>,
    pub server_side_encryption: Option<B2ServerSideEncryption>,
    pub server_side_encryption_customer_algorithm: Option<B2ServerSideEncryptionAlgorithm>,
    pub server_side_encryption_customer_key: Option<String>,
    pub server_side_encryption_customer_key_md5: Option<String>,
}

} // verus!
