//! Query parameters of the remote API's listing and download endpoints.
use vstd::prelude::*;

verus! {

/// Parameters of an unfinished-large-files listing.
#[derive(Clone, Debug)]
pub struct B2ListUnfinishedLargeFilesQueryParameters {
    /// The bucket to look in.
    pub bucket_id: String,
    /// Only files whose names match this prefix are returned.
    pub name_prefix: Option<String>,
    /// The first upload to return.
    pub start_file_id: Option<String>,
    /// At most this many files are returned; the default and maximum is 100.
    pub max_file_count: Option<u8>,
}

/// Parameters of a part listing.
#[derive(Clone, Debug)]
pub struct B2ListPartsQueryParameters {
    /// The multipart session whose parts are listed.
    pub file_id: String,
    /// The first part number to return.
    pub start_part_number: Option<u32>,
    /// At most this many parts are returned; the default is 100.
    pub max_part_count: Option<u16>,
}

/// Parameters of a key listing.
#[derive(Clone, Debug)]
pub struct B2ListKeysParameters {
    /// The account whose keys are listed.
    pub account_id: String,
    /// At most this many keys are returned; the default is 100.
    pub max_key_count: Option<u16>,
    /// The first key to return.
    pub start_application_key_id: Option<String>,
}

/// Parameters of a file-version listing.
#[derive(Clone, Debug)]
pub struct B2ListFileVersionsQueryParameters {
    /// The bucket to look in.
    pub bucket_id: String,
    /// The first file name to return.
    pub start_file_name: Option<String>,
    /// The first file ID to return; needs `start_file_name` too.
    pub start_file_id: Option<String>,
    /// At most this many files are returned; the default is 100.
    pub max_file_count: Option<u32>,
    /// Only files whose names match this prefix are returned.
    pub prefix: Option<String>,
    /// Breaks file names into folders at this character.
    pub delimiter: Option<String>,
}

/// Parameters of a file-name listing.
#[derive(Clone, Debug)]
pub struct B2ListFileNamesQueryParameters {
    /// The bucket to look in.
    pub bucket_id: String,
    /// The first file name to return.
    pub start_file_name: Option<String>,
    /// At most this many files are returned; the default is 100.
    pub max_file_count: Option<u32>,
    /// Only files whose names match this prefix are returned.
    pub prefix: Option<String>,
    /// Breaks file names into folders at this character.
    pub delimiter: Option<String>,
}

/// Parameters of a download request; each overrides the header stored when
/// the file was uploaded.
#[derive(Clone, Debug)]
pub struct B2DownloadFileQueryParameters {
    pub b2_content_disposition: Option<String>,
    pub b2_content_language: Option<String>,
    pub b2_expires: Option<String>,
    pub b2_cache_control: Option<String>,
    pub b2_content_encoding: Option<String>,
    pub b2_content_type: Option<String>,
}

} // verus!
