//! Configuration of an upload task: the single-shot/multipart cutoff, the
//! load and retry strategies, an optional speed throttle, and the extra
//! per-request settings the store accepts.
use vstd::prelude::*;

use crate::chunking::{LargeFileLoadStrategy, MAX_PART_SIZE, MIN_PART_SIZE};
use crate::definitions::bodies::B2StartLargeFileUploadBody;
use crate::definitions::headers::{B2UploadFileHeaders, B2UploadPartHeaders};
use crate::definitions::shared::{
    B2BucketFileRetention, B2FileLegalHold, B2ServerSideEncryption,
};
use crate::digest::{spec_u64_dec, u64_to_string};
use crate::is_valid::{InvalidValue, IsValid};
use crate::retry::RetryStrategy;
use crate::size_unit;
use crate::throttle::Throttle;

verus! {

/// Options of one file upload.
#[derive(Clone, Debug)]
pub struct FileUploadOptions {
    /// Above this many bytes the upload becomes a multipart session; must
    /// lie in [`MIN_PART_SIZE`, `MAX_PART_SIZE`].
    pub large_file_cutoff: u64,
    /// How a large file is split into parts and groups.
    pub file_load_strategy: LargeFileLoadStrategy,
    /// An upload speed limit, when one is wanted.
    pub speed_throttle: Option<Throttle>,
    /// How failed whole-path attempts are retried.
    pub retry_strategy: RetryStrategy,
    /// The extra per-request settings the store accepts.
    pub options: B2FileUploadSettings,
}

impl Default for FileUploadOptions {
    /// A 200 MiB cutoff, the adaptive load strategy, no throttle, the
    /// dynamic retry policy, and plain settings.
    fn default() -> (r: Self)
        ensures
            r.large_file_cutoff == 200 * size_unit::MEBIBYTE,
            r.file_load_strategy is Dynamic,
            r.speed_throttle is None,
            r.retry_strategy is Dynamic,
            B2FileUploadSettings::spec_is_default(r.options),
            r.valid(),
    {
        FileUploadOptions {
            large_file_cutoff: 200 * size_unit::MEBIBYTE,
            file_load_strategy: Default::default(),
            speed_throttle: None,
            retry_strategy: Default::default(),
            options: Default::default(),
        }
    }
}

impl IsValid for FileUploadOptions {
    open spec fn valid(&self) -> bool {
        MIN_PART_SIZE <= self.large_file_cutoff <= MAX_PART_SIZE
    }

    open spec fn invalid_field(&self) -> Seq<char> {
        "large_file_cutoff"@
    }

    fn is_valid(&self) -> (r: Result<(), InvalidValue>) {
        if self.large_file_cutoff < MIN_PART_SIZE || self.large_file_cutoff > MAX_PART_SIZE {
            return Err(
                InvalidValue {
                    object_name: "FileUploadOptions".to_string(),
                    value_name: "large_file_cutoff".to_string(),
                    value_as_string: u64_to_string(self.large_file_cutoff),
                    expected: "5 MiB - 5 GiB".to_string(),
                },
            );
        }
        Ok(())
    }
}

/// The pairs of custom file info that the settings contribute to a
/// multipart session, as views, in the order they are appended.
pub open spec fn spec_settings_info_extras(s: B2FileUploadSettings) -> Seq<
    (Seq<char>, Seq<char>),
> {
    let e = Seq::<(Seq<char>, Seq<char>)>::empty();
    let e = match s.src_last_modified_millis {
        Some(v) => e.push(("src_last_modified_millis"@, spec_u64_dec(v as int))),
        None => e,
    };
    let e = match s.b2_content_disposition {
        Some(v) => e.push(("b2-content-disposition"@, v@)),
        None => e,
    };
    let e = match s.b2_content_language {
        Some(v) => e.push(("b2-content-language"@, v@)),
        None => e,
    };
    let e = match s.b2_expires {
        Some(v) => e.push(("b2-expires"@, v@)),
        None => e,
    };
    let e = match s.b2_cache_control {
        Some(v) => e.push(("b2-cache-control"@, v@)),
        None => e,
    };
    match s.b2_content_encoding {
        Some(v) => e.push(("b2-content-encoding"@, v@)),
        None => e,
    }
}

/// The views of a pair list.
pub open spec fn pair_views(s: Seq<(String, String)>) -> Seq<(Seq<char>, Seq<char>)> {
    s.map_values(|p: (String, String)| (p.0@, p.1@))
}

/// The extra per-request settings of an upload.
#[derive(Clone, Debug)]
pub struct B2FileUploadSettings {
    /// The MIME type stored with the file.
    pub content_type: String,
    pub src_last_modified_millis: Option<u64>,
    pub b2_content_disposition: Option<String>,
    pub b2_content_language: Option<String>,
    pub b2_expires: Option<String>,
    pub b2_cache_control: Option<String>,
    pub b2_content_encoding: Option<String>,
    pub custom_upload_timestamp: Option<u64>,
    pub legal_hold: Option<B2FileLegalHold>,
    pub file_retention: Option<B2BucketFileRetention>,
    pub server_side_encryption: Option<B2ServerSideEncryption>,
}

impl B2FileUploadSettings {
    /// The default settings: content type left for the store to detect,
    /// everything else absent.
    pub open spec fn spec_is_default(s: B2FileUploadSettings) -> bool {
        &&& s.content_type@ == "b2/x-auto"@
        &&& s.src_last_modified_millis is None
        &&& s.b2_content_disposition is None
        &&& s.b2_content_language is None
        &&& s.b2_expires is None
        &&& s.b2_cache_control is None
        &&& s.b2_content_encoding is None
        &&& s.custom_upload_timestamp is None
        &&& s.legal_hold is None
        &&& s.file_retention is None
        &&& s.server_side_encryption is None
    }

    /// Writes these settings into single-shot upload headers.
    pub fn apply_file_upload(self, u: B2UploadFileHeaders) -> (r: B2UploadFileHeaders)
        ensures
            r.authorization == u.authorization,
            r.file_name == u.file_name,
            r.content_length == u.content_length,
            r.content_sha1 == u.content_sha1,
            r.content_type == self.content_type,
            r.src_last_modified_millis == self.src_last_modified_millis,
            r.b2_content_disposition == self.b2_content_disposition,
            r.b2_content_language == self.b2_content_language,
            r.b2_expires == self.b2_expires,
            r.b2_cache_control == self.b2_cache_control,
            r.b2_content_encoding == self.b2_content_encoding,
            r.custom_upload_timestamp == self.custom_upload_timestamp,
            r.legal_hold == self.legal_hold,
            r.server_side_encryption == self.server_side_encryption,
            r.retention_mode == match self.file_retention {
                Some(ret) => ret.mode,
                None => u.retention_mode,
            },
            r.retention_retain_until_timestamp == match self.file_retention {
                Some(ret) => ret.retain_until_timestamp,
                None => u.retention_retain_until_timestamp,
            },
            r.server_side_encryption_customer_algorithm
                == u.server_side_encryption_customer_algorithm,
            r.server_side_encryption_customer_key == u.server_side_encryption_customer_key,
            r.server_side_encryption_customer_key_md5 == u.server_side_encryption_customer_key_md5,
    {
        let mut u = u;
        u.content_type = self.content_type;
        u.src_last_modified_millis = self.src_last_modified_millis;
        u.b2_content_disposition = self.b2_content_disposition;
        u.b2_content_language = self.b2_content_language;
        u.b2_expires = self.b2_expires;
        u.b2_cache_control = self.b2_cache_control;
        u.b2_content_encoding = self.b2_content_encoding;
        u.custom_upload_timestamp = self.custom_upload_timestamp;
        u.legal_hold = self.legal_hold;
        if let Some(retention) = self.file_retention {
            u.retention_mode = retention.mode;
            u.retention_retain_until_timestamp = retention.retain_until_timestamp;
        }
        u.server_side_encryption = self.server_side_encryption;
        u
    }

    /// Writes these settings into the body that opens a multipart session;
    /// settings that travel as custom file info are appended to the body's
    /// info pairs, when the body carries any.
    pub fn apply_large_file_upload(self, u: B2StartLargeFileUploadBody) -> (r:
        B2StartLargeFileUploadBody)
        ensures
            r.bucket_id == u.bucket_id,
            r.file_name == u.file_name,
            r.content_type == self.content_type,
            r.custom_upload_timestamp == self.custom_upload_timestamp,
            r.legal_hold == self.legal_hold,
            r.file_retention == self.file_retention,
            r.server_side_encryption == self.server_side_encryption,
            r.file_info is Some <==> u.file_info is Some,
            u.file_info matches Some(base) ==> r.file_info matches Some(out) && pair_views(out@)
                == pair_views(base@) + spec_settings_info_extras(self),
    {
        let ghost spec_self = self;
        let mut u = u;
        u.content_type = self.content_type;
        u.custom_upload_timestamp = self.custom_upload_timestamp;
        u.legal_hold = self.legal_hold;
        u.file_retention = self.file_retention;
        u.server_side_encryption = self.server_side_encryption;
        let info = match u.file_info {
            Some(mut info) => {
                let ghost base = info@;
                if let Some(v) = self.src_last_modified_millis {
                    info.push(("src_last_modified_millis".to_string(), u64_to_string(v)));
                }
                if let Some(v) = self.b2_content_disposition {
                    info.push(("b2-content-disposition".to_string(), v));
                }
                if let Some(v) = self.b2_content_language {
                    info.push(("b2-content-language".to_string(), v));
                }
                if let Some(v) = self.b2_expires {
                    info.push(("b2-expires".to_string(), v));
                }
                if let Some(v) = self.b2_cache_control {
                    info.push(("b2-cache-control".to_string(), v));
                }
                if let Some(v) = self.b2_content_encoding {
                    info.push(("b2-content-encoding".to_string(), v));
                }
                proof {
                    assert(pair_views(info@) =~= pair_views(base) + spec_settings_info_extras(
                        spec_self,
                    ));
                }
                Some(info)
            }
            None => None,
        };
        u.file_info = info;
        u
    }

    /// Writes these settings into part-upload headers: only customer-key
    /// encryption parameters travel with a part.
    pub fn apply_file_part_upload(self, u: B2UploadPartHeaders) -> (r: B2UploadPartHeaders)
        ensures
            r.authorization == u.authorization,
            r.part_number == u.part_number,
            r.content_length == u.content_length,
            r.content_sha1 == u.content_sha1,
            match self.server_side_encryption {
                Some(B2ServerSideEncryption::SseB2 { algorithm }) => {
                    &&& r.server_side_encryption_customer_algorithm == Some(algorithm)
                    &&& r.server_side_encryption_customer_key
                        == u.server_side_encryption_customer_key
                    &&& r.server_side_encryption_customer_key_md5
                        == u.server_side_encryption_customer_key_md5
                },
                Some(
                    B2ServerSideEncryption::SseC { algorithm, customer_key, customer_key_md5 },
                ) => {
                    &&& r.server_side_encryption_customer_algorithm == Some(algorithm)
                    &&& r.server_side_encryption_customer_key == Some(customer_key)
                    &&& r.server_side_encryption_customer_key_md5 == Some(customer_key_md5)
                },
                _ => {
                    &&& r.server_side_encryption_customer_algorithm
                        == u.server_side_encryption_customer_algorithm
                    &&& r.server_side_encryption_customer_key
                        == u.server_side_encryption_customer_key
                    &&& r.server_side_encryption_customer_key_md5
                        == u.server_side_encryption_customer_key_md5
                },
            },
    {
        let mut u = u;
        if let Some(enc) = self.server_side_encryption {
            match enc {
                B2ServerSideEncryption::SseB2 { algorithm } => {
                    u.server_side_encryption_customer_algorithm = Some(algorithm);
                }
                B2ServerSideEncryption::SseC { algorithm, customer_key, customer_key_md5 } => {
                    u.server_side_encryption_customer_algorithm = Some(algorithm);
                    u.server_side_encryption_customer_key = Some(customer_key);
                    u.server_side_encryption_customer_key_md5 = Some(customer_key_md5);
                }
                B2ServerSideEncryption::Disabled => {}
            }
        }
        u
    }
}

impl Default for B2FileUploadSettings {
    fn default() -> (r: Self)
        ensures
            B2FileUploadSettings::spec_is_default(r),
    {
        B2FileUploadSettings {
            content_type: "b2/x-auto".to_string(),
            src_last_modified_millis: None,
            b2_content_disposition: None,
            b2_content_language: None,
            b2_expires: None,
            b2_cache_control: None,
            b2_content_encoding: None,
            custom_upload_timestamp: None,
            legal_hold: None,
            file_retention: None,
            server_side_encryption: None,
        }
    }
}

} // verus!
