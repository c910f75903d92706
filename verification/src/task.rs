//! The upload task's state machine: the lifecycle guard, path selection,
//! the outer retry loop's decisions, cancellation, and the construction of
//! every request the task issues. The unverified shell owns the clock, the
//! byte source and the network; it feeds results back into this machine and
//! obeys its decisions.
//!
//! Lifecycle: `Pending` is the only state `begin` accepts; the task then
//! works, possibly alternating `Working` and `Retrying` under the retry
//! policy, until it reaches `Finished`, or `Aborted` after an effectual
//! `abort`. Terminal states never change again.
use vstd::prelude::*;

use crate::checksum::{try_finish_body, LargeFileSha1};
use crate::chunking::{ConstantLargeFileLoadStrategy, LargeFileLoadStrategy};
use crate::definitions::bodies::{B2FinishLargeFileBody, B2StartLargeFileUploadBody};
use crate::definitions::headers::B2UploadFileHeaders;
use crate::digest::{random_id, sha1_hex, sha1_hex_of, url_encode, url_encoded_of};
use crate::error::FileUploadError;
use crate::is_valid::IsValid;
use crate::options::{
    pair_views, spec_settings_info_extras, B2FileUploadSettings, FileUploadOptions,
};
use crate::progress::FileNetworkStats;

verus! {

/// Where an upload task stands in its lifecycle.
#[derive(Clone, Copy, Debug, PartialEq, Eq, Structural)]
pub enum FileStatus {
    /// Created and not yet started.
    Pending,
    /// An attempt is running.
    Working,
    /// The task ended; completion callbacks have fired.
    Finished,
    /// Waiting out the backoff before the next attempt.
    Retrying,
    /// Cancellation was requested and took effect.
    Aborted,
}

/// Which path an attempt takes.
#[derive(Clone, Copy, Debug, PartialEq, Eq, Structural)]
pub enum UploadPath {
    /// The whole source goes out as one request.
    Single,
    /// A multipart session with the resolved load parameters.
    Multipart(ConstantLargeFileLoadStrategy),
}

/// What the outer retry loop does after an attempt.
#[derive(Clone, Copy, Debug, PartialEq, Eq, Structural)]
pub enum OuterDecision {
    /// Cancellation superseded the attempt's outcome; stop now.
    Abort,
    /// Stop and surface the attempt's outcome; the attempt budget is spent
    /// or the attempt succeeded.
    Finish,
    /// Wait this many milliseconds, racing the cancellation signal, then
    /// run the whole path again from scratch.
    Retry { wait_ms: u64 },
}

/// The identity and configuration of one upload.
#[derive(Clone, Debug)]
pub struct UploadFileDetails {
    /// Total bytes the source holds.
    pub file_size: u64,
    /// The name the file gets in the store.
    pub file_name: String,
    /// The bucket the file goes into.
    pub bucket_id: String,
    /// Custom name/value pairs stored with the file.
    pub optional_info: Option<Vec<(String, String)>>,
    /// The task's configuration.
    pub options: FileUploadOptions,
}

/// One upload task.
#[derive(Clone, Debug)]
pub struct FileUpload {
    /// An opaque identifier drawn at creation.
    pub id: u64,
    /// What is uploaded and how.
    pub details: UploadFileDetails,
    /// Where the task stands in its lifecycle.
    pub status: FileStatus,
    /// The open multipart session, while one exists.
    pub large_file_id: Option<String>,
    /// Progress accounting.
    pub stats: FileNetworkStats,
    /// Whether cancellation has been requested.
    pub abort_requested: bool,
    /// The attempt counter of the outer retry loop.
    pub curr_retry_count: u64,
    /// Whether the current attempt has already issued its one single-shot
    /// upload request.
    pub single_issued_this_attempt: bool,
    /// Whether the current attempt has already opened its one multipart
    /// session.
    pub session_opened_this_attempt: bool,
    /// How many single-shot upload requests the task has issued.
    pub single_uploads_issued: u64,
    /// How many multipart sessions the task has opened.
    pub sessions_opened: u64,
    /// How many finalize requests the task has issued.
    pub finishes_issued: u64,
}

impl FileUpload {
    /// Whether the task's size puts it on the single-shot path.
    pub open spec fn is_single_path(&self) -> bool {
        self.details.file_size <= self.details.options.large_file_cutoff
    }

    /// A task on the single-shot path has no business with sessions: it
    /// never opens one and never finalizes one.
    pub open spec fn wf(&self) -> bool {
        &&& self.stats.wf()
        &&& self.is_single_path() ==> self.sessions_opened == 0 && self.finishes_issued == 0
    }

    /// A fresh task over a byte source of known size.
    pub fn new(
        file_name: String,
        bucket_id: String,
        optional_info: Option<Vec<(String, String)>>,
        file_size: u64,
        options: FileUploadOptions,
        now_ms: u64,
    ) -> (r: Self)
        ensures
            r.wf(),
            r.details.file_size == file_size,
            r.details.file_name == file_name,
            r.details.bucket_id == bucket_id,
            r.details.optional_info == optional_info,
            r.details.options == options,
            r.status == FileStatus::Pending,
            r.large_file_id is None,
            r.stats.done == 0,
            r.stats.total == file_size,
            !r.abort_requested,
            r.curr_retry_count == 0,
            !r.single_issued_this_attempt,
            !r.session_opened_this_attempt,
            r.single_uploads_issued == 0,
            r.sessions_opened == 0,
            r.finishes_issued == 0,
    {
        FileUpload {
            id: random_id(),
            details: UploadFileDetails {
                file_size,
                file_name,
                bucket_id,
                optional_info,
                options,
            },
            status: FileStatus::Pending,
            large_file_id: None,
            stats: FileNetworkStats::new(file_size, now_ms),
            abort_requested: false,
            curr_retry_count: 0,
            single_issued_this_attempt: false,
            session_opened_this_attempt: false,
            single_uploads_issued: 0,
            sessions_opened: 0,
            finishes_issued: 0,
        }
    }

    /// Returns the task's identifier.
    pub fn id(&self) -> (r: u64)
        ensures
            r == self.id,
    {
        self.id
    }

    /// Returns the task's current state.
    pub fn status(&self) -> (r: FileStatus)
        ensures
            r == self.status,
    {
        self.status
    }

    /// Returns true when the task has finished or has been aborted.
    pub fn has_stopped(&self) -> (r: bool)
        ensures
            r <==> (self.status == FileStatus::Finished || self.status == FileStatus::Aborted),
    {
        self.status == FileStatus::Finished || self.status == FileStatus::Aborted
    }

    /// Guards and opens a run: only a pending task may start, its options
    /// must validate, and on the multipart path the resolved load strategy
    /// must validate too — all before any network activity. On success the
    /// task is working, the attempt counter starts at one, and the chosen
    /// path is returned.
    pub fn begin(&mut self) -> (r: Result<UploadPath, FileUploadError>)
        ensures
            old(self).status != FileStatus::Pending ==> r == Err::<UploadPath, FileUploadError>(
                FileUploadError::AlreadyStarted,
            ) && *final(self) == *old(self),
            old(self).status == FileStatus::Pending && !old(self).details.options.valid() ==> (
            r matches Err(e) && e is InvalidOptions) && *final(self) == *old(self),
            ({
                let strat = old(self).details.options.file_load_strategy.spec_resolve(
                    old(self).details.file_size,
                );
                &&& (old(self).status == FileStatus::Pending && old(self).details.options.valid()
                    && old(self).is_single_path()) ==> r == Ok::<UploadPath, FileUploadError>(
                    UploadPath::Single,
                ) && *final(self) == (FileUpload {
                    status: FileStatus::Working,
                    curr_retry_count: 1,
                    ..*old(self)
                })
                &&& (old(self).status == FileStatus::Pending && old(self).details.options.valid()
                    && !old(self).is_single_path() && !strat.valid()) ==> (r matches Err(e)
                    && e is InvalidOptions) && *final(self) == *old(self)
                &&& (old(self).status == FileStatus::Pending && old(self).details.options.valid()
                    && !old(self).is_single_path() && strat.valid()) ==> r == Ok::<
                    UploadPath,
                    FileUploadError,
                >(UploadPath::Multipart(strat)) && *final(self) == (FileUpload {
                    status: FileStatus::Working,
                    curr_retry_count: 1,
                    ..*old(self)
                })
            }),
    {
        if self.status != FileStatus::Pending {
            return Err(FileUploadError::AlreadyStarted);
        }
        match self.details.options.is_valid() {
            Ok(()) => {}
            Err(iv) => {
                return Err(FileUploadError::InvalidOptions(iv));
            }
        }
        if self.details.file_size <= self.details.options.large_file_cutoff {
            self.status = FileStatus::Working;
            self.curr_retry_count = 1;
            Ok(UploadPath::Single)
        } else {
            let strat = self.details.options.file_load_strategy.resolve(self.details.file_size);
            match strat.is_valid() {
                Ok(()) => {}
                Err(iv) => {
                    return Err(FileUploadError::InvalidOptions(iv));
                }
            }
            self.status = FileStatus::Working;
            self.curr_retry_count = 1;
            Ok(UploadPath::Multipart(strat))
        }
    }

    /// Builds the headers of the one single-shot upload request of an
    /// attempt: the file name percent-encoded, the content length and SHA1
    /// taken from the bytes themselves, the slot's token, and the task's
    /// per-request settings applied. Counts the request.
    pub fn prepare_single_upload(
        &mut self,
        data: &[u8],
        auth_token: String,
        settings: B2FileUploadSettings,
    ) -> (r: B2UploadFileHeaders)
        requires
            old(self).status == FileStatus::Working,
            !old(self).single_issued_this_attempt,
            old(self).single_uploads_issued < u64::MAX,
        ensures
            *final(self) == (FileUpload {
                single_uploads_issued: (old(self).single_uploads_issued + 1) as u64,
                single_issued_this_attempt: true,
                ..*old(self)
            }),
            r.authorization == auth_token,
            r.file_name@ == url_encoded_of(old(self).details.file_name@),
            r.content_length == data@.len(),
            r.content_sha1@ == sha1_hex_of(data@),
            r.content_type == settings.content_type,
            r.src_last_modified_millis == settings.src_last_modified_millis,
            r.b2_content_disposition == settings.b2_content_disposition,
            r.b2_content_language == settings.b2_content_language,
            r.b2_expires == settings.b2_expires,
            r.b2_cache_control == settings.b2_cache_control,
            r.b2_content_encoding == settings.b2_content_encoding,
            r.custom_upload_timestamp == settings.custom_upload_timestamp,
            r.legal_hold == settings.legal_hold,
            r.server_side_encryption == settings.server_side_encryption,
            r.retention_mode == match settings.file_retention {
                Some(ret) => ret.mode,
                None => None,
            },
            r.retention_retain_until_timestamp == match settings.file_retention {
                Some(ret) => ret.retain_until_timestamp,
                None => None,
            },
            old(self).wf() ==> final(self).wf(),
    {
        let sha1 = sha1_hex(data);
        let file_name = url_encode(self.details.file_name.as_str());
        let base = B2UploadFileHeaders {
            authorization: auth_token,
            file_name,
            content_type: String::new(),
            content_length: data.len() as u64,
            content_sha1: sha1,
            src_last_modified_millis: None,
            b2_content_disposition: None,
            b2_content_language: None,
            b2_expires: None,
            b2_cache_control: None,
            b2_content_encoding: None,
            custom_upload_timestamp: None,
            legal_hold: None,
            retention_mode: None,
            retention_retain_until_timestamp: None,
            server_side_encryption: None,
            server_side_encryption_customer_algorithm: None,
            server_side_encryption_customer_key: None,
            server_side_encryption_customer_key_md5: None,
        };
        let r = settings.apply_file_upload(base);
        self.single_uploads_issued = self.single_uploads_issued + 1;
        self.single_issued_this_attempt = true;
        r
    }

    /// Builds the body that opens a multipart session: the task's bucket
    /// and file name, the given custom file info with the settings'
    /// contributions appended, and the settings applied. Only a task above
    /// the cutoff opens sessions. Counts the session.
    pub fn start_large_file_body(
        &mut self,
        settings: B2FileUploadSettings,
        file_info: Option<Vec<(String, String)>>,
    ) -> (r: B2StartLargeFileUploadBody)
        requires
            old(self).status == FileStatus::Working,
            !old(self).is_single_path(),
            !old(self).session_opened_this_attempt,
            old(self).sessions_opened < u64::MAX,
        ensures
            *final(self) == (FileUpload {
                sessions_opened: (old(self).sessions_opened + 1) as u64,
                session_opened_this_attempt: true,
                ..*old(self)
            }),
            r.bucket_id@ == old(self).details.bucket_id@,
            r.file_name@ == old(self).details.file_name@,
            r.content_type == settings.content_type,
            r.custom_upload_timestamp == settings.custom_upload_timestamp,
            r.legal_hold == settings.legal_hold,
            r.file_retention == settings.file_retention,
            r.server_side_encryption == settings.server_side_encryption,
            r.file_info is Some <==> file_info is Some,
            file_info matches Some(base) ==> r.file_info matches Some(out) && pair_views(out@)
                == pair_views(base@) + spec_settings_info_extras(settings),
            old(self).wf() ==> final(self).wf(),
    {
        let base = B2StartLargeFileUploadBody {
            bucket_id: self.details.bucket_id.clone(),
            file_name: self.details.file_name.clone(),
            content_type: String::new(),
            custom_upload_timestamp: None,
            file_info,
            file_retention: None,
            legal_hold: None,
            server_side_encryption: None,
        };
        let r = settings.apply_large_file_upload(base);
        self.sessions_opened = self.sessions_opened + 1;
        self.session_opened_this_attempt = true;
        r
    }

    /// Records the session the remote store opened; `abort` cancels it
    /// best-effort while it stands.
    pub fn on_session_opened(&mut self, file_id: String)
        ensures
            *final(self) == (FileUpload { large_file_id: Some(file_id), ..*old(self) }),
            old(self).wf() ==> final(self).wf(),
    {
        self.large_file_id = Some(file_id);
    }

    /// Builds the finalize request, but only for a task that is still
    /// working under an open session and whose checksum table is fully
    /// populated: an aborted task and an unfilled slot both yield nothing,
    /// so no finalize call can follow either. Counts the request when one
    /// is built.
    pub fn finish_session_body(&mut self, table: &LargeFileSha1) -> (r: Option<
        B2FinishLargeFileBody,
    >)
        requires
            !old(self).is_single_path(),
            old(self).large_file_id is Some,
            old(self).finishes_issued < u64::MAX,
        ensures
            r is Some <==> (old(self).status == FileStatus::Working && table.all_filled()),
            r matches Some(b) ==> b.file_id@ == old(self).large_file_id->0@ && b.part_sha1_array@
                == table.slots@ && *final(self) == (FileUpload {
                finishes_issued: (old(self).finishes_issued + 1) as u64,
                ..*old(self)
            }),
            r is None ==> *final(self) == *old(self),
            old(self).wf() ==> final(self).wf(),
    {
        if self.status != FileStatus::Working {
            return None;
        }
        let file_id = match &self.large_file_id {
            Some(s) => s.clone(),
            None => {
                proof {
                    assert(false);
                }
                String::new()
            }
        };
        match try_finish_body(file_id, table) {
            Some(body) => {
                self.finishes_issued = self.finishes_issued + 1;
                Some(body)
            }
            None => None,
        }
    }

    /// Decides what the outer retry loop does after one whole-path attempt.
    ///
    /// Cancellation supersedes everything: an aborted task stops at once.
    /// Otherwise the attempt counter advances; a failed attempt with budget
    /// left moves the task to `Retrying` and asks for the policy's wait,
    /// and anything else — success, or a spent budget — stops the loop.
    pub fn on_attempt_result(&mut self, failed: bool) -> (r: OuterDecision)
        requires
            old(self).curr_retry_count < u64::MAX,
        ensures
            old(self).status == FileStatus::Aborted ==> r == OuterDecision::Abort && *final(self)
                == *old(self),
            old(self).status != FileStatus::Aborted ==> {
                let n = (old(self).curr_retry_count + 1) as u64;
                let policy = old(self).details.options.retry_strategy;
                if failed && n <= policy.spec_count() {
                    &&& r == (OuterDecision::Retry { wait_ms: policy.spec_wait(n) })
                    &&& *final(self) == (FileUpload {
                        status: if old(self).status == FileStatus::Working {
                            FileStatus::Retrying
                        } else {
                            old(self).status
                        },
                        curr_retry_count: n,
                        ..*old(self)
                    })
                } else {
                    &&& r == OuterDecision::Finish
                    &&& *final(self) == (FileUpload { curr_retry_count: n, ..*old(self) })
                }
            },
            old(self).wf() ==> final(self).wf(),
    {
        if self.status == FileStatus::Aborted {
            return OuterDecision::Abort;
        }
        self.curr_retry_count = self.curr_retry_count + 1;
        if failed {
            let count = self.details.options.retry_strategy.count();
            if self.curr_retry_count <= count {
                if self.status == FileStatus::Working {
                    self.status = FileStatus::Retrying;
                }
                let wait_ms = self.details.options.retry_strategy.wait(self.curr_retry_count);
                return OuterDecision::Retry { wait_ms };
            }
        }
        OuterDecision::Finish
    }

    /// The backoff ran out without a cancellation: a retrying task goes
    /// back to work, and the next attempt may issue its own requests.
    pub fn on_backoff_elapsed(&mut self)
        ensures
            *final(self) == (FileUpload {
                status: if old(self).status == FileStatus::Retrying {
                    FileStatus::Working
                } else {
                    old(self).status
                },
                single_issued_this_attempt: false,
                session_opened_this_attempt: false,
                ..*old(self)
            }),
            old(self).wf() ==> final(self).wf(),
    {
        if self.status == FileStatus::Retrying {
            self.status = FileStatus::Working;
        }
        self.single_issued_this_attempt = false;
        self.session_opened_this_attempt = false;
    }

    /// Seals the run: a task still working becomes finished — also when
    /// the attempt budget ran out on a failure, which keeps the terminal
    /// state success-shaped while the error goes to the caller. Completion
    /// callbacks fire exactly once, right after this step.
    pub fn finalize(&mut self)
        ensures
            *final(self) == (FileUpload {
                status: if old(self).status == FileStatus::Working {
                    FileStatus::Finished
                } else {
                    old(self).status
                },
                ..*old(self)
            }),
            old(self).wf() ==> final(self).wf(),
    {
        if self.status == FileStatus::Working {
            self.status = FileStatus::Finished;
        }
    }

    /// Requests cooperative cancellation. Effectual exactly while the task
    /// is working or retrying: the task is aborted at once, and the open
    /// session, if any, is returned so the driver can request its
    /// best-effort cancellation. Anything else is a no-op.
    pub fn abort(&mut self) -> (r: Option<String>)
        ensures
            !(old(self).status == FileStatus::Working || old(self).status == FileStatus::Retrying)
                ==> r is None && *final(self) == *old(self),
            (old(self).status == FileStatus::Working || old(self).status == FileStatus::Retrying)
                ==> {
                &&& *final(self) == (FileUpload {
                    status: FileStatus::Aborted,
                    abort_requested: true,
                    ..*old(self)
                })
                &&& (r is Some <==> old(self).large_file_id is Some)
                &&& (r matches Some(s) ==> s@ == old(self).large_file_id->0@)
            },
            old(self).wf() ==> final(self).wf(),
    {
        if !(self.status == FileStatus::Working || self.status == FileStatus::Retrying) {
            return None;
        }
        self.status = FileStatus::Aborted;
        self.abort_requested = true;
        match &self.large_file_id {
            Some(s) => Some(s.clone()),
            None => None,
        }
    }
}

/// A task below the cutoff never opens a multipart session and never issues
/// a finalize call: the single-shot path's one upload request is all its
/// network traffic besides fetching its slot.
pub proof fn lemma_single_path_no_session(t: &FileUpload)
    requires
        t.wf(),
        t.is_single_path(),
    ensures
        t.sessions_opened == 0,
        t.finishes_issued == 0,
{
}

} // verus!
