use b2_uploader::checksum::LargeFileSha1;
use b2_uploader::chunking::{
    plan_parts, stride_ranges, ConstantLargeFileLoadStrategy, LargeFileLoadStrategy,
};
use b2_uploader::error::{B2Error, B2RequestError, FileUploadError};
use b2_uploader::executor::{GroupRun, PartStep};
use b2_uploader::options::{B2FileUploadSettings, FileUploadOptions};
use b2_uploader::retry::{ConstantRetryStrategy, RetryStrategy};
use b2_uploader::task::{FileStatus, FileUpload, OuterDecision, UploadPath};

const MIB: u64 = 1024 * 1024;

fn task_of(file_size: u64, options: FileUploadOptions) -> FileUpload {
    FileUpload::new(
        "file.bin".to_string(),
        "bucket-1".to_string(),
        None,
        file_size,
        options,
        0,
    )
}

fn small_multipart_options() -> FileUploadOptions {
    let mut options = FileUploadOptions::default();
    options.large_file_cutoff = 5 * MIB;
    options.file_load_strategy = LargeFileLoadStrategy::Constant(ConstantLargeFileLoadStrategy {
        part_size: 5 * MIB,
        chunk_size: 3,
    });
    options
}

fn busy() -> B2Error {
    B2Error::RequestError(B2RequestError {
        status: 503,
        code: "service_unavailable".to_string(),
        message: None,
    })
}

#[test]
fn start_is_guarded_by_the_pending_state() {
    let mut task = task_of(100, FileUploadOptions::default());
    assert_eq!(task.status(), FileStatus::Pending);
    assert_eq!(task.begin().unwrap(), UploadPath::Single);
    assert_eq!(task.status(), FileStatus::Working);
    match task.begin() {
        Err(FileUploadError::AlreadyStarted) => {}
        _ => panic!("a second start must be rejected"),
    }
}

#[test]
fn invalid_cutoff_is_rejected_before_any_work() {
    let mut options = FileUploadOptions::default();
    options.large_file_cutoff = 4 * MIB;
    let mut task = task_of(100, options);
    match task.begin() {
        Err(FileUploadError::InvalidOptions(iv)) => {
            assert_eq!(iv.value_name, "large_file_cutoff");
        }
        _ => panic!("an out-of-range cutoff must be rejected"),
    }
    assert_eq!(task.status(), FileStatus::Pending);
}

#[test]
fn invalid_group_width_is_rejected_on_the_multipart_path() {
    let mut options = small_multipart_options();
    options.file_load_strategy = LargeFileLoadStrategy::Constant(ConstantLargeFileLoadStrategy {
        part_size: 5 * MIB,
        chunk_size: 0,
    });
    let mut task = task_of(20 * MIB, options);
    match task.begin() {
        Err(FileUploadError::InvalidOptions(iv)) => {
            assert_eq!(iv.value_name, "chunk_size");
        }
        _ => panic!("a zero group width must be rejected"),
    }
}

#[test]
fn one_mib_source_takes_the_single_shot_path() {
    // 1 MiB source under the default 200 MiB cutoff: one upload request,
    // no session traffic, and every byte counted exactly once.
    let data = vec![7u8; (1 * MIB) as usize];
    let mut task = task_of(1 * MIB, FileUploadOptions::default());
    assert_eq!(task.begin().unwrap(), UploadPath::Single);

    let headers = task.prepare_single_upload(
        &data,
        "upload-token".to_string(),
        B2FileUploadSettings::default(),
    );
    assert_eq!(headers.content_length, 1 * MIB);
    assert_eq!(headers.authorization, "upload-token");
    assert_eq!(headers.content_type, "b2/x-auto");

    // the body streams out in fixed chunks, each credited as it is sent
    let chunks = stride_ranges(
        data.len(),
        b2_uploader::executor::SINGLE_STREAM_CHUNK_BYTES as usize,
    );
    let mut now = 1u64;
    for (a, b) in &chunks {
        task.stats.add_done_bytes((b - a) as u64, now);
        now += 1;
    }

    assert_eq!(task.on_attempt_result(false), OuterDecision::Finish);
    task.finalize();
    assert_eq!(task.status(), FileStatus::Finished);
    assert_eq!(task.stats.done, 1 * MIB);
    assert_eq!(task.single_uploads_issued, 1);
    assert_eq!(task.sessions_opened, 0);
    assert_eq!(task.finishes_issued, 0);
}

#[test]
fn encoded_file_name_travels_in_the_headers() {
    let mut task = FileUpload::new(
        "my file+x.txt".to_string(),
        "bucket-1".to_string(),
        None,
        3,
        FileUploadOptions::default(),
        0,
    );
    task.begin().unwrap();
    let headers = task.prepare_single_upload(
        b"abc",
        "tok".to_string(),
        B2FileUploadSettings::default(),
    );
    assert_eq!(headers.file_name, "my%20file%2Bx.txt");
    assert_eq!(headers.content_sha1, "a9993e364706816aba3e25717850c26c9cd0d89d");
    assert_eq!(headers.content_length, 3);
}

#[test]
fn five_hundred_mib_adaptive_run_finishes_with_100_hashes() {
    // 500 MiB with adaptive chunking: 100 five-MiB parts in 34 groups; the
    // finalize request carries the 100 digests in part order, and the
    // progress counter lands exactly on the file size.
    let size = 500 * MIB;
    let mut task = task_of(size, FileUploadOptions::default());
    let strat = match task.begin().unwrap() {
        UploadPath::Multipart(s) => s,
        UploadPath::Single => panic!("500 MiB must take the multipart path"),
    };
    assert_eq!(strat.part_size, 5 * MIB);
    assert_eq!(strat.chunk_size, 3);

    let parts = plan_parts(size, strat.part_size);
    assert_eq!(parts.len(), 100);
    let bounds = stride_ranges(parts.len(), strat.chunk_size as usize);
    assert_eq!(bounds.len(), 34);

    let body = task.start_large_file_body(B2FileUploadSettings::default(), Some(vec![]));
    assert_eq!(body.bucket_id, "bucket-1");
    task.on_session_opened("session-1".to_string());

    let mut table = LargeFileSha1::new(parts.len());
    let mut now = 1u64;
    for (a, b) in &bounds {
        let mut group = GroupRun::new(parts[*a..*b].to_vec());
        while let Some(part) = group.current_part() {
            table.record_part(part.part_number, b"part-bytes");
            group.credit_chunk(&mut task.stats, part.end - part.start, now);
            now += 1;
            match group.on_part_result(&mut task.stats, Ok(())) {
                PartStep::Advance => {}
                _ => panic!("a successful part must advance"),
            }
        }
        assert_eq!(group.slot_refreshes, 0);
    }

    let finish = task.finish_session_body(&table).expect("every slot is filled");
    assert_eq!(finish.file_id, "session-1");
    assert_eq!(finish.part_sha1_array.len(), 100);

    assert_eq!(task.on_attempt_result(false), OuterDecision::Finish);
    task.finalize();
    assert_eq!(task.status(), FileStatus::Finished);
    assert_eq!(task.stats.done, size);
    assert_eq!(task.sessions_opened, 1);
    assert_eq!(task.finishes_issued, 1);
    assert_eq!(task.single_uploads_issued, 0);
}

#[test]
fn busy_part_retries_with_fresh_slots_and_no_double_count() {
    // one part answers busy twice before succeeding: two extra slot
    // fetches, the progress counter reflects the bytes once, and the task
    // still finishes.
    let size = 6 * MIB;
    let mut task = task_of(size, small_multipart_options());
    let strat = match task.begin().unwrap() {
        UploadPath::Multipart(s) => s,
        UploadPath::Single => panic!("6 MiB over a 5 MiB cutoff must be multipart"),
    };
    let parts = plan_parts(size, strat.part_size);
    assert_eq!(parts.len(), 2);

    let body = task.start_large_file_body(B2FileUploadSettings::default(), None);
    assert!(body.file_info.is_none());
    task.on_session_opened("session-2".to_string());

    let mut table = LargeFileSha1::new(parts.len());
    let mut group = GroupRun::new(parts.clone());

    // first part: two attempts rejected as busy, then success
    let part = group.current_part().unwrap();
    table.record_part(part.part_number, b"first");
    for round in 0..2u64 {
        // the attempt had already streamed part of the body
        group.credit_chunk(&mut task.stats, 2 * MIB, 10 + round);
        match group.on_part_result(&mut task.stats, Err(busy())) {
            PartStep::RetryWithNewSlot => {}
            _ => panic!("a busy answer must ask for a fresh slot"),
        }
    }
    assert_eq!(group.slot_refreshes, 2);
    assert_eq!(task.stats.done, 0);
    group.credit_chunk(&mut task.stats, part.end - part.start, 20);
    assert!(matches!(
        group.on_part_result(&mut task.stats, Ok(())),
        PartStep::Advance
    ));

    // second part succeeds at once
    let part = group.current_part().unwrap();
    table.record_part(part.part_number, b"second");
    group.credit_chunk(&mut task.stats, part.end - part.start, 30);
    assert!(matches!(
        group.on_part_result(&mut task.stats, Ok(())),
        PartStep::Advance
    ));
    assert!(group.current_part().is_none());

    let finish = task.finish_session_body(&table).expect("every slot is filled");
    assert_eq!(finish.part_sha1_array.len(), 2);
    assert_eq!(task.on_attempt_result(false), OuterDecision::Finish);
    task.finalize();
    assert_eq!(task.status(), FileStatus::Finished);
    assert_eq!(task.stats.done, size);
    assert_eq!(group.slot_refreshes, 2);
}

#[test]
fn fatal_part_error_fails_the_group_unchanged() {
    let parts = plan_parts(10, 4);
    let mut stats = b2_uploader::progress::FileNetworkStats::new(10, 0);
    let mut group = GroupRun::new(parts);
    group.credit_chunk(&mut stats, 2, 1);
    let fatal = B2Error::RequestError(B2RequestError {
        status: 400,
        code: "bad_request".to_string(),
        message: None,
    });
    match group.on_part_result(&mut stats, Err(fatal)) {
        PartStep::Fail(FileUploadError::RequestError(B2Error::RequestError(e))) => {
            assert_eq!(e.status, 400);
        }
        _ => panic!("a fatal answer must fail the group"),
    }
    // a fatal error neither rolls back nor advances
    assert_eq!(stats.done, 2);
    assert_eq!(group.idx, 0);
}

#[test]
fn abort_while_working_cancels_the_open_session() {
    // an effectual abort reaches the aborted state at once, hands back the
    // open session for best-effort cancellation, and no finalize request
    // can be built afterwards.
    let size = 6 * MIB;
    let mut task = task_of(size, small_multipart_options());
    task.begin().unwrap();
    task.start_large_file_body(B2FileUploadSettings::default(), None);
    task.on_session_opened("session-3".to_string());
    assert_eq!(task.status(), FileStatus::Working);

    let to_cancel = task.abort();
    assert_eq!(to_cancel.as_deref(), Some("session-3"));
    assert_eq!(task.status(), FileStatus::Aborted);
    assert!(task.has_stopped());

    let mut table = LargeFileSha1::new(1);
    table.set_sha1(0, "aa".to_string());
    assert!(task.finish_session_body(&table).is_none());
    assert_eq!(task.on_attempt_result(true), OuterDecision::Abort);
    task.finalize();
    assert_eq!(task.status(), FileStatus::Aborted);
}

#[test]
fn abort_outside_a_live_run_is_a_no_op() {
    let mut task = task_of(100, FileUploadOptions::default());
    assert!(task.abort().is_none());
    assert_eq!(task.status(), FileStatus::Pending);
    task.begin().unwrap();
    task.on_attempt_result(false);
    task.finalize();
    assert_eq!(task.status(), FileStatus::Finished);
    assert!(task.abort().is_none());
    assert_eq!(task.status(), FileStatus::Finished);
}

#[test]
fn failed_attempts_back_off_then_stop_when_the_budget_is_spent() {
    let mut options = FileUploadOptions::default();
    options.retry_strategy = RetryStrategy::Constant(ConstantRetryStrategy {
        count: 3,
        wait_ms: 700,
    });
    let mut task = task_of(100, options);
    task.begin().unwrap();

    // attempts 2 and 3 are still inside the budget of 3
    assert_eq!(task.on_attempt_result(true), OuterDecision::Retry { wait_ms: 700 });
    assert_eq!(task.status(), FileStatus::Retrying);
    task.on_backoff_elapsed();
    assert_eq!(task.status(), FileStatus::Working);
    assert_eq!(task.on_attempt_result(true), OuterDecision::Retry { wait_ms: 700 });
    task.on_backoff_elapsed();

    // the budget is spent: the last error surfaces, the state stays
    // success-shaped
    assert_eq!(task.on_attempt_result(true), OuterDecision::Finish);
    task.finalize();
    assert_eq!(task.status(), FileStatus::Finished);
}
