use resticpal::outcome::{
    is_safe_backup_failed_item, BackupFailureDetails, BackupSummary, MAX_BACKUP_FAILED_ITEMS,
    MAX_BACKUP_FAILED_ITEM_BYTES,
};
use resticpal::output::{
    classify_message, classify_stderr, is_vss_cleanup_error, is_vss_fallback_error,
    missing_item_in, output_event, parse_output_event, parse_plain_missing_item, LineReader,
    OutputEvent, ParsedOutput, PrefixCapturingReader, StreamReader, WireMessage,
    MAX_JSON_LINE_BYTES, MAX_STDERR_BYTES,
};
use resticpal::status::BackupProgress;
use serde_json::Value;
use std::sync::mpsc;

fn decode(line: &[u8]) -> Option<WireMessage> {
    let value: Value = serde_json::from_slice(line).ok()?;
    let number = |name: &str| value[name].as_u64();
    let text = |name: &str| value[name].as_str().map(str::to_owned);
    Some(WireMessage {
        message_type: text("message_type")?,
        percent_done: value["percent_done"]
            .as_f64()
            .map(|share| (share.clamp(0.0, 1.0) * 100.0).round() as u8),
        total_files: number("total_files"),
        files_done: number("files_done").unwrap_or(0),
        total_bytes: number("total_bytes"),
        bytes_done: number("bytes_done").unwrap_or(0),
        error_count: number("error_count").unwrap_or(0),
        total_files_processed: number("total_files_processed").unwrap_or(0),
        total_bytes_processed: number("total_bytes_processed").unwrap_or(0),
        data_added: number("data_added").unwrap_or(0),
        snapshot_id: text("snapshot_id"),
        item: text("item"),
        error_message: value["error"]["message"].as_str().map(str::to_owned),
    })
}

fn parse(line: &[u8]) -> Result<Option<OutputEvent>, ()> {
    parse_output_event(line, decode(line))
}

/// Reads a stream as it would arrive in pieces of the given size.
fn read_stream(stream: &[u8], piece: usize) -> (ParsedOutput, Vec<BackupProgress>, Vec<u8>) {
    let mut parsed = ParsedOutput::new();
    let mut progress = Vec::new();
    let mut captured = PrefixCapturingReader::new(MAX_STDERR_BYTES);
    let mut reader = StreamReader::new();
    let mut take = |line: Option<Result<Vec<u8>, ()>>, parsed: &mut ParsedOutput| match line {
        Some(Ok(line)) => {
            if let Some(update) = parsed.record(parse(&line)) {
                progress.push(update);
            }
        }
        Some(Err(())) => {
            let none = parsed.record(Err(()));
            assert!(none.is_none());
        }
        None => {}
    };
    for available in stream.chunks(piece) {
        captured.read(available);
        let mut from = 0;
        while from < available.len() {
            let (consumed, line) = reader.take(&available[from..]);
            take(line, &mut parsed);
            from += consumed;
        }
    }
    take(reader.finish(), &mut parsed);
    (parsed, progress, captured.into_prefix())
}

#[test]
fn stderr_is_reduced_to_allowlisted_diagnostic_codes() {
    assert_eq!(
        classify_stderr(br"open C:\Users\Yann\private.txt: Access denied"),
        Some("restic_permission_denied")
    );
    assert_eq!(
        classify_stderr(b"repository is already locked exclusively"),
        Some("restic_repository_locked")
    );
    assert_eq!(
        classify_stderr(b"dial tcp: connection refused"),
        Some("restic_repository_unreachable")
    );
    assert_eq!(
        classify_stderr(b"VSS error: insufficient privilege to create a shadow copy"),
        Some("restic_vss_unavailable")
    );
    assert_eq!(
        classify_stderr(br"C:\VssData does not exist, skipping"),
        None,
        "a path containing VSS must not be mistaken for a shadow-copy failure"
    );
    assert_eq!(classify_stderr(b"arbitrary secret output"), None);
}

#[test]
fn parses_documented_status_and_summary_messages() {
    let status = br#"{"message_type":"status","percent_done":0.426,"total_files":12,"files_done":5,"total_bytes":1000,"bytes_done":426,"error_count":1}"#;
    let summary = br#"{"message_type":"summary","total_files_processed":12,"total_bytes_processed":1000,"data_added":300,"snapshot_id":"abc123"}"#;

    assert!(matches!(
        parse(status),
        Ok(Some(OutputEvent::Progress(BackupProgress {
            percent_done: Some(43),
            files_done: 5,
            bytes_done: 426,
            error_count: 1,
            ..
        })))
    ));
    assert!(matches!(
        parse(summary),
        Ok(Some(OutputEvent::Summary(BackupSummary {
            files_processed: 12,
            bytes_processed: 1000,
            data_added: 300,
            snapshot_id: Some(id),
        }))) if id == "abc123"
    ));
}

#[test]
fn parses_vss_control_errors_without_recording_volumes_as_failed_files() {
    let create_failure = br#"{"message_type":"error","error":{"message":"failed to create snapshot for [c:\\]: VSS error: unexpected provider error"},"during":"archival","item":"c:\\"}"#;
    let mount_failure = br#"{"message_type":"error","error":{"message":"VSS error: GetSnapshotProperties() for mount point d:\\ failed"},"during":"archival","item":"d:\\"}"#;
    let cleanup_failure = br#"{"message_type":"error","error":{"message":"failed to delete VSS snapshot: cleanup error"},"during":"archival","item":"c:\\"}"#;
    let ordinary_failure = br#"{"message_type":"error","error":{"message":"failed to create snapshot metadata"},"during":"archival","item":"C:\\Data\\file.txt"}"#;

    assert!(matches!(
        parse(create_failure),
        Ok(Some(OutputEvent::VssFallback))
    ));
    assert!(matches!(
        parse(mount_failure),
        Ok(Some(OutputEvent::VssFallback))
    ));
    assert!(matches!(
        parse(cleanup_failure),
        Ok(Some(OutputEvent::VssCleanupFailed))
    ));
    assert!(matches!(
        parse(ordinary_failure),
        Ok(Some(OutputEvent::FailureItem(item))) if item == r"C:\Data\file.txt"
    ));
}

#[test]
fn progress_floods_are_dropped_without_losing_the_summary() {
    let mut output = Vec::new();
    for _ in 0..1_000 {
        output.extend_from_slice(br#"{"message_type":"status","files_done":1,"bytes_done":2}"#);
        output.push(b'\n');
    }
    output.extend_from_slice(
        br#"{"message_type":"summary","total_files_processed":3,"total_bytes_processed":4,"data_added":5,"snapshot_id":"bounded"}"#,
    );
    output.push(b'\n');

    let (progress_tx, progress_rx) = mpsc::sync_channel(1);

    let (parsed, progress, _) = read_stream(&output, 8_192);
    for update in progress {
        let _ = progress_tx.try_send(update);
    }

    assert_eq!(progress_rx.try_iter().count(), 1);
    assert_eq!(
        parsed.summary.expect("summary").snapshot_id.as_deref(),
        Some("bounded")
    );
}

#[test]
fn documented_error_and_plain_missing_source_messages_capture_only_bounded_items() {
    let mut stderr = br#"{"message_type":"error","error":{"message":"failed to save a private file"},"during":"archival","item":"C:\\Users\\Example\\private.txt"}
C:\Missing Source does not exist, skipping
{"message_type":"error","error":{"message":"source name unavailable"},"during":"archival"}
"#
    .to_vec();
    for index in 0..=MAX_BACKUP_FAILED_ITEMS {
        stderr.extend_from_slice(
            format!(
                "{{\"message_type\":\"error\",\"during\":\"archival\",\"item\":\"C:\\\\Data\\\\{index}.txt\"}}\n"
            )
            .as_bytes(),
        );
    }
    stderr.extend_from_slice(
        format!(
            "{{\"message_type\":\"error\",\"item\":\"{}\"}}\n",
            "x".repeat(MAX_BACKUP_FAILED_ITEM_BYTES + 1)
        )
        .as_bytes(),
    );

    let (parsed, _, captured) = read_stream(&stderr, 4_096);

    assert_eq!(
        parsed.failure_details.items().len(),
        MAX_BACKUP_FAILED_ITEMS
    );
    assert_eq!(
        parsed.failure_details.items()[0],
        r"C:\Users\Example\private.txt"
    );
    assert_eq!(parsed.failure_details.items()[1], r"C:\Missing Source");
    assert_eq!(parsed.failure_details.omitted(), 5);
    assert_eq!(captured.len(), MAX_STDERR_BYTES.min(stderr.len()));
}

#[test]
fn unsafe_failure_item_text_is_omitted_from_local_details() {
    let mut details = BackupFailureDetails::none();
    details.push("C:\\Data\\safe.txt".to_owned());
    details.push("C:\\Data\\safe.txt".to_owned());
    details.push("C:\\Data\\spoof\u{202e}txt.exe".to_owned());
    details.push("C:\\Data\\line\nbreak.txt".to_owned());

    assert_eq!(*details.items(), [r"C:\Data\safe.txt"]);
    assert_eq!(details.omitted(), 2);
}

#[test]
fn a_line_that_is_too_long_is_dropped_whole() {
    let mut output = br#"{"message_type":"status","note":""#.to_vec();
    output.resize(output.len() + MAX_JSON_LINE_BYTES + 16, b'x');
    output.extend_from_slice(b"\"}\nnot json\n");
    let (parsed, progress, captured) = read_stream(&output, 65_536);
    assert!(parsed.invalid_message);
    assert!(progress.is_empty());
    assert_eq!(captured.len(), MAX_STDERR_BYTES);
}

#[test]
fn a_line_of_the_largest_length_is_kept() {
    let mut reader = LineReader::new();
    let line = vec![b'a'; MAX_JSON_LINE_BYTES];
    assert_eq!(
        reader.read_bounded_line(&line, 0),
        (MAX_JSON_LINE_BYTES, false)
    );
    assert_eq!(reader.finish(), Some(Ok(line)));
    assert_eq!(LineReader::new().finish(), None);
}

#[test]
fn a_captured_prefix_is_the_front_of_the_stream() {
    let mut reader = PrefixCapturingReader::new(5);
    reader.read(b"abc");
    reader.read(b"defg");
    reader.read(b"h");
    assert_eq!(reader.into_prefix(), b"abcde");
}

#[test]
fn missing_sources_are_named_without_their_line_ends() {
    assert_eq!(
        missing_item_in("C:\\a does not exist, skipping\r\n"),
        Some("C:\\a".to_owned())
    );
    assert_eq!(missing_item_in(" does not exist, skipping"), None);
    assert_eq!(missing_item_in("C:\\a exists"), None);
    assert_eq!(parse_plain_missing_item(&[0xff]), None);
}

#[test]
fn snapshot_troubles_are_told_from_their_words() {
    assert!(is_vss_fallback_error("Failed to create snapshot for [c:\\]"));
    assert!(is_vss_fallback_error(
        "VSS error: GetSnapshotProperties() for mount point"
    ));
    assert!(!is_vss_fallback_error(
        "vss error: getsnapshotproperties() failed"
    ));
    assert!(is_vss_cleanup_error("FAILED TO DELETE VSS SNAPSHOT"));
    assert!(!is_vss_cleanup_error("failed to delete snapshot"));
    assert_eq!(
        classify_message("permission denied"),
        Some("restic_permission_denied")
    );
}

#[test]
fn other_messages_mean_nothing() {
    let line = br#"{"message_type":"verbose_status"}"#;
    assert_eq!(parse(line), Ok(None));
    assert_eq!(parse(b"not json"), Err(()));
    assert_eq!(output_event(decode(line).unwrap()), None);
}

#[test]
fn names_that_mislead_are_not_safe() {
    assert!(is_safe_backup_failed_item("C:\\Data\\a.txt"));
    assert!(!is_safe_backup_failed_item(""));
    assert!(!is_safe_backup_failed_item("a\u{200f}b"));
    assert!(is_safe_backup_failed_item(
        &"x".repeat(MAX_BACKUP_FAILED_ITEM_BYTES)
    ));
    assert!(!is_safe_backup_failed_item(
        &"x".repeat(MAX_BACKUP_FAILED_ITEM_BYTES + 1)
    ));
}

#[test]
fn merged_details_keep_both_lists() {
    let mut left = BackupFailureDetails::from_items(vec!["a".to_owned(), "b".to_owned()], 1);
    let right = BackupFailureDetails::from_items(vec!["b".to_owned(), "c".to_owned()], 2);
    left.merge(right);
    assert_eq!(*left.items(), ["a", "b", "c"]);
    assert_eq!(left.omitted(), 3);
    left.omit(u64::MAX);
    assert_eq!(left.omitted(), u64::MAX);
}

#[test]
fn more_diagnostics_are_never_diagnosed_milder() {
    let kinds: [(&[u8], Option<&str>); 7] = [
        (b"shadow copy provider", Some("restic_vss_unavailable")),
        (b"Permission denied", Some("restic_permission_denied")),
        (b"unable to create lock", Some("restic_repository_locked")),
        (b"wrong password", Some("restic_authentication_failed")),
        (b"no such host", Some("restic_repository_unreachable")),
        (b"path does not exist", Some("restic_source_unavailable")),
        (b"nothing of note", None),
    ];
    for (graver, (first, code)) in kinds.iter().enumerate() {
        assert_eq!(classify_stderr(first), *code);
        assert_eq!(classify_stderr(&first.to_ascii_uppercase()), *code);
        for (second, _) in &kinds[graver..] {
            assert_eq!(classify_stderr(&[*first, *second].concat()), *code);
            assert_eq!(classify_stderr(&[*second, *first].concat()), *code);
        }
    }
    assert_eq!(
        classify_stderr(b"\xff\xfeACCESS DENIED\xff"),
        Some("restic_permission_denied")
    );
}

#[test]
fn the_last_summary_of_a_stream_counts() {
    let summary = |id: &str| format!("{{\"message_type\":\"summary\",\"snapshot_id\":\"{id}\"}}\n");
    let status = "{\"message_type\":\"status\",\"files_done\":1}\n";
    let noisy = format!(
        "{status}{}not json\n{status}{}{status}{}\n{status}",
        summary("first"),
        summary("last"),
        "x".repeat(MAX_JSON_LINE_BYTES + 1)
    );
    let (parsed, progress, _) = read_stream(noisy.as_bytes(), 777);
    assert_eq!(progress.len(), 4);
    assert!(parsed.invalid_message);
    assert_eq!(
        parsed.summary.expect("summary").snapshot_id.as_deref(),
        Some("last")
    );
    let (quiet, progress, _) = read_stream(noisy.replace(status, "").as_bytes(), 1_048_576);
    assert!(progress.is_empty());
    assert!(quiet.invalid_message);
    assert_eq!(
        quiet.summary.expect("summary").snapshot_id.as_deref(),
        Some("last")
    );
    let (none, _, _) = read_stream(status.as_bytes(), 5);
    assert!(none.summary.is_none());
}

#[test]
fn a_last_line_needs_no_line_end() {
    let mut reader = StreamReader::new();
    assert_eq!(reader.take(b"one\ntw"), (4, Some(Ok(b"one\n".to_vec()))));
    assert_eq!(reader.take(b"tw"), (2, None));
    assert_eq!(reader.take(b"o"), (1, None));
    assert_eq!(reader.finish(), Some(Ok(b"two".to_vec())));
    assert_eq!(StreamReader::new().finish(), None);
}
