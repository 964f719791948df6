//! Reading restic's own output: bounded lines, JSON messages reduced to events,
//! and diagnostics reduced to a fixed list of codes.
use crate::outcome::{BackupFailureDetails, BackupSummary, FailureDetails};
use crate::status::BackupProgress;
use crate::text;
use vstd::prelude::*;

verus! {

/// The longest line of output that is read as a message.
pub const MAX_JSON_LINE_BYTES: usize = 1_048_576;

/// The most bytes of diagnostics that are kept for classification.
pub const MAX_STDERR_BYTES: usize = 65_536;

/// The progress updates that wait for the service before more are dropped.
pub const MAX_PENDING_PROGRESS_EVENTS: usize = 16;

/// The first kind of failure that a lowered diagnostic text names, the gravest
/// kind being zero. Text that names none comes last.
pub open spec fn stderr_rank(message: Seq<char>) -> int {
    if text::contains(message, "vss error:"@) || text::contains(
        message,
        "failed to create snapshot for ["@,
    ) || text::contains(message, "failed to delete vss snapshot"@) || text::contains(
        message,
        "volume shadow copy service"@,
    ) || text::contains(message, "shadow copy provider"@) {
        0
    } else if text::contains(message, "access denied"@) || text::contains(
        message,
        "permission denied"@,
    ) || text::contains(message, "insufficient privilege"@) {
        1
    } else if text::contains(message, "already locked"@) || text::contains(
        message,
        "repository is locked"@,
    ) || text::contains(message, "unable to create lock"@) {
        2
    } else if text::contains(message, "unauthorized"@) || text::contains(
        message,
        "authentication failed"@,
    ) || text::contains(message, "invalid access key"@) || text::contains(
        message,
        "wrong password"@,
    ) {
        3
    } else if text::contains(message, "connection refused"@) || text::contains(
        message,
        "connection reset"@,
    ) || text::contains(message, "timed out"@) || text::contains(message, "timeout"@)
        || text::contains(message, "no such host"@) || text::contains(message, "name resolution"@) {
        4
    } else if text::contains(message, "no such file or directory"@) || text::contains(
        message,
        "cannot find the path"@,
    ) || text::contains(message, "path does not exist"@) {
        5
    } else {
        6
    }
}

/// The code for a kind of failure.
pub open spec fn code_of(rank: int) -> Option<Seq<char>> {
    if rank == 0 {
        Some("restic_vss_unavailable"@)
    } else if rank == 1 {
        Some("restic_permission_denied"@)
    } else if rank == 2 {
        Some("restic_repository_locked"@)
    } else if rank == 3 {
        Some("restic_authentication_failed"@)
    } else if rank == 4 {
        Some("restic_repository_unreachable"@)
    } else if rank == 5 {
        Some("restic_source_unavailable"@)
    } else {
        None
    }
}

/// The code for a lowered diagnostic text.
pub open spec fn stderr_code(message: Seq<char>) -> Option<Seq<char>> {
    code_of(stderr_rank(message))
}

/// No two kinds of failure have the same code.
pub proof fn codes_tell_kinds_apart(left: int, right: int)
    requires
        0 <= left <= 6,
        0 <= right <= 6,
        code_of(left) == code_of(right),
    ensures
        left == right,
{
    reveal_strlit("restic_vss_unavailable");
    reveal_strlit("restic_permission_denied");
    reveal_strlit("restic_repository_locked");
    reveal_strlit("restic_authentication_failed");
    reveal_strlit("restic_repository_unreachable");
    reveal_strlit("restic_source_unavailable");
    let vss = "restic_vss_unavailable"@;
    let denied = "restic_permission_denied"@;
    let locked = "restic_repository_locked"@;
    let failed = "restic_authentication_failed"@;
    let unreachable = "restic_repository_unreachable"@;
    let source = "restic_source_unavailable"@;
    assert(vss[7] == 'v' && denied[7] == 'p' && locked[7] == 'r' && failed[7] == 'a'
        && unreachable[7] == 'r' && source[7] == 's');
    assert(locked.len() != unreachable.len());
}

/// Text around a text never makes its diagnosis milder.
pub proof fn a_longer_text_is_diagnosed_no_milder(longer: Seq<char>, shorter: Seq<char>)
    requires
        text::contains(longer, shorter),
    ensures
        stderr_rank(longer) <= stderr_rank(shorter),
{
    let at = choose|at: int| #[trigger] text::starts_with_at(longer, at, shorter);
    assert forall|pattern: Seq<char>| #[trigger] text::contains(shorter, pattern) implies text::contains(
        longer,
        pattern,
    ) by {
        let inner = choose|inner: int| #[trigger] text::starts_with_at(shorter, inner, pattern);
        assert(longer.subrange(at + inner, at + inner + pattern.len()) =~= shorter.subrange(
            inner,
            inner + pattern.len(),
        ));
        assert(text::starts_with_at(longer, at + inner, pattern));
    }
}

/// The case of ASCII letters does not count.
pub proof fn capitals_are_diagnosed_alike(message: Seq<char>)
    ensures
        stderr_rank(text::ascii_lower(text::ascii_upper(message))) == stderr_rank(
            text::ascii_lower(message),
        ),
{
    assert(text::ascii_lower(text::ascii_upper(message)) =~= text::ascii_lower(message));
}

/// What diagnostics in UTF-8 name.
pub open spec fn utf8_rank(stderr: Seq<u8>) -> int {
    stderr_rank(text::ascii_lower(vstd::utf8::decode_utf8(stderr)))
}

/// More diagnostics in UTF-8, before or after, never make the diagnosis milder.
pub proof fn more_diagnostics_are_diagnosed_no_milder(first: Seq<u8>, second: Seq<u8>)
    requires
        vstd::utf8::valid_utf8(first),
        vstd::utf8::valid_utf8(second),
    ensures
        vstd::utf8::valid_utf8(first + second),
        utf8_rank(first + second) <= utf8_rank(first),
        utf8_rank(first + second) <= utf8_rank(second),
{
    text::lemma_decode_concat(first, second);
    let start = text::ascii_lower(vstd::utf8::decode_utf8(first));
    let end = text::ascii_lower(vstd::utf8::decode_utf8(second));
    let whole = text::ascii_lower(vstd::utf8::decode_utf8(first + second));
    assert(whole =~= start + end);
    assert(whole.subrange(0, start.len() as int) =~= start);
    assert(text::starts_with_at(whole, 0, start));
    assert(whole.subrange(start.len() as int, whole.len() as int) =~= end);
    assert(text::starts_with_at(whole, start.len() as int, end));
    a_longer_text_is_diagnosed_no_milder(whole, start);
    a_longer_text_is_diagnosed_no_milder(whole, end);
}

/// Diagnostics in UTF-8 are diagnosed in capitals as in small letters.
pub proof fn diagnostics_in_capitals_are_diagnosed_alike(stderr: Seq<u8>)
    requires
        vstd::utf8::valid_utf8(stderr),
    ensures
        vstd::utf8::valid_utf8(text::upper_bytes(stderr)),
        utf8_rank(text::upper_bytes(stderr)) == utf8_rank(stderr),
{
    text::lemma_decode_upper(stderr);
    capitals_are_diagnosed_alike(vstd::utf8::decode_utf8(stderr));
}

/// What the diagnostics of a run are reduced to.
pub open spec fn stderr_class(stderr: Seq<u8>) -> Option<Seq<char>> {
    stderr_code(text::ascii_lower(text::utf8_lossy(stderr)))
}

pub open spec fn static_chars(text: Option<&'static str>) -> Option<Seq<char>> {
    match text {
        Some(text) => Some(text@),
        None => None,
    }
}

/// The code for a diagnostic text that is already in lower case.
pub fn classify_message(message: &str) -> (code: Option<&'static str>)
    ensures
        static_chars(code) == stderr_code(message@),
{
    if text::text_contains(message, "vss error:") || text::text_contains(
        message,
        "failed to create snapshot for [",
    ) || text::text_contains(message, "failed to delete vss snapshot") || text::text_contains(
        message,
        "volume shadow copy service",
    ) || text::text_contains(message, "shadow copy provider") {
        Some("restic_vss_unavailable")
    } else if text::text_contains(message, "access denied") || text::text_contains(
        message,
        "permission denied",
    ) || text::text_contains(message, "insufficient privilege") {
        Some("restic_permission_denied")
    } else if text::text_contains(message, "already locked") || text::text_contains(
        message,
        "repository is locked",
    ) || text::text_contains(message, "unable to create lock") {
        Some("restic_repository_locked")
    } else if text::text_contains(message, "unauthorized") || text::text_contains(
        message,
        "authentication failed",
    ) || text::text_contains(message, "invalid access key") || text::text_contains(
        message,
        "wrong password",
    ) {
        Some("restic_authentication_failed")
    } else if text::text_contains(message, "connection refused") || text::text_contains(
        message,
        "connection reset",
    ) || text::text_contains(message, "timed out") || text::text_contains(message, "timeout")
        || text::text_contains(message, "no such host") || text::text_contains(
        message,
        "name resolution",
    ) {
        Some("restic_repository_unreachable")
    } else if text::text_contains(message, "no such file or directory") || text::text_contains(
        message,
        "cannot find the path",
    ) || text::text_contains(message, "path does not exist") {
        Some("restic_source_unavailable")
    } else {
        None
    }
}

/// Reduces the diagnostics of a run to a code that is safe to report.
pub fn classify_stderr(stderr: &[u8]) -> (code: Option<&'static str>)
    ensures
        static_chars(code) == stderr_class(stderr@),
        vstd::utf8::valid_utf8(stderr@) ==> static_chars(code) == code_of(utf8_rank(stderr@)),
{
    let decoded = text::from_utf8_lossy(stderr);
    let message = text::to_ascii_lowercase(decoded.as_str());
    classify_message(message.as_str())
}

/// Whether an error of restic says that it read live files for want of a snapshot.
pub open spec fn reports_vss_fallback(message: Seq<char>) -> bool {
    let lowered = text::ascii_lower(message);
    ||| text::contains(lowered, "failed to create snapshot for ["@)
    ||| text::starts_with(lowered, "vss error: getsnapshotproperties()"@) && text::contains(
        lowered,
        "mount point"@,
    )
}

/// Whether an error of restic says that a filesystem snapshot was left behind.
pub open spec fn reports_vss_cleanup(message: Seq<char>) -> bool {
    text::contains(text::ascii_lower(message), "failed to delete vss snapshot"@)
}

pub fn is_vss_fallback_error(message: &str) -> (yes: bool)
    ensures
        yes == reports_vss_fallback(message@),
{
    let lowered = text::to_ascii_lowercase(message);
    text::text_contains(lowered.as_str(), "failed to create snapshot for [") || (
    text::text_starts_with(lowered.as_str(), "vss error: getsnapshotproperties()")
        && text::text_contains(lowered.as_str(), "mount point"))
}

pub fn is_vss_cleanup_error(message: &str) -> (yes: bool)
    ensures
        yes == reports_vss_cleanup(message@),
{
    let lowered = text::to_ascii_lowercase(message);
    text::text_contains(lowered.as_str(), "failed to delete vss snapshot")
}

/// `text` without the line ends at its end.
pub open spec fn without_line_end(text: Seq<char>) -> Seq<char>
    decreases text.len(),
{
    if text.len() > 0 && (text.last() == '\r' || text.last() == '\n') {
        without_line_end(text.drop_last())
    } else {
        text
    }
}

/// The item that a plain line reports as missing.
pub open spec fn missing_item(line: Seq<char>) -> Option<Seq<char>> {
    let bare = without_line_end(line);
    let suffix = " does not exist, skipping"@;
    if text::ends_with(bare, suffix) && bare.len() > suffix.len() {
        Some(bare.take(bare.len() - suffix.len()))
    } else {
        None
    }
}

/// The item that a plain line of bytes reports as missing.
pub open spec fn missing_item_of(line: Seq<u8>) -> Option<Seq<char>> {
    if vstd::utf8::valid_utf8(line) {
        missing_item(vstd::utf8::decode_utf8(line))
    } else {
        None
    }
}

/// The item that a plain line of text reports as missing.
pub fn missing_item_in(line: &str) -> (item: Option<String>)
    ensures
        crate::config::chars_of(item) == missing_item(line@),
{
    let chars = text::characters(line);
    let mut end: usize = chars.len();
    proof {
        assert(line@.take(line@.len() as int) == line@);
    }
    while end > 0 && (chars[end - 1] == '\r' || chars[end - 1] == '\n')
        invariant
            end <= chars.len(),
            chars@ == line@,
            without_line_end(line@.take(end as int)) == without_line_end(line@),
        decreases end,
    {
        proof {
            let rest = line@.take(end as int);
            assert(rest.last() == chars@[end - 1]);
            assert(rest.drop_last() == line@.take(end - 1));
        }
        end = end - 1;
    }
    proof {
        let bare = line@.take(end as int);
        if end > 0 {
            assert(bare.last() == chars@[end - 1]);
        }
        assert(without_line_end(line@) == bare);
    }
    let bare = text::text_of(&chars, 0, end);
    let bare_chars = text::characters(bare.as_str());
    let suffix = text::characters(" does not exist, skipping");
    if bare_chars.len() > suffix.len() && text::matches_at(
        &bare_chars,
        bare_chars.len() - suffix.len(),
        &suffix,
    ) {
        Some(text::text_of(&bare_chars, 0, bare_chars.len() - suffix.len()))
    } else {
        None
    }
}

/// The item that a plain line of restic's diagnostics reports as missing.
pub fn parse_plain_missing_item(line: &[u8]) -> (item: Option<String>)
    ensures
        crate::config::chars_of(item) == missing_item_of(line@),
{
    match text::from_utf8(line) {
        Some(line) => missing_item_in(line.as_str()),
        None => None,
    }
}

/// A JSON message of restic, field by field. The share of the work that is done
/// is already rounded to a whole percentage.
#[derive(Debug, PartialEq, Eq)]
pub struct WireMessage {
    pub message_type: String,
    pub percent_done: Option<u8>,
    pub total_files: Option<u64>,
    pub files_done: u64,
    pub total_bytes: Option<u64>,
    pub bytes_done: u64,
    pub error_count: u64,
    pub total_files_processed: u64,
    pub total_bytes_processed: u64,
    pub data_added: u64,
    pub snapshot_id: Option<String>,
    pub item: Option<String>,
    pub error_message: Option<String>,
}

#[derive(Debug, PartialEq, Eq)]
pub enum OutputEvent {
    Progress(BackupProgress),
    Summary(BackupSummary),
    FailureItem(String),
    FailureItemOmitted,
    VssFallback,
    VssCleanupFailed,
}

/// The text of the error that a message carries, empty where it carries none.
pub open spec fn error_text(message: WireMessage) -> Seq<char> {
    match message.error_message {
        Some(text) => text@,
        None => Seq::empty(),
    }
}

/// What a message means: progress, the summary, an item that failed, or one of
/// the two snapshot troubles, which are no failed items. Other messages mean nothing.
pub open spec fn event_of(message: WireMessage) -> Option<OutputEvent> {
    if message.message_type@ == "status"@ {
        Some(
            OutputEvent::Progress(
                BackupProgress {
                    percent_done: message.percent_done,
                    files_done: message.files_done,
                    total_files: message.total_files,
                    bytes_done: message.bytes_done,
                    total_bytes: message.total_bytes,
                    error_count: message.error_count,
                },
            ),
        )
    } else if message.message_type@ == "summary"@ {
        Some(
            OutputEvent::Summary(
                BackupSummary {
                    files_processed: message.total_files_processed,
                    bytes_processed: message.total_bytes_processed,
                    data_added: message.data_added,
                    snapshot_id: message.snapshot_id,
                },
            ),
        )
    } else if message.message_type@ == "error"@ {
        if reports_vss_fallback(error_text(message)) {
            Some(OutputEvent::VssFallback)
        } else if reports_vss_cleanup(error_text(message)) {
            Some(OutputEvent::VssCleanupFailed)
        } else {
            Some(
                match message.item {
                    Some(item) => OutputEvent::FailureItem(item),
                    None => OutputEvent::FailureItemOmitted,
                },
            )
        }
    } else {
        None
    }
}

/// Reduces a decoded message to an event.
pub fn output_event(message: WireMessage) -> (event: Option<OutputEvent>)
    ensures
        event == event_of(message),
{
    if text::same_text(message.message_type.as_str(), "status") {
        Some(
            OutputEvent::Progress(
                BackupProgress {
                    percent_done: message.percent_done,
                    files_done: message.files_done,
                    total_files: message.total_files,
                    bytes_done: message.bytes_done,
                    total_bytes: message.total_bytes,
                    error_count: message.error_count,
                },
            ),
        )
    } else if text::same_text(message.message_type.as_str(), "summary") {
        Some(
            OutputEvent::Summary(
                BackupSummary {
                    files_processed: message.total_files_processed,
                    bytes_processed: message.total_bytes_processed,
                    data_added: message.data_added,
                    snapshot_id: message.snapshot_id,
                },
            ),
        )
    } else if text::same_text(message.message_type.as_str(), "error") {
        let (fallback, cleanup) = match &message.error_message {
            Some(error) => (
                is_vss_fallback_error(error.as_str()),
                is_vss_cleanup_error(error.as_str()),
            ),
            None => {
                let empty = String::new();
                (is_vss_fallback_error(empty.as_str()), is_vss_cleanup_error(empty.as_str()))
            },
        };
        if fallback {
            Some(OutputEvent::VssFallback)
        } else if cleanup {
            Some(OutputEvent::VssCleanupFailed)
        } else {
            match message.item {
                Some(item) => Some(OutputEvent::FailureItem(item)),
                None => Some(OutputEvent::FailureItemOmitted),
            }
        }
    } else {
        None
    }
}

/// Reads a line of output: a plain report of a missing source comes first, and
/// otherwise the line is the message that the host decoded from it.
pub fn parse_output_event(line: &[u8], decoded: Option<WireMessage>) -> (event: Result<
    Option<OutputEvent>,
    (),
>)
    ensures
        match missing_item_of(line@) {
            Some(item) => event matches Ok(Some(OutputEvent::FailureItem(name))) && name@ == item,
            None => match decoded {
                Some(message) => event == Ok::<Option<OutputEvent>, ()>(event_of(message)),
                None => event is Err,
            },
        },
{
    match parse_plain_missing_item(line) {
        Some(item) => Ok(Some(OutputEvent::FailureItem(item))),
        None => match decoded {
            Some(message) => Ok(output_event(message)),
            None => Err(()),
        },
    }
}

/// What was learnt from all the lines of a stream.
pub struct ParsedOutput {
    pub summary: Option<BackupSummary>,
    pub invalid_message: bool,
    pub failure_details: BackupFailureDetails,
    pub vss_fallback: bool,
    pub vss_cleanup_failed: bool,
}

/// The details after an event.
pub open spec fn details_after(details: FailureDetails, event: Option<OutputEvent>) -> FailureDetails {
    match event {
        Some(OutputEvent::FailureItem(item)) => details.with_item(item@),
        Some(OutputEvent::FailureItemOmitted) => details.with_omitted(1),
        _ => details,
    }
}

/// What was learnt, with the details by what they hold.
pub ghost struct Findings {
    pub summary: Option<BackupSummary>,
    pub invalid_message: bool,
    pub failure_details: FailureDetails,
    pub vss_fallback: bool,
    pub vss_cleanup_failed: bool,
}

impl View for ParsedOutput {
    type V = Findings;

    open spec fn view(&self) -> Findings {
        Findings {
            summary: self.summary,
            invalid_message: self.invalid_message,
            failure_details: self.failure_details@,
            vss_fallback: self.vss_fallback,
            vss_cleanup_failed: self.vss_cleanup_failed,
        }
    }
}

/// A line of a stream: what it says, or that it is oversized or malformed.
pub type Line = Result<Option<OutputEvent>, ()>;

impl Findings {
    /// Nothing was read.
    pub open spec fn nothing() -> Findings {
        Findings {
            summary: None,
            invalid_message: false,
            failure_details: FailureDetails::none(),
            vss_fallback: false,
            vss_cleanup_failed: false,
        }
    }

    /// What is known after one more line.
    pub open spec fn after_line(self, line: Line) -> Findings {
        match line {
            Err(()) => Findings { invalid_message: true, ..self },
            Ok(event) => Findings {
                summary: match event {
                    Some(OutputEvent::Summary(summary)) => Some(summary),
                    _ => self.summary,
                },
                invalid_message: self.invalid_message,
                failure_details: details_after(self.failure_details, event),
                vss_fallback: self.vss_fallback || event == Some(OutputEvent::VssFallback),
                vss_cleanup_failed: self.vss_cleanup_failed || event == Some(
                    OutputEvent::VssCleanupFailed,
                ),
            },
        }
    }

    /// What is known after all the lines of a stream.
    pub open spec fn after_lines(self, lines: Seq<Line>) -> Findings
        decreases lines.len(),
    {
        if lines.len() == 0 {
            self
        } else {
            self.after_lines(lines.drop_last()).after_line(lines.last())
        }
    }
}

/// Whether a line reports progress and nothing else.
pub open spec fn is_progress(line: Line) -> bool {
    line matches Ok(Some(OutputEvent::Progress(_)))
}

/// Whether a line is a valid summary.
pub open spec fn is_summary(line: Line) -> bool {
    line matches Ok(Some(OutputEvent::Summary(_)))
}

/// The summary of a stream is that of its last summary line, whatever lines
/// stand around it, before and after.
pub proof fn the_last_summary_counts(lines: Seq<Line>, at: int)
    requires
        0 <= at < lines.len(),
        is_summary(lines[at]),
        forall|later: int| at < later < lines.len() ==> !is_summary(#[trigger] lines[later]),
    ensures
        lines[at] == Ok::<Option<OutputEvent>, ()>(
            Some(OutputEvent::Summary(Findings::nothing().after_lines(lines).summary->0)),
        ),
        Findings::nothing().after_lines(lines).summary is Some,
    decreases lines.len(),
{
    let shorter = lines.drop_last();
    if at < shorter.len() {
        assert(!is_summary(lines[lines.len() - 1]));
        assert forall|later: int| at < later < shorter.len() implies !is_summary(
            #[trigger] shorter[later],
        ) by {
            assert(shorter[later] == lines[later]);
        }
        the_last_summary_counts(shorter, at);
    }
}

/// A stream without a summary line has no summary.
pub proof fn no_summary_without_a_summary_line(lines: Seq<Line>)
    requires
        forall|at: int| 0 <= at < lines.len() ==> !is_summary(#[trigger] lines[at]),
    ensures
        Findings::nothing().after_lines(lines).summary is None,
    decreases lines.len(),
{
    if lines.len() > 0 {
        assert(!is_summary(lines[lines.len() - 1]));
        let shorter = lines.drop_last();
        assert forall|at: int| 0 <= at < shorter.len() implies !is_summary(#[trigger] shorter[at]) by {
            assert(shorter[at] == lines[at]);
        }
        no_summary_without_a_summary_line(shorter);
    }
}

/// Reports of progress leave no trace: however many of them there are, a stream
/// comes to what it comes to without them.
pub proof fn progress_leaves_no_trace(before: Findings, lines: Seq<Line>)
    ensures
        before.after_lines(lines) == before.after_lines(
            lines.filter(|line: Line| !is_progress(line)),
        ),
    decreases lines.len(),
{
    reveal(Seq::filter);
    let kept = |line: Line| !is_progress(line);
    if lines.len() > 0 {
        progress_leaves_no_trace(before, lines.drop_last());
        let rest = lines.drop_last().filter(kept);
        if kept(lines.last()) {
            assert(lines.filter(kept) =~= rest.push(lines.last()));
            assert(lines.filter(kept).drop_last() =~= rest);
        } else {
            assert(lines.filter(kept) =~= rest);
        }
    }
}

impl ParsedOutput {
    pub open spec fn is_empty(self) -> bool {
        self@ == Findings::nothing()
    }

    pub fn new() -> (parsed: ParsedOutput)
        ensures
            parsed.is_empty(),
    {
        ParsedOutput {
            summary: None,
            invalid_message: false,
            failure_details: BackupFailureDetails::none(),
            vss_fallback: false,
            vss_cleanup_failed: false,
        }
    }

    /// Takes in one line and hands back the progress that it reports.
    pub fn record(&mut self, line: Line) -> (progress: Option<BackupProgress>)
        ensures
            final(self)@ == old(self)@.after_line(line),
            progress == (match line {
                Ok(Some(OutputEvent::Progress(update))) => Some(update),
                _ => None,
            }),
    {
        match line {
            Ok(Some(OutputEvent::Progress(update))) => {
                return Some(update);
            },
            Ok(Some(OutputEvent::Summary(summary))) => {
                self.summary = Some(summary);
            },
            Ok(Some(OutputEvent::FailureItem(item))) => {
                self.failure_details.push(item);
            },
            Ok(Some(OutputEvent::FailureItemOmitted)) => {
                self.failure_details.omit(1);
            },
            Ok(Some(OutputEvent::VssFallback)) => {
                self.vss_fallback = true;
            },
            Ok(Some(OutputEvent::VssCleanupFailed)) => {
                self.vss_cleanup_failed = true;
            },
            Ok(None) => {},
            Err(()) => {
                self.invalid_message = true;
            },
        }
        None
    }
}

/// A line that is read in pieces, as the pieces of a stream arrive. A line that
/// outgrows the limit is read to its end and then reported as unusable.
pub struct LineReader {
    line: Vec<u8>,
    oversized: bool,
    read_any: bool,
    seen: Ghost<Seq<u8>>,
}

/// Where the first line end of `bytes` stands at or after `from`.
pub open spec fn line_end(bytes: Seq<u8>, from: int) -> int
    decreases bytes.len() - from,
{
    if from < 0 || from >= bytes.len() {
        bytes.len() as int
    } else if bytes[from] == 10 {
        from + 1
    } else {
        line_end(bytes, from + 1)
    }
}

proof fn lemma_line_end(bytes: Seq<u8>, from: int, end: int)
    requires
        0 <= from <= end <= bytes.len(),
        forall|i: int| from <= i < end - 1 ==> #[trigger] bytes[i] != 10,
        from < end,
        bytes[end - 1] == 10 || end == bytes.len(),
    ensures
        line_end(bytes, from) == end,
    decreases end - from,
{
    if bytes[from] == 10 {
        if from + 1 < end {
            assert(bytes[from] != 10);
        }
    } else if from + 1 < end {
        lemma_line_end(bytes, from + 1, end);
    } else {
        assert(line_end(bytes, from + 1) == end);
    }
}

impl LineReader {
    /// Every byte of the line that has arrived so far.
    pub closed spec fn arrived(self) -> Seq<u8> {
        self.seen@
    }

    /// The bytes are kept while they fit the limit, and counted as too many after.
    pub closed spec fn well_formed(self) -> bool {
        &&& self.oversized == (self.seen@.len() > MAX_JSON_LINE_BYTES)
        &&& !self.oversized ==> self.line@ == self.seen@
        &&& self.read_any == (self.seen@.len() > 0)
    }

    pub fn new() -> (reader: LineReader)
        ensures
            reader.well_formed(),
            reader.arrived() == Seq::<u8>::empty(),
    {
        LineReader {
            line: Vec::new(),
            oversized: false,
            read_any: false,
            seen: Ghost(Seq::empty()),
        }
    }

    /// Takes the bytes of `available` from `from` up to the end of the line, or
    /// all of them where the line goes on. Says how far it read, and whether
    /// the line ended there.
    pub fn read_bounded_line(&mut self, available: &[u8], from: usize) -> (step: (usize, bool))
        requires
            old(self).well_formed(),
            from < available@.len(),
        ensures
            final(self).well_formed(),
            step.0 == line_end(available@, from as int),
            from < step.0 <= available@.len(),
            step.1 == (available@[step.0 - 1] == 10),
            final(self).arrived() == old(self).arrived() + available@.subrange(
                from as int,
                step.0 as int,
            ),
    {
        let mut end: usize = from;
        let mut ended = false;
        while end < available.len() && !ended
            invariant
                from <= end <= available@.len(),
                from < available@.len(),
                !ended ==> forall|i: int| from <= i < end ==> #[trigger] available@[i] != 10,
                ended ==> from < end && available@[end - 1] == 10 && forall|i: int|
                    from <= i < end - 1 ==> #[trigger] available@[i] != 10,
            decreases available@.len() - end,
        {
            ended = available[end] == 10;
            end = end + 1;
        }
        proof {
            lemma_line_end(available@, from as int, end as int);
        }
        let consumed: usize = end - from;
        let ghost piece = available@.subrange(from as int, end as int);
        if !self.oversized && consumed <= MAX_JSON_LINE_BYTES && self.line.len()
            <= MAX_JSON_LINE_BYTES - consumed {
            let ghost before = self.line@;
            let mut i: usize = from;
            while i < end
                invariant
                    from <= i <= end <= available@.len(),
                    self.line@ == before + available@.subrange(from as int, i as int),
                    self.oversized == old(self).oversized,
                    self.seen == old(self).seen,
                decreases end - i,
            {
                self.line.push(available[i]);
                i = i + 1;
            }
        } else {
            self.oversized = true;
        }
        self.read_any = true;
        self.seen = Ghost(self.seen@ + piece);
        (end, ended)
    }

    /// Ends the line: its bytes where it fits the limit, `Err` where it does
    /// not, and nothing where no byte of it came.
    pub fn finish(self) -> (line: Option<Result<Vec<u8>, ()>>)
        requires
            self.well_formed(),
        ensures
            match line {
                None => self.arrived().len() == 0,
                Some(Ok(bytes)) => 0 < self.arrived().len() <= MAX_JSON_LINE_BYTES && bytes@
                    == self.arrived(),
                Some(Err(())) => self.arrived().len() > MAX_JSON_LINE_BYTES,
            },
    {
        if !self.read_any {
            None
        } else if self.oversized {
            Some(Err(()))
        } else {
            Some(Ok(self.line))
        }
    }
}

/// A stream cut behind its line ends: the lines that have ended, and what has
/// come of the next one.
pub open spec fn cut(stream: Seq<u8>) -> (Seq<Seq<u8>>, Seq<u8>)
    decreases stream.len(),
{
    if stream.len() == 0 {
        (Seq::empty(), Seq::empty())
    } else {
        let (lines, rest) = cut(stream.drop_last());
        if stream.last() == 10 {
            (lines.push(rest.push(10)), Seq::empty())
        } else {
            (lines, rest.push(stream.last()))
        }
    }
}

proof fn lemma_cut_append(stream: Seq<u8>, piece: Seq<u8>)
    requires
        forall|i: int| 0 <= i < piece.len() - 1 ==> #[trigger] piece[i] != 10,
    ensures
        ({
            let (lines, rest) = cut(stream);
            cut(stream + piece) == (if piece.len() > 0 && piece.last() == 10 {
                (lines.push(rest + piece), Seq::<u8>::empty())
            } else {
                (lines, rest + piece)
            })
        }),
    decreases piece.len(),
{
    let (lines, rest) = cut(stream);
    if piece.len() == 0 {
        assert(stream + piece =~= stream);
        assert(rest + piece =~= rest);
    } else {
        let shorter = piece.drop_last();
        assert forall|i: int| 0 <= i < shorter.len() - 1 implies #[trigger] shorter[i] != 10 by {
            assert(shorter[i] == piece[i]);
        }
        if shorter.len() > 0 {
            assert(shorter.last() == piece[piece.len() - 2]);
            assert(shorter.last() != 10);
        }
        lemma_cut_append(stream, shorter);
        assert((stream + piece).drop_last() =~= stream + shorter);
        assert((stream + piece).last() == piece.last());
        assert((rest + shorter).push(piece.last()) =~= rest + piece);
    }
}

/// What is made of the bytes of a line: they are handed on, or the line is
/// reported as too long.
pub open spec fn hands_on(line: Result<Vec<u8>, ()>, bytes: Seq<u8>) -> bool {
    if bytes.len() <= MAX_JSON_LINE_BYTES {
        line is Ok && line->Ok_0@ == bytes
    } else {
        line is Err
    }
}

/// Reads a stream line by line, as its pieces arrive.
pub struct StreamReader {
    line: LineReader,
    stream: Ghost<Seq<u8>>,
}

impl StreamReader {
    /// Every byte of the stream that was taken so far.
    pub closed spec fn taken(self) -> Seq<u8> {
        self.stream@
    }

    pub closed spec fn well_formed(self) -> bool {
        self.line.well_formed() && self.line.arrived() == cut(self.stream@).1
    }

    pub fn new() -> (reader: StreamReader)
        ensures
            reader.well_formed(),
            reader.taken() == Seq::<u8>::empty(),
    {
        StreamReader { line: LineReader::new(), stream: Ghost(Seq::empty()) }
    }

    /// Takes the bytes up to the next line end, or all where there is none, and
    /// hands the line on that ended. Says how many bytes it took.
    pub fn take(&mut self, available: &[u8]) -> (step: (usize, Option<Result<Vec<u8>, ()>>))
        requires
            old(self).well_formed(),
            available@.len() > 0,
        ensures
            final(self).well_formed(),
            0 < step.0 <= available@.len(),
            final(self).taken() == old(self).taken() + available@.take(step.0 as int),
            match step.1 {
                Some(line) => {
                    let bytes = cut(final(self).taken()).0.last();
                    &&& hands_on(line, bytes)
                    &&& cut(final(self).taken()).0 == cut(old(self).taken()).0.push(bytes)
                },
                None => step.0 == available@.len() && cut(final(self).taken()).0 == cut(
                    old(self).taken(),
                ).0,
            },
    {
        let ghost before = self.stream@;
        let (consumed, ended) = self.line.read_bounded_line(available, 0);
        let ghost piece = available@.subrange(0, consumed as int);
        self.stream = Ghost(before + piece);
        proof {
            assert(piece =~= available@.take(consumed as int));
            lemma_first_line_end(available@, 0);
            lemma_cut_append(before, piece);
            assert(piece.last() == available@[consumed - 1]);
        }
        if !ended {
            return (consumed, None);
        }
        let mut next = LineReader::new();
        std::mem::swap(&mut self.line, &mut next);
        match next.finish() {
            Some(line) => (consumed, Some(line)),
            None => (consumed, None),
        }
    }

    /// Ends the stream and hands its last line on, where that has no line end.
    pub fn finish(self) -> (line: Option<Result<Vec<u8>, ()>>)
        requires
            self.well_formed(),
        ensures
            match line {
                Some(line) => cut(self.taken()).1.len() > 0 && hands_on(line, cut(self.taken()).1),
                None => cut(self.taken()).1.len() == 0,
            },
    {
        self.line.finish()
    }
}

/// The first line end lies where no earlier byte is one.
proof fn lemma_first_line_end(bytes: Seq<u8>, from: int)
    requires
        0 <= from <= bytes.len(),
    ensures
        from <= line_end(bytes, from) <= bytes.len(),
        forall|i: int| from <= i < line_end(bytes, from) - 1 ==> #[trigger] bytes[i] != 10,
        line_end(bytes, from) < bytes.len() ==> from < line_end(bytes, from) && bytes[line_end(
            bytes,
            from,
        ) - 1] == 10,
    decreases bytes.len() - from,
{
    if from < bytes.len() && bytes[from] != 10 {
        lemma_first_line_end(bytes, from + 1);
    }
}

/// Nothing of a stream is lost, and nothing is added: its lines, one after the
/// other, and what has come of the next one are the stream.
pub proof fn the_lines_are_the_stream(stream: Seq<u8>)
    ensures
        cut(stream).0.flatten() + cut(stream).1 == stream,
    decreases stream.len(),
{
    if stream.len() > 0 {
        let (lines, rest) = cut(stream.drop_last());
        the_lines_are_the_stream(stream.drop_last());
        if stream.last() == 10 {
            lines.lemma_flatten_push(rest.push(10));
            assert(lines.flatten() + rest.push(10) =~= (lines.flatten() + rest).push(10));
        }
        assert(stream =~= stream.drop_last().push(stream.last()));
        assert(cut(stream).0.flatten() + cut(stream).1 =~= stream);
    } else {
        assert(cut(stream).0.flatten() + cut(stream).1 =~= stream);
    }
}

/// The first bytes of a stream, up to a limit; the rest passes by.
pub struct PrefixCapturingReader {
    prefix: Vec<u8>,
    limit: usize,
    stream: Ghost<Seq<u8>>,
}

/// The first `limit` elements, or all of them where there are fewer.
pub open spec fn prefix_of(bytes: Seq<u8>, limit: int) -> Seq<u8> {
    if bytes.len() <= limit {
        bytes
    } else {
        bytes.take(limit)
    }
}

impl PrefixCapturingReader {
    /// Every byte of the stream that has passed so far.
    pub closed spec fn passed(self) -> Seq<u8> {
        self.stream@
    }

    pub closed spec fn bound(self) -> usize {
        self.limit
    }

    pub closed spec fn well_formed(self) -> bool {
        self.prefix@ == prefix_of(self.stream@, self.limit as int)
    }

    pub fn new(limit: usize) -> (reader: PrefixCapturingReader)
        ensures
            reader.well_formed(),
            reader.bound() == limit,
            reader.passed() == Seq::<u8>::empty(),
    {
        PrefixCapturingReader { prefix: Vec::new(), limit, stream: Ghost(Seq::empty()) }
    }

    /// Lets the bytes of `buffer` pass.
    pub fn read(&mut self, buffer: &[u8])
        requires
            old(self).well_formed(),
        ensures
            final(self).well_formed(),
            final(self).bound() == old(self).bound(),
            final(self).passed() == old(self).passed() + buffer@,
    {
        let ghost before = self.prefix@;
        let mut i: usize = 0;
        while i < buffer.len() && self.prefix.len() < self.limit
            invariant
                i <= buffer@.len(),
                self.limit == old(self).limit,
                self.stream == old(self).stream,
                self.prefix@ == before + buffer@.take(i as int),
                i > 0 ==> self.prefix@.len() <= self.limit,
            decreases buffer@.len() - i,
        {
            self.prefix.push(buffer[i]);
            proof {
                assert(buffer@.take(i + 1) == buffer@.take(i as int).push(buffer@[i as int]));
            }
            i = i + 1;
        }
        proof {
            let stream = self.stream@;
            let all = stream + buffer@;
            if stream.len() <= self.limit {
                assert(prefix_of(all, self.limit as int) =~= self.prefix@);
            } else {
                assert(buffer@.take(0) == Seq::<u8>::empty());
                assert(prefix_of(all, self.limit as int) =~= before);
            }
        }
        self.stream = Ghost(self.stream@ + buffer@);
    }

    pub fn into_prefix(self) -> (prefix: Vec<u8>)
        requires
            self.well_formed(),
        ensures
            prefix@ == prefix_of(self.passed(), self.bound() as int),
    {
        self.prefix
    }
}

} // verus!
