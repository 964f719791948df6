//! Bounded operational diagnostics: what may be written, and how the log is
//! kept small.
use crate::paths;
use crate::text;
use vstd::prelude::*;

verus! {

/// The largest log before it is put away, in bytes.
pub const MAX_LOG_BYTES: u64 = 1_048_576;

/// The logs that are kept beside the current one.
pub const MAX_ARCHIVES: usize = 3;

/// The most entries that one request may ask for.
pub const MAX_DIAGNOSTIC_RESULTS: usize = 200;

/// The longest code that is written as it stands, in bytes.
pub const MAX_CODE_CHARACTERS: usize = 96;

#[derive(Debug, Clone, Copy, PartialEq, Eq, Structural)]
pub enum DiagnosticLevel {
    Information,
    Warning,
    Error,
}

#[derive(Debug, PartialEq, Eq)]
pub struct DiagnosticEntry {
    pub timestamp: i128,
    pub level: DiagnosticLevel,
    pub event_id: String,
    pub message: String,
    pub code: Option<String>,
}

pub open spec fn is_code_character(character: char) -> bool {
    ||| 'a' <= character <= 'z'
    ||| text::is_ascii_digit(character)
    ||| character == '_'
    ||| character == '-'
    ||| character == '.'
}

/// A short text of lower-case letters, digits and `_-.`, which can carry no path.
pub open spec fn is_code(code: Seq<char>) -> bool {
    &&& 0 < code.len() <= MAX_CODE_CHARACTERS
    &&& forall|i: int| 0 <= i < code.len() ==> is_code_character(#[trigger] code[i])
}

/// What is written for a code.
pub open spec fn sanitized(code: Seq<char>) -> Seq<char> {
    if is_code(code) {
        code
    } else {
        "unclassified_error"@
    }
}

fn code_character(character: char) -> (yes: bool)
    ensures
        yes == is_code_character(character),
{
    ('a' <= character && character <= 'z') || text::ascii_digit(character) || character == '_'
        || character == '-' || character == '.'
}

/// The code that is written to the log: text that could carry anything else is
/// replaced.
pub fn sanitize_code(value: &str) -> (code: Option<String>)
    ensures
        code is Some,
        code->0@ == sanitized(value@),
{
    let chars = text::characters(value);
    if chars.len() == 0 || chars.len() > MAX_CODE_CHARACTERS {
        return Some("unclassified_error".to_owned());
    }
    let mut i: usize = 0;
    while i < chars.len()
        invariant
            i <= chars@.len(),
            chars@ == value@,
            forall|j: int| 0 <= j < i ==> is_code_character(#[trigger] value@[j]),
        decreases chars@.len() - i,
    {
        if !code_character(chars[i]) {
            proof {
                assert(!is_code_character(value@[i as int]));
            }
            return Some("unclassified_error".to_owned());
        }
        i = i + 1;
    }
    Some(value.to_owned())
}

/// Whatever a code was, what is written for it is a code.
pub proof fn a_written_code_is_a_code(code: Seq<char>)
    ensures
        is_code(sanitized(code)),
        sanitized(sanitized(code)) == sanitized(code),
{
    reveal_strlit("unclassified_error");
    let fallback = "unclassified_error"@;
    assert(is_code(fallback)) by {
        assert forall|i: int| 0 <= i < fallback.len() implies is_code_character(
            #[trigger] fallback[i],
        ) by {}
    }
}

/// The log of the service.
#[derive(Debug, PartialEq, Eq)]
pub struct DiagnosticLog {
    path: String,
}

impl View for DiagnosticLog {
    type V = Seq<char>;

    closed spec fn view(&self) -> Seq<char> {
        self.path@
    }
}

/// Where the log of a configuration stands.
pub open spec fn log_beside(config_path: Seq<char>) -> Seq<char> {
    let parent = match paths::parent_of(config_path) {
        Some(parent) => parent,
        None => "."@,
    };
    paths::below(paths::below(parent, "Logs"@), "service.jsonl"@)
}

/// The name of an older log.
pub open spec fn archive_of(path: Seq<char>, index: nat) -> Seq<char> {
    paths::with_extension_of(path, "jsonl."@ + text::decimal(index))
}

pub fn archive_path(path: &str, index: usize) -> (archive: String)
    ensures
        archive@ == archive_of(path@, index as nat),
{
    let digits = text::decimal_text(index as u64);
    let extension = text::joined("jsonl.", digits.as_str());
    paths::with_extension(path, extension.as_str())
}

/// A step of putting the log away. A file that does not exist is no error.
#[derive(Debug, PartialEq, Eq)]
pub enum RotationStep {
    Remove { path: String },
    Rename { from: String, to: String },
}

pub ghost enum RotationStepView {
    Remove { path: Seq<char> },
    Rename { from: Seq<char>, to: Seq<char> },
}

impl View for RotationStep {
    type V = RotationStepView;

    open spec fn view(&self) -> RotationStepView {
        match self {
            RotationStep::Remove { path } => RotationStepView::Remove { path: path@ },
            RotationStep::Rename { from, to } => RotationStepView::Rename { from: from@, to: to@ },
        }
    }
}

pub open spec fn steps_of(steps: Seq<RotationStep>) -> Seq<RotationStepView> {
    steps.map_values(|step: RotationStep| step@)
}

/// The last archive goes, every other one moves on by one, and the log becomes the first.
pub open spec fn rotation_of(path: Seq<char>) -> Seq<RotationStepView> {
    seq![
        RotationStepView::Remove { path: archive_of(path, 3) },
        RotationStepView::Rename { from: archive_of(path, 2), to: archive_of(path, 3) },
        RotationStepView::Rename { from: archive_of(path, 1), to: archive_of(path, 2) },
        RotationStepView::Rename { from: path, to: archive_of(path, 1) },
    ]
}

impl DiagnosticLog {
    pub fn next_to_config(config_path: &str) -> (log: DiagnosticLog)
        ensures
            log@ == log_beside(config_path@),
    {
        let parent = match paths::parent(config_path) {
            Some(parent) => parent,
            None => ".".to_owned(),
        };
        let directory = paths::join(parent.as_str(), "Logs");
        DiagnosticLog { path: paths::join(directory.as_str(), "service.jsonl") }
    }

    pub fn path(&self) -> (path: &str)
        ensures
            path@ == self@,
    {
        self.path.as_str()
    }

    /// The entry that is written for an event.
    pub fn entry(
        now: i128,
        level: DiagnosticLevel,
        event_id: &str,
        message: &str,
        code: Option<&str>,
    ) -> (entry: DiagnosticEntry)
        ensures
            entry.timestamp == now,
            entry.level == level,
            entry.event_id@ == event_id@,
            entry.message@ == message@,
            entry.code is Some == code is Some,
            code is Some ==> entry.code->0@ == sanitized(code->0@),
    {
        DiagnosticEntry {
            timestamp: now,
            level,
            event_id: event_id.to_owned(),
            message: message.to_owned(),
            code: match code {
                Some(code) => sanitize_code(code),
                None => None,
            },
        }
    }

    /// Whether the log has to be put away before an entry of this size.
    pub fn must_rotate(current_size: u64, entry_size: u64) -> (rotate: bool)
        ensures
            rotate == (current_size + entry_size > MAX_LOG_BYTES),
    {
        current_size.saturating_add(entry_size) > MAX_LOG_BYTES
    }

    /// The steps, in order, that put the log away.
    pub fn rotate(&self) -> (steps: Vec<RotationStep>)
        ensures
            steps_of(steps@) == rotation_of(self@),
    {
        let mut steps: Vec<RotationStep> = Vec::new();
        steps.push(RotationStep::Remove { path: archive_path(self.path.as_str(), MAX_ARCHIVES) });
        steps.push(
            RotationStep::Rename {
                from: archive_path(self.path.as_str(), 2),
                to: archive_path(self.path.as_str(), MAX_ARCHIVES),
            },
        );
        steps.push(
            RotationStep::Rename {
                from: archive_path(self.path.as_str(), 1),
                to: archive_path(self.path.as_str(), 2),
            },
        );
        steps.push(
            RotationStep::Rename {
                from: self.path.clone(),
                to: archive_path(self.path.as_str(), 1),
            },
        );
        proof {
            assert(steps_of(steps@) =~= rotation_of(self@));
        }
        steps
    }

    /// The files that hold entries, from the oldest to the current one.
    pub fn files(&self) -> (files: Vec<String>)
        ensures
            crate::config::texts_of(files@) == seq![
                archive_of(self@, 3),
                archive_of(self@, 2),
                archive_of(self@, 1),
                self@,
            ],
    {
        let mut files: Vec<String> = Vec::new();
        files.push(archive_path(self.path.as_str(), MAX_ARCHIVES));
        files.push(archive_path(self.path.as_str(), 2));
        files.push(archive_path(self.path.as_str(), 1));
        files.push(self.path.clone());
        proof {
            assert(crate::config::texts_of(files@) =~= seq![
                archive_of(self@, 3),
                archive_of(self@, 2),
                archive_of(self@, 1),
                self@,
            ]);
        }
        files
    }

    /// The newest entries of a log that was read from the oldest on.
    pub fn recent(entries: Vec<DiagnosticEntry>, limit: usize) -> (newest: Vec<DiagnosticEntry>)
        ensures
            entries@.len() <= limit ==> newest@ == entries@,
            entries@.len() > limit ==> newest@ == entries@.subrange(
                entries@.len() - limit,
                entries@.len() as int,
            ),
    {
        let mut entries = entries;
        let start: usize = entries.len().saturating_sub(limit);
        entries.split_off(start)
    }
}

} // verus!
