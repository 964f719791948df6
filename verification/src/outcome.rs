//! What a run of restic came to, reduced to codes, counters and a bounded list
//! of the source items that it could not read.
use crate::config;
use crate::status::copy_text;
use vstd::prelude::*;

verus! {

/// The most failed items that one run keeps by name.
pub const MAX_BACKUP_FAILED_ITEMS: usize = 100;

/// The most UTF-8 bytes that the name of a failed item may have.
pub const MAX_BACKUP_FAILED_ITEM_BYTES: usize = 4096;

/// Control characters, and the formatting characters that reorder a line of
/// text when it is shown.
pub open spec fn is_misleading(character: char) -> bool {
    ||| character <= '\u{1f}'
    ||| '\u{7f}' <= character <= '\u{9f}'
    ||| character == '\u{61c}'
    ||| character == '\u{200e}'
    ||| character == '\u{200f}'
    ||| '\u{202a}' <= character <= '\u{202e}'
    ||| '\u{2066}' <= character <= '\u{2069}'
}

/// Whether the name of a failed item can be stored and shown.
pub open spec fn is_safe_item(item: Seq<char>) -> bool {
    &&& item.len() > 0
    &&& vstd::utf8::encode_utf8(item).len() <= MAX_BACKUP_FAILED_ITEM_BYTES
    &&& forall|i: int| 0 <= i < item.len() ==> !is_misleading(#[trigger] item[i])
}

fn misleading(character: char) -> (found: bool)
    ensures
        found == is_misleading(character),
{
    character <= '\u{1f}' || ('\u{7f}' <= character && character <= '\u{9f}') || character
        == '\u{61c}' || character == '\u{200e}' || character == '\u{200f}' || ('\u{202a}'
        <= character && character <= '\u{202e}') || ('\u{2066}' <= character && character
        <= '\u{2069}')
}

pub fn is_safe_backup_failed_item(item: &str) -> (safe: bool)
    ensures
        safe == is_safe_item(item@),
{
    if item.is_empty() || item.as_bytes().len() > MAX_BACKUP_FAILED_ITEM_BYTES {
        return false;
    }
    let chars = crate::text::characters(item);
    let mut i: usize = 0;
    while i < chars.len()
        invariant
            i <= chars.len(),
            chars@ == item@,
            forall|j: int| 0 <= j < i ==> !is_misleading(#[trigger] item@[j]),
        decreases chars.len() - i,
    {
        if misleading(chars[i]) {
            proof {
                assert(is_misleading(item@[i as int]));
            }
            return false;
        }
        i = i + 1;
    }
    true
}

/// A counter that stays at the largest value rather than wrapping.
pub open spec fn saturating_sum(left: u64, right: int) -> u64 {
    if left + right > u64::MAX {
        u64::MAX
    } else {
        (left + right) as u64
    }
}

/// Names of source items that could not be backed up, and how many more there
/// were. The names are private to administrators, so the type shows them only
/// through [`items`](BackupFailureDetails::items).
pub struct BackupFailureDetails {
    items: Vec<String>,
    omitted: u64,
}

pub ghost struct FailureDetails {
    pub items: Seq<Seq<char>>,
    pub omitted: u64,
}

impl FailureDetails {
    /// At most a hundred names, each safe to show, none of them twice.
    pub open spec fn bounded(self) -> bool {
        &&& self.items.len() <= MAX_BACKUP_FAILED_ITEMS
        &&& self.items.no_duplicates()
        &&& forall|i: int| 0 <= i < self.items.len() ==> is_safe_item(#[trigger] self.items[i])
    }

    /// One more failed item: a name that is already there changes nothing, and
    /// one that cannot be kept is counted.
    pub open spec fn with_item(self, item: Seq<char>) -> FailureDetails {
        if self.items.contains(item) {
            self
        } else if !is_safe_item(item) || self.items.len() >= MAX_BACKUP_FAILED_ITEMS {
            FailureDetails { omitted: saturating_sum(self.omitted, 1), ..self }
        } else {
            FailureDetails { items: self.items.push(item), ..self }
        }
    }

    /// The items added one after the other.
    pub open spec fn with_items(self, items: Seq<Seq<char>>) -> FailureDetails
        decreases items.len(),
    {
        if items.len() == 0 {
            self
        } else {
            self.with_items(items.drop_last()).with_item(items.last())
        }
    }

    pub open spec fn with_omitted(self, count: int) -> FailureDetails {
        FailureDetails { omitted: saturating_sum(self.omitted, count), ..self }
    }

    pub open spec fn none() -> FailureDetails {
        FailureDetails { items: Seq::empty(), omitted: 0 }
    }

    /// Two lists as one: the names of both in order, and both counts.
    pub open spec fn merged(self, other: FailureDetails) -> FailureDetails {
        self.with_items(other.items).with_omitted(other.omitted as int)
    }

    /// Adding an item keeps the list bounded.
    pub proof fn adding_keeps_the_bound(self, item: Seq<char>)
        requires
            self.bounded(),
        ensures
            self.with_item(item).bounded(),
    {
        let next = self.with_item(item);
        if next.items.len() > self.items.len() {
            assert(next.items == self.items.push(item));
            assert forall|i: int, j: int|
                0 <= i < next.items.len() && 0 <= j < next.items.len() && i
                    != j implies next.items[i] != next.items[j] by {
                if i == self.items.len() {
                    assert(next.items[j] == self.items[j]);
                    assert(self.items.contains(self.items[j]));
                } else if j == self.items.len() {
                    assert(next.items[i] == self.items[i]);
                    assert(self.items.contains(self.items[i]));
                }
            }
            assert forall|i: int| 0 <= i < next.items.len() implies is_safe_item(
                #[trigger] next.items[i],
            ) by {
                if i < self.items.len() {
                    assert(next.items[i] == self.items[i]);
                }
            }
        }
    }

    pub proof fn adding_all_keeps_the_bound(self, items: Seq<Seq<char>>)
        requires
            self.bounded(),
        ensures
            self.with_items(items).bounded(),
        decreases items.len(),
    {
        if items.len() > 0 {
            self.adding_all_keeps_the_bound(items.drop_last());
            self.with_items(items.drop_last()).adding_keeps_the_bound(items.last());
        }
    }

    /// Merging two bounded lists gives a bounded list.
    pub proof fn merging_keeps_the_bound(self, other: FailureDetails)
        requires
            self.bounded(),
        ensures
            self.merged(other).bounded(),
    {
        self.adding_all_keeps_the_bound(other.items);
    }

    /// A name that was kept stays kept, in its place, however many are added.
    pub proof fn adding_keeps_what_was_there(self, items: Seq<Seq<char>>)
        ensures
            self.items.len() <= self.with_items(items).items.len(),
            self.with_items(items).items.take(self.items.len() as int) == self.items,
            self.omitted <= self.with_items(items).omitted,
        decreases items.len(),
    {
        if items.len() > 0 {
            self.adding_keeps_what_was_there(items.drop_last());
            let before = self.with_items(items.drop_last());
            let after = before.with_item(items.last());
            assert(after.items.take(self.items.len() as int) == before.items.take(
                self.items.len() as int,
            ));
        } else {
            assert(self.items.take(self.items.len() as int) == self.items);
        }
    }

    /// Every item that is added is kept by name or counted: the names and the
    /// count together grow by at most one per item, and by exactly one for a
    /// name that is new.
    pub proof fn a_new_item_is_kept_or_counted(self, item: Seq<char>)
        requires
            !self.items.contains(item),
            self.omitted < u64::MAX,
        ensures
            self.with_item(item).items.len() + self.with_item(item).omitted == self.items.len()
                + self.omitted + 1,
    {
    }
}

impl View for BackupFailureDetails {
    type V = FailureDetails;

    closed spec fn view(&self) -> FailureDetails {
        FailureDetails { items: config::texts_of(self.items@), omitted: self.omitted }
    }
}

/// Whether the list holds the text.
pub fn holds_text(texts: &Vec<String>, text: &String) -> (held: bool)
    ensures
        held == config::texts_of(texts@).contains(text@),
{
    let mut i: usize = 0;
    while i < texts.len()
        invariant
            i <= texts.len(),
            forall|j: int| 0 <= j < i ==> (#[trigger] texts@[j])@ != text@,
        decreases texts.len() - i,
    {
        if texts[i] == *text {
            proof {
                assert(config::texts_of(texts@)[i as int] == text@);
            }
            return true;
        }
        i = i + 1;
    }
    proof {
        if config::texts_of(texts@).contains(text@) {
            let at = config::texts_of(texts@).index_of(text@);
            assert(texts@[at]@ == text@);
        }
    }
    false
}

impl BackupFailureDetails {
    #[verifier::type_invariant]
    spec fn is_bounded(self) -> bool {
        self@.bounded()
    }

    /// No failed item at all.
    pub fn none() -> (details: BackupFailureDetails)
        ensures
            details@ == FailureDetails::none(),
    {
        let details = BackupFailureDetails { items: Vec::new(), omitted: 0 };
        proof {
            assert(details@.items =~= Seq::<Seq<char>>::empty());
        }
        details
    }

    pub fn from_items(items: Vec<String>, omitted: u64) -> (details: BackupFailureDetails)
        ensures
            details@ == (FailureDetails { items: Seq::empty(), omitted }).with_items(
                config::texts_of(items@),
            ),
            details@.bounded(),
    {
        let mut details = BackupFailureDetails { items: Vec::new(), omitted };
        proof {
            assert(details@.items =~= Seq::<Seq<char>>::empty());
        }
        details.push_all(&items);
        details
    }

    pub fn items(&self) -> (items: &Vec<String>)
        ensures
            config::texts_of(items@) == self@.items,
            self@.bounded(),
    {
        proof {
            use_type_invariant(self);
        }
        &self.items
    }

    pub fn omitted(&self) -> (omitted: u64)
        ensures
            omitted == self@.omitted,
    {
        self.omitted
    }

    pub fn push(&mut self, item: String)
        ensures
            final(self)@ == old(self)@.with_item(item@),
            final(self)@.bounded(),
    {
        proof {
            use_type_invariant(&*self);
            self@.adding_keeps_the_bound(item@);
        }
        if holds_text(&self.items, &item) {
            return ;
        }
        if !is_safe_backup_failed_item(item.as_str()) || self.items.len()
            >= MAX_BACKUP_FAILED_ITEMS {
            self.omitted = self.omitted.saturating_add(1);
            return ;
        }
        let ghost before = self.items@;
        let ghost name = item@;
        let mut items = config::copy_texts(&self.items);
        items.push(item);
        proof {
            assert(config::texts_of(items@) =~= config::texts_of(before).push(name));
        }
        self.items = items;
    }

    /// Counts items whose names were never learnt.
    pub fn omit(&mut self, count: u64)
        ensures
            final(self)@ == old(self)@.with_omitted(count as int),
            final(self)@.bounded(),
    {
        proof {
            use_type_invariant(&*self);
        }
        self.omitted = self.omitted.saturating_add(count);
    }

    fn push_all(&mut self, items: &Vec<String>)
        ensures
            final(self)@ == old(self)@.with_items(config::texts_of(items@)),
            final(self)@.bounded(),
    {
        proof {
            use_type_invariant(&*self);
        }
        let mut i: usize = 0;
        while i < items.len()
            invariant
                i <= items.len(),
                self@.bounded(),
                self@ == old(self)@.with_items(config::texts_of(items@.take(i as int))),
            decreases items.len() - i,
        {
            proof {
                let seen = config::texts_of(items@.take(i as int));
                let longer = config::texts_of(items@.take(i + 1));
                assert(longer.drop_last() =~= seen);
                assert(longer.last() == items@[i as int]@);
            }
            self.push(items[i].clone());
            i = i + 1;
        }
        proof {
            assert(items@.take(items@.len() as int) == items@);
        }
    }

    pub fn merge(&mut self, other: BackupFailureDetails)
        ensures
            final(self)@ == old(self)@.merged(other@),
            final(self)@.bounded(),
    {
        self.push_all(&other.items);
        self.omit(other.omitted);
    }
}

impl Clone for BackupFailureDetails {
    fn clone(&self) -> (copy: BackupFailureDetails)
        ensures
            copy@ == self@,
    {
        proof {
            use_type_invariant(self);
        }
        BackupFailureDetails { items: config::copy_texts(&self.items), omitted: self.omitted }
    }
}

#[derive(Debug, PartialEq, Eq)]
pub struct BackupSummary {
    pub files_processed: u64,
    pub bytes_processed: u64,
    pub data_added: u64,
    pub snapshot_id: Option<String>,
}

impl Clone for BackupSummary {
    fn clone(&self) -> (copy: BackupSummary)
        ensures
            copy == *self,
    {
        BackupSummary {
            files_processed: self.files_processed,
            bytes_processed: self.bytes_processed,
            data_added: self.data_added,
            snapshot_id: copy_text(&self.snapshot_id),
        }
    }
}

#[derive(Debug, PartialEq, Eq)]
pub enum BackupOutcomeKind {
    Succeeded,
    SucceededWithWarnings,
    Failed { code: String },
    Cancelled,
}

impl Clone for BackupOutcomeKind {
    fn clone(&self) -> (copy: BackupOutcomeKind)
        ensures
            copy == *self,
    {
        match self {
            BackupOutcomeKind::Succeeded => BackupOutcomeKind::Succeeded,
            BackupOutcomeKind::SucceededWithWarnings => BackupOutcomeKind::SucceededWithWarnings,
            BackupOutcomeKind::Failed { code } => BackupOutcomeKind::Failed { code: code.clone() },
            BackupOutcomeKind::Cancelled => BackupOutcomeKind::Cancelled,
        }
    }
}

pub struct BackupOutcome {
    pub kind: BackupOutcomeKind,
    pub summary: Option<BackupSummary>,
    pub warning_code: Option<String>,
    pub failure_details: BackupFailureDetails,
}

impl BackupOutcome {
    /// The run made a snapshot.
    pub open spec fn made_a_snapshot(self) -> bool {
        self.kind is Succeeded || self.kind is SucceededWithWarnings
    }

    /// A failure with this code and nothing else.
    pub open spec fn is_failure(self, code: Seq<char>) -> bool {
        &&& self.kind is Failed
        &&& self.kind->code@ == code
        &&& self.summary is None
        &&& self.warning_code is None
        &&& self.failure_details@ == FailureDetails::none()
    }

    pub open spec fn is_cancellation(self) -> bool {
        &&& self.kind is Cancelled
        &&& self.summary is None
        &&& self.warning_code is None
        &&& self.failure_details@ == FailureDetails::none()
    }

    pub open spec fn is_clean(self, summary: BackupSummary) -> bool {
        &&& self.kind is Succeeded
        &&& self.summary == Some(summary)
        &&& self.warning_code is None
        &&& self.failure_details@ == FailureDetails::none()
    }

    pub open spec fn is_warning(
        self,
        summary: BackupSummary,
        code: Seq<char>,
        details: FailureDetails,
    ) -> bool {
        &&& self.kind is SucceededWithWarnings
        &&& self.summary == Some(summary)
        &&& config::chars_of(self.warning_code) == Some(code)
        &&& self.failure_details@ == details
    }

    /// `self` is `before` with a warning added: a run that made a snapshot
    /// becomes a run with warnings that keeps its first code, and any other run
    /// is left as it was.
    pub open spec fn warns(self, before: BackupOutcome, code: Seq<char>) -> bool {
        &&& self.summary == before.summary
        &&& self.failure_details == before.failure_details
        &&& if before.made_a_snapshot() {
            &&& self.kind is SucceededWithWarnings
            &&& config::chars_of(self.warning_code) == Some(
                match config::chars_of(before.warning_code) {
                    Some(first) => first,
                    None => code,
                },
            )
        } else {
            &&& self.kind == before.kind
            &&& self.warning_code == before.warning_code
        }
    }

    pub fn succeeded(summary: BackupSummary) -> (outcome: BackupOutcome)
        ensures
            outcome.is_clean(summary),
    {
        BackupOutcome {
            kind: BackupOutcomeKind::Succeeded,
            summary: Some(summary),
            warning_code: None,
            failure_details: BackupFailureDetails::none(),
        }
    }

    pub fn warnings(
        summary: BackupSummary,
        code: &str,
        failure_details: BackupFailureDetails,
    ) -> (outcome: BackupOutcome)
        ensures
            outcome.is_warning(summary, code@, failure_details@),
    {
        BackupOutcome {
            kind: BackupOutcomeKind::SucceededWithWarnings,
            summary: Some(summary),
            warning_code: Some(code.to_owned()),
            failure_details,
        }
    }

    pub fn failed(code: &str) -> (outcome: BackupOutcome)
        ensures
            outcome.is_failure(code@),
    {
        BackupOutcome {
            kind: BackupOutcomeKind::Failed { code: code.to_owned() },
            summary: None,
            warning_code: None,
            failure_details: BackupFailureDetails::none(),
        }
    }

    pub fn cancelled() -> (outcome: BackupOutcome)
        ensures
            outcome.is_cancellation(),
    {
        BackupOutcome {
            kind: BackupOutcomeKind::Cancelled,
            summary: None,
            warning_code: None,
            failure_details: BackupFailureDetails::none(),
        }
    }

    /// Whether the run made a snapshot, so that old ones may be thinned out.
    pub fn has_snapshot(&self) -> (made: bool)
        ensures
            made == self.made_a_snapshot(),
    {
        match &self.kind {
            BackupOutcomeKind::Succeeded | BackupOutcomeKind::SucceededWithWarnings => true,
            _ => false,
        }
    }

    /// The outcome with a warning. The first warning explains incomplete or
    /// live-source data, so a later one never hides it.
    pub fn with_warning(self, code: &str) -> (outcome: BackupOutcome)
        ensures
            outcome.warns(self, code@),
    {
        match self.kind {
            BackupOutcomeKind::Succeeded | BackupOutcomeKind::SucceededWithWarnings => {
                BackupOutcome {
                    kind: BackupOutcomeKind::SucceededWithWarnings,
                    summary: self.summary,
                    warning_code: match self.warning_code {
                        Some(first) => Some(first),
                        None => Some(code.to_owned()),
                    },
                    failure_details: self.failure_details,
                }
            },
            _ => self,
        }
    }
}

/// The second of two warnings changes nothing of what the first one left.
pub proof fn the_first_warning_stands(
    before: BackupOutcome,
    first: Seq<char>,
    once: BackupOutcome,
    second: Seq<char>,
    twice: BackupOutcome,
)
    requires
        before.made_a_snapshot(),
        once.warns(before, first),
        twice.warns(once, second),
    ensures
        twice.kind is SucceededWithWarnings,
        config::chars_of(twice.warning_code) == config::chars_of(once.warning_code),
        twice.summary == before.summary,
{
}

/// A warning never turns a failed or cancelled run into one that made a snapshot.
pub proof fn a_warning_never_hides_a_failure(
    before: BackupOutcome,
    code: Seq<char>,
    after: BackupOutcome,
)
    requires
        after.warns(before, code),
    ensures
        after.made_a_snapshot() == before.made_a_snapshot(),
        !before.made_a_snapshot() ==> after.kind == before.kind,
{
}

#[derive(Debug, PartialEq, Eq)]
pub enum RepositoryOutcomeKind {
    Succeeded,
    Failed { code: String },
    Cancelled,
}

#[derive(Debug, PartialEq, Eq)]
pub struct RepositoryOutcome {
    pub kind: RepositoryOutcomeKind,
}

impl RepositoryOutcome {
    pub open spec fn is_failure(self, code: Seq<char>) -> bool {
        self.kind is Failed && self.kind->code@ == code
    }

    pub fn succeeded() -> (outcome: RepositoryOutcome)
        ensures
            outcome.kind is Succeeded,
    {
        RepositoryOutcome { kind: RepositoryOutcomeKind::Succeeded }
    }

    pub fn failed(code: &str) -> (outcome: RepositoryOutcome)
        ensures
            outcome.is_failure(code@),
    {
        RepositoryOutcome { kind: RepositoryOutcomeKind::Failed { code: code.to_owned() } }
    }

    pub fn cancelled() -> (outcome: RepositoryOutcome)
        ensures
            outcome.kind is Cancelled,
    {
        RepositoryOutcome { kind: RepositoryOutcomeKind::Cancelled }
    }
}

#[derive(Debug, PartialEq, Eq)]
pub enum RetentionOutcomeKind {
    Succeeded { pruned: bool },
    Failed { code: String },
    Cancelled,
}

#[derive(Debug, PartialEq, Eq)]
pub struct RetentionOutcome {
    pub kind: RetentionOutcomeKind,
}

impl RetentionOutcome {
    pub open spec fn is_failure(self, code: Seq<char>) -> bool {
        self.kind is Failed && self.kind->code@ == code
    }

    pub fn succeeded(pruned: bool) -> (outcome: RetentionOutcome)
        ensures
            outcome.kind == (RetentionOutcomeKind::Succeeded { pruned }),
    {
        RetentionOutcome { kind: RetentionOutcomeKind::Succeeded { pruned } }
    }

    pub fn failed(code: &str) -> (outcome: RetentionOutcome)
        ensures
            outcome.is_failure(code@),
    {
        RetentionOutcome { kind: RetentionOutcomeKind::Failed { code: code.to_owned() } }
    }

    pub fn cancelled() -> (outcome: RetentionOutcome)
        ensures
            outcome.kind is Cancelled,
    {
        RetentionOutcome { kind: RetentionOutcomeKind::Cancelled }
    }
}

} // verus!
