//! The configuration that the service works with: what the administrator wrote
//! on this machine, and what is in effect once policy and defaults are merged.
use crate::status::{copy_text, RepositoryMode};
use crate::text;
use std::collections::BTreeMap;
use vstd::prelude::*;
use vstd::std_specs::cmp::OrdSpec;
use vstd::std_specs::iter::IteratorSpec;

verus! {

/// An environment variable that hands restic a credential. The password of the
/// repository is the one that every repository needs; the others are numbered
/// in the order of the host's table.
#[derive(Debug, Clone, Copy, PartialEq, Eq, Structural)]
pub enum SecretEnvironmentVariable {
    ResticPassword,
    Other(u16),
}

/// A configuration field that managed policy can set and lock.
#[derive(Debug, Clone, Copy, PartialEq, Eq, Structural)]
pub enum PolicyField {
    BackupPaths,
    BackupExclusions,
    RepositoryDisplayName,
    RepositoryUrl,
    RepositoryMode,
    RepositoryOptions,
    RepositorySecretRefs,
    RestoreEnabled,
    RetentionDaily,
    RetentionWeekly,
    RetentionMonthly,
    RetentionYearly,
    RetentionPruneIntervalDays,
    ScheduleIntervalHours,
    ScheduleWakeGraceSeconds,
    ScheduleWakeLockTimeoutSeconds,
    ScheduleAllowOnBattery,
    ScheduleAllowMeteredNetwork,
    UpdateAutomaticInstall,
}

#[derive(Debug, Clone, Copy, PartialEq, Eq, Structural)]
pub enum ValueSource {
    Default,
    Local,
    ManagedDefault,
    ManagedLocked,
}

/// Where the value of a field came from, and whether policy locks it.
#[derive(Debug, Clone, Copy, PartialEq, Eq, Structural)]
pub struct FieldResolution {
    pub source: ValueSource,
    pub locked: bool,
}

/// Whether policy locks `field`.
pub open spec fn locks(fields: Seq<(PolicyField, FieldResolution)>, field: PolicyField) -> bool {
    exists|i: int| 0 <= i < fields.len() && (#[trigger] fields[i]).0 == field && fields[i].1.locked
}

pub fn field_locked(fields: &Vec<(PolicyField, FieldResolution)>, field: PolicyField) -> (locked:
    bool)
    ensures
        locked == locks(fields@, field),
{
    let mut i: usize = 0;
    while i < fields.len()
        invariant
            i <= fields.len(),
            forall|j: int| 0 <= j < i ==> !((#[trigger] fields@[j]).0 == field && fields@[j].1.locked),
        decreases fields.len() - i,
    {
        if fields[i].0 == field && fields[i].1.locked {
            return true;
        }
        i = i + 1;
    }
    false
}

impl SecretEnvironmentVariable {
    /// Where the variable stands among all: the password of the repository
    /// first, and then the others by their numbers.
    pub open spec fn rank(self) -> u32 {
        match self {
            SecretEnvironmentVariable::ResticPassword => 0,
            SecretEnvironmentVariable::Other(number) => (number + 1) as u32,
        }
    }

    fn place(self) -> (rank: u32)
        ensures
            rank == self.rank(),
    {
        match self {
            SecretEnvironmentVariable::ResticPassword => 0,
            SecretEnvironmentVariable::Other(number) => number as u32 + 1,
        }
    }

    fn at_place(rank: u32) -> (variable: Option<SecretEnvironmentVariable>)
        ensures
            match variable {
                Some(variable) => variable.rank() == rank,
                None => forall|variable: SecretEnvironmentVariable| #[trigger]
                    variable.rank() != rank,
            },
    {
        if rank == 0 {
            Some(SecretEnvironmentVariable::ResticPassword)
        } else if rank <= 65_536 {
            Some(SecretEnvironmentVariable::Other((rank - 1) as u16))
        } else {
            None
        }
    }
}

/// The protected credentials of a repository: for each variable the reference
/// under which the credential store keeps its value.
#[derive(Debug, PartialEq, Eq)]
pub struct SecretRefs {
    references: BTreeMap<u32, String>,
}

impl View for SecretRefs {
    type V = Map<SecretEnvironmentVariable, Seq<char>>;

    closed spec fn view(&self) -> Map<SecretEnvironmentVariable, Seq<char>> {
        Map::new(
            |variable: SecretEnvironmentVariable| self.references@.contains_key(variable.rank()),
            |variable: SecretEnvironmentVariable| self.references@[variable.rank()]@,
        )
    }
}

/// Whether some variable has this reference.
pub open spec fn refers_to(
    refs: Map<SecretEnvironmentVariable, Seq<char>>,
    reference: Seq<char>,
) -> bool {
    exists|variable: SecretEnvironmentVariable| #[trigger]
        refs.contains_key(variable) && refs[variable] == reference
}

/// `variables` are those that have a reference, in their order.
pub open spec fn lists(
    variables: Seq<SecretEnvironmentVariable>,
    refs: Map<SecretEnvironmentVariable, Seq<char>>,
) -> bool {
    &&& forall|i: int, j: int|
        0 <= i < j < variables.len() ==> (#[trigger] variables[i]).rank() < (
        #[trigger] variables[j]).rank()
    &&& forall|variable: SecretEnvironmentVariable|
        variables.contains(variable) == #[trigger] refs.contains_key(variable)
}

/// The numbers come out of the map in their order.
proof fn lemma_keys_increase(references: &BTreeMap<u32, String>, i: int, j: int)
    requires
        0 <= i < j < references.keys().remaining().len(),
    ensures
        *references.keys().remaining()[i] < *references.keys().remaining()[j],
{
    let ranks = references.keys().remaining();
    assert(vstd::laws_cmp::obeys_cmp::<&u32>()) by {
        reveal(vstd::laws_cmp::obeys_partial_cmp_spec_properties);
        reveal(vstd::laws_cmp::obeys_cmp_partial_ord);
        reveal(vstd::laws_cmp::obeys_cmp_ord);
    }
    assert(ranks.unref().to_set() == references@.dom());
    assert(vstd::std_specs::btree::increasing_seq(ranks));
    assert(OrdSpec::cmp_spec(&ranks[i], &ranks[j]) is Less);
}

impl SecretRefs {
    pub fn new() -> (refs: SecretRefs)
        ensures
            refs@ == Map::<SecretEnvironmentVariable, Seq<char>>::empty(),
    {
        let refs = SecretRefs { references: BTreeMap::new() };
        proof {
            assert(refs@ =~= Map::<SecretEnvironmentVariable, Seq<char>>::empty());
        }
        refs
    }

    pub fn contains_key(&self, variable: SecretEnvironmentVariable) -> (held: bool)
        ensures
            held == self@.contains_key(variable),
    {
        self.references.contains_key(&variable.place())
    }

    pub fn get(&self, variable: SecretEnvironmentVariable) -> (reference: Option<String>)
        ensures
            reference is Some == self@.contains_key(variable),
            reference is Some ==> reference->0@ == self@[variable],
    {
        match self.references.get(&variable.place()) {
            Some(reference) => Some(reference.clone()),
            None => None,
        }
    }

    /// Files `reference` under `variable` and hands back what stood there.
    pub fn insert(&mut self, variable: SecretEnvironmentVariable, reference: String) -> (replaced:
        Option<String>)
        ensures
            final(self)@ == old(self)@.insert(variable, reference@),
            replaced is Some == old(self)@.contains_key(variable),
            replaced is Some ==> replaced->0@ == old(self)@[variable],
    {
        let ghost filed = reference@;
        let replaced = self.references.insert(variable.place(), reference);
        proof {
            assert(self@ =~= old(self)@.insert(variable, filed));
        }
        replaced
    }

    /// Drops `variable` and hands back the reference that it had.
    pub fn remove(&mut self, variable: SecretEnvironmentVariable) -> (removed: Option<String>)
        ensures
            final(self)@ == old(self)@.remove(variable),
            removed is Some == old(self)@.contains_key(variable),
            removed is Some ==> removed->0@ == old(self)@[variable],
    {
        let removed = self.references.remove(&variable.place());
        proof {
            assert(self@ =~= old(self)@.remove(variable));
        }
        removed
    }

    /// The variables that have a reference, in their order.
    pub fn keys(&self) -> (keys: Vec<SecretEnvironmentVariable>)
        ensures
            lists(keys@, self@),
    {
        let mut keys: Vec<SecretEnvironmentVariable> = Vec::new();
        for rank in ranks: self.references.keys()
            invariant
                ranks.seq() == self.references.keys().remaining(),
                forall|i: int, j: int|
                    0 <= i < j < keys@.len() ==> (#[trigger] keys@[i]).rank() < (
                    #[trigger] keys@[j]).rank(),
                forall|i: int|
                    0 <= i < keys@.len() ==> self@.contains_key(#[trigger] keys@[i]),
                forall|i: int, k: int|
                    0 <= i < keys@.len() && ranks.index() <= k < ranks.seq().len() ==> (
                    #[trigger] keys@[i]).rank() < *(#[trigger] ranks.seq()[k]),
                forall|k: int, variable: SecretEnvironmentVariable|
                    0 <= k < ranks.index() && *(#[trigger] ranks.seq()[k])
                        == #[trigger] variable.rank() ==> keys@.contains(variable),
        {
            let ghost before = keys@;
            let ghost at = ranks.index();
            proof {
                assert(ranks.seq().unref()[at] == *rank);
                assert(ranks.seq().unref().to_set().contains(*rank));
            }
            if let Some(variable) = SecretEnvironmentVariable::at_place(*rank) {
                keys.push(variable);
                proof {
                    assert(keys@[before.len() as int] == variable);
                    assert forall|other: SecretEnvironmentVariable| #[trigger]
                        before.contains(other) implies keys@.contains(other) by {
                        let held = before.index_of(other);
                        assert(keys@[held] == other);
                    }
                    assert forall|k: int| at + 1 <= k < ranks.seq().len() implies *rank
                        < *(#[trigger] ranks.seq()[k]) by {
                        lemma_keys_increase(&self.references, at, k);
                    }
                }
            }
        }
        proof {
            let all = self.references.keys().remaining();
            assert forall|variable: SecretEnvironmentVariable|
                keys@.contains(variable) == #[trigger] self@.contains_key(variable) by {
                if self@.contains_key(variable) {
                    assert(all.unref().to_set().contains(variable.rank()));
                    let at = all.unref().index_of(variable.rank());
                    assert(all.unref()[at] == *all[at]);
                }
                if keys@.contains(variable) {
                    let at = keys@.index_of(variable);
                    assert(self@.contains_key(keys@[at]));
                }
            }
        }
        keys
    }

    /// The variables that have a reference, in their order, each with its own.
    pub fn entries(&self) -> (entries: Vec<(SecretEnvironmentVariable, String)>)
        ensures
            lists(variables_of(entries@), self@),
            forall|i: int|
                0 <= i < entries@.len() ==> (#[trigger] entries@[i]).1@ == self@[entries@[i].0],
    {
        let keys = self.keys();
        let mut entries: Vec<(SecretEnvironmentVariable, String)> = Vec::new();
        let mut i: usize = 0;
        while i < keys.len()
            invariant
                i <= keys@.len(),
                lists(keys@, self@),
                variables_of(entries@) == keys@.take(i as int),
                forall|j: int|
                    0 <= j < entries@.len() ==> (#[trigger] entries@[j]).1@ == self@[entries@[j].0],
            decreases keys@.len() - i,
        {
            let ghost before = entries@;
            let variable = keys[i];
            proof {
                assert(keys@.contains(variable));
            }
            if let Some(reference) = self.get(variable) {
                entries.push((variable, reference));
            }
            proof {
                assert(variables_of(entries@) =~= variables_of(before).push(variable));
                assert(keys@.take(i + 1) =~= keys@.take(i as int).push(variable));
            }
            i = i + 1;
        }
        proof {
            assert(keys@.take(keys@.len() as int) =~= keys@);
        }
        entries
    }

    /// Whether every credential of `self` has the same reference in `other`.
    fn within(&self, other: &SecretRefs) -> (within: bool)
        ensures
            within == (forall|variable: SecretEnvironmentVariable|
                #[trigger] self@.contains_key(variable) ==> other@.contains_key(variable)
                    && other@[variable] == self@[variable]),
    {
        let entries = self.entries();
        let mut i: usize = 0;
        while i < entries.len()
            invariant
                i <= entries@.len(),
                lists(variables_of(entries@), self@),
                forall|j: int|
                    0 <= j < entries@.len() ==> (#[trigger] entries@[j]).1@ == self@[entries@[j].0],
                forall|j: int|
                    0 <= j < i ==> other@.contains_key((#[trigger] entries@[j]).0)
                        && other@[entries@[j].0] == self@[entries@[j].0],
            decreases entries@.len() - i,
        {
            let variable = entries[i].0;
            let same = match other.get(variable) {
                Some(theirs) => theirs == entries[i].1,
                None => false,
            };
            if !same {
                proof {
                    assert(variables_of(entries@)[i as int] == variable);
                    assert(variables_of(entries@).contains(variable));
                    assert(self@.contains_key(variable));
                }
                return false;
            }
            i = i + 1;
        }
        proof {
            assert forall|variable: SecretEnvironmentVariable| #[trigger]
                self@.contains_key(variable) implies other@.contains_key(variable)
                && other@[variable] == self@[variable] by {
                let at = variables_of(entries@).index_of(variable);
                assert(variables_of(entries@)[at] == entries@[at].0);
            }
        }
        true
    }

    pub fn same_as(&self, other: &SecretRefs) -> (same: bool)
        ensures
            same == (self@ == other@),
    {
        let same = self.within(other) && other.within(self);
        proof {
            if same {
                assert(self@ =~= other@);
            }
        }
        same
    }

    /// Whether some variable has this reference.
    pub fn contains_value(&self, reference: &String) -> (held: bool)
        ensures
            held == refers_to(self@, reference@),
    {
        let entries = self.entries();
        let mut i: usize = 0;
        while i < entries.len()
            invariant
                i <= entries@.len(),
                lists(variables_of(entries@), self@),
                forall|j: int|
                    0 <= j < entries@.len() ==> (#[trigger] entries@[j]).1@ == self@[entries@[j].0],
                forall|j: int| 0 <= j < i ==> (#[trigger] entries@[j]).1@ != reference@,
            decreases entries@.len() - i,
        {
            if entries[i].1 == *reference {
                proof {
                    assert(variables_of(entries@)[i as int] == entries@[i as int].0);
                    assert(variables_of(entries@).contains(entries@[i as int].0));
                    assert(self@.contains_key(entries@[i as int].0));
                }
                return true;
            }
            i = i + 1;
        }
        proof {
            assert forall|variable: SecretEnvironmentVariable| #[trigger]
                self@.contains_key(variable) implies self@[variable] != reference@ by {
                let at = variables_of(entries@).index_of(variable);
                assert(variables_of(entries@)[at] == entries@[at].0);
            }
        }
        false
    }
}

/// The variables of a list of credentials.
pub open spec fn variables_of(entries: Seq<(SecretEnvironmentVariable, String)>) -> Seq<
    SecretEnvironmentVariable,
> {
    entries.map_values(|entry: (SecretEnvironmentVariable, String)| entry.0)
}

impl Clone for SecretRefs {
    fn clone(&self) -> (copy: SecretRefs)
        ensures
            copy@ == self@,
    {
        SecretRefs { references: self.references.clone() }
    }
}

/// A copy of a list of texts.
pub fn copy_texts(texts: &Vec<String>) -> (copy: Vec<String>)
    ensures
        copy@ == texts@,
{
    let mut copy: Vec<String> = Vec::new();
    let mut i: usize = 0;
    while i < texts.len()
        invariant
            i <= texts.len(),
            copy@ == texts@.take(i as int),
        decreases texts.len() - i,
    {
        copy.push(texts[i].clone());
        i = i + 1;
    }
    copy
}

/// A copy of the options of a repository backend.
pub fn copy_options(options: &Vec<(String, String)>) -> (copy: Vec<(String, String)>)
    ensures
        copy@ == options@,
{
    let mut copy: Vec<(String, String)> = Vec::new();
    let mut i: usize = 0;
    while i < options.len()
        invariant
            i <= options.len(),
            copy@ == options@.take(i as int),
        decreases options.len() - i,
    {
        copy.push((options[i].0.clone(), options[i].1.clone()));
        i = i + 1;
    }
    copy
}

/// The options of a repository backend by their names.
pub open spec fn options_of(options: Seq<(String, String)>) -> Map<Seq<char>, Seq<char>>
    decreases options.len(),
{
    if options.len() == 0 {
        Map::empty()
    } else {
        options_of(options.drop_last()).insert(options.last().0@, options.last().1@)
    }
}

/// Every option stands in the list under its name.
proof fn lemma_option_is_listed(options: Seq<(String, String)>, name: Seq<char>) -> (at: int)
    requires
        options_of(options).contains_key(name),
    ensures
        0 <= at < options.len(),
        options[at].0@ == name,
    decreases options.len(),
{
    if options.last().0@ == name {
        options.len() - 1
    } else {
        let at = lemma_option_is_listed(options.drop_last(), name);
        assert(options.drop_last()[at] == options[at]);
        at
    }
}

fn option_value(options: &Vec<(String, String)>, name: &String) -> (value: Option<String>)
    ensures
        value is Some == options_of(options@).contains_key(name@),
        value is Some ==> value->0@ == options_of(options@)[name@],
{
    let mut i: usize = options.len();
    proof {
        assert(options@.take(options@.len() as int) == options@);
    }
    while i > 0
        invariant
            i <= options@.len(),
            options_of(options@.take(i as int)).contains_key(name@) == options_of(
                options@,
            ).contains_key(name@),
            options_of(options@).contains_key(name@) ==> options_of(options@.take(i as int))[name@]
                == options_of(options@)[name@],
        decreases i,
    {
        i = i - 1;
        proof {
            assert(options@.take(i + 1).drop_last() == options@.take(i as int));
            assert(options@.take(i + 1).last() == options@[i as int]);
        }
        if options[i].0 == *name {
            return Some(options[i].1.clone());
        }
    }
    None
}

/// Whether every option of `left` has the same value in `right`.
fn options_within(left: &Vec<(String, String)>, right: &Vec<(String, String)>) -> (within: bool)
    ensures
        within == (forall|name: Seq<char>| #[trigger]
            options_of(left@).contains_key(name) ==> options_of(right@).contains_key(name)
                && options_of(right@)[name] == options_of(left@)[name]),
{
    let mut i: usize = 0;
    while i < left.len()
        invariant
            i <= left@.len(),
            forall|j: int|
                0 <= j < i && options_of(left@).contains_key((#[trigger] left@[j]).0@)
                    ==> options_of(right@).contains_key(left@[j].0@)
                    && options_of(right@)[left@[j].0@] == options_of(left@)[left@[j].0@],
        decreases left@.len() - i,
    {
        let same = match (option_value(left, &left[i].0), option_value(right, &left[i].0)) {
            (Some(mine), Some(theirs)) => mine == theirs,
            (None, _) => true,
            _ => false,
        };
        if !same {
            proof {
                assert(options_of(left@).contains_key(left@[i as int].0@));
            }
            return false;
        }
        i = i + 1;
    }
    proof {
        assert forall|name: Seq<char>| #[trigger]
            options_of(left@).contains_key(name) implies options_of(right@).contains_key(name)
            && options_of(right@)[name] == options_of(left@)[name] by {
            let at = lemma_option_is_listed(left@, name);
            assert(left@[at].0@ == name);
        }
    }
    true
}

/// Whether two lists hold the same options, in whatever order.
pub fn same_options(left: &Vec<(String, String)>, right: &Vec<(String, String)>) -> (same: bool)
    ensures
        same == (options_of(left@) == options_of(right@)),
{
    let same = options_within(left, right) && options_within(right, left);
    proof {
        if same {
            assert(options_of(left@) =~= options_of(right@));
        }
    }
    same
}

/// The characters of an optional text.
pub open spec fn chars_of(text: Option<String>) -> Option<Seq<char>> {
    match text {
        Some(text) => Some(text@),
        None => None,
    }
}

/// The characters of every text of a list.
pub open spec fn texts_of(texts: Seq<String>) -> Seq<Seq<char>> {
    texts.map_values(|text: String| text@)
}

#[derive(Debug, Clone, Copy, PartialEq, Eq, Structural)]
pub struct ScheduleConfig {
    pub interval_hours: u32,
    pub wake_grace_seconds: u64,
    pub wake_lock_timeout_seconds: u64,
    pub allow_on_battery: bool,
    pub allow_metered_network: bool,
}

#[derive(Debug, Clone, Copy, PartialEq, Eq, Structural)]
pub struct RetentionConfig {
    pub daily: u32,
    pub weekly: u32,
    pub monthly: u32,
    pub yearly: u32,
    pub prune_interval_days: u32,
}

#[derive(Debug, PartialEq, Eq)]
pub struct BackupConfig {
    pub paths: Vec<String>,
    pub exclusions: Vec<String>,
}

#[derive(Debug, PartialEq, Eq)]
pub struct RepositoryConfig {
    pub display_name: Option<String>,
    pub url: Option<String>,
    pub mode: RepositoryMode,
    pub options: Vec<(String, String)>,
    pub secret_refs: SecretRefs,
}

#[derive(Debug, Clone, Copy, PartialEq, Eq, Structural)]
pub struct UpdateConfig {
    pub automatic_install: bool,
}

#[derive(Debug, Clone, Copy, PartialEq, Eq, Structural)]
pub struct RestoreConfig {
    pub enabled: bool,
}

/// The configuration in effect.
#[derive(Debug, PartialEq, Eq)]
pub struct EffectiveConfig {
    pub backup: BackupConfig,
    pub repository: RepositoryConfig,
    pub schedule: ScheduleConfig,
    pub retention: RetentionConfig,
    pub updates: UpdateConfig,
    pub restore: RestoreConfig,
}

pub ghost struct EffectiveConfigView {
    pub paths: Seq<Seq<char>>,
    pub exclusions: Seq<Seq<char>>,
    pub display_name: Option<Seq<char>>,
    pub url: Option<Seq<char>>,
    pub mode: RepositoryMode,
    pub options: Map<Seq<char>, Seq<char>>,
    pub secret_refs: Map<SecretEnvironmentVariable, Seq<char>>,
    pub schedule: ScheduleConfig,
    pub retention: RetentionConfig,
    pub updates: UpdateConfig,
    pub restore: RestoreConfig,
}

impl View for EffectiveConfig {
    type V = EffectiveConfigView;

    open spec fn view(&self) -> EffectiveConfigView {
        EffectiveConfigView {
            paths: texts_of(self.backup.paths@),
            exclusions: texts_of(self.backup.exclusions@),
            display_name: chars_of(self.repository.display_name),
            url: chars_of(self.repository.url),
            mode: self.repository.mode,
            options: options_of(self.repository.options@),
            secret_refs: self.repository.secret_refs@,
            schedule: self.schedule,
            retention: self.retention,
            updates: self.updates,
            restore: self.restore,
        }
    }
}

impl Clone for EffectiveConfig {
    fn clone(&self) -> (copy: EffectiveConfig)
        ensures
            copy@ == self@,
            copy.repository.display_name == self.repository.display_name,
            copy.repository.url == self.repository.url,
    {
        EffectiveConfig {
            backup: BackupConfig {
                paths: copy_texts(&self.backup.paths),
                exclusions: copy_texts(&self.backup.exclusions),
            },
            repository: RepositoryConfig {
                display_name: copy_text(&self.repository.display_name),
                url: copy_text(&self.repository.url),
                mode: self.repository.mode,
                options: copy_options(&self.repository.options),
                secret_refs: self.repository.secret_refs.clone(),
            },
            schedule: self.schedule,
            retention: self.retention,
            updates: self.updates,
            restore: self.restore,
        }
    }
}

impl EffectiveConfig {
    /// A machine can back up once it has sources and a repository.
    pub open spec fn configured(self) -> bool {
        self.backup.paths@.len() > 0 && self.repository.url is Some
    }

    pub fn is_configured(&self) -> (configured: bool)
        ensures
            configured == self.configured(),
    {
        self.backup.paths.len() > 0 && self.repository.url.is_some()
    }
}

#[derive(Debug, Clone, Copy, PartialEq, Eq, Structural)]
pub struct LocalScheduleConfig {
    pub interval_hours: Option<u32>,
    pub wake_grace_seconds: Option<u64>,
    pub wake_lock_timeout_seconds: Option<u64>,
    pub allow_on_battery: Option<bool>,
    pub allow_metered_network: Option<bool>,
}

#[derive(Debug, Clone, Copy, PartialEq, Eq, Structural)]
pub struct LocalRetentionConfig {
    pub daily: Option<u32>,
    pub weekly: Option<u32>,
    pub monthly: Option<u32>,
    pub yearly: Option<u32>,
    pub prune_interval_days: Option<u32>,
}

#[derive(Debug, Clone, Copy, PartialEq, Eq, Structural)]
pub struct LocalUpdateConfig {
    pub automatic_install: Option<bool>,
}

#[derive(Debug, Clone, Copy, PartialEq, Eq, Structural)]
pub struct LocalRestoreConfig {
    pub enabled: Option<bool>,
}

#[derive(Debug, PartialEq, Eq)]
pub struct LocalBackupConfig {
    pub paths: Option<Vec<String>>,
    pub exclusions: Option<Vec<String>>,
}

#[derive(Debug, PartialEq, Eq)]
pub struct LocalRepositoryConfig {
    pub display_name: Option<String>,
    pub url: Option<String>,
    pub mode: Option<RepositoryMode>,
    pub options: Option<Vec<(String, String)>>,
    pub secret_refs: Option<SecretRefs>,
}

/// How the machine learns its managed policy.
#[derive(Debug, Clone, Copy, PartialEq, Eq, Structural)]
pub enum ManagementMode {
    Disabled,
    PlainManifest,
    SignedManifest,
}

#[derive(Debug, PartialEq, Eq)]
pub struct LocalManagementConfig {
    pub mode: ManagementMode,
    pub manifest_url: Option<String>,
    pub signing_public_key: Option<String>,
    pub refresh_interval_minutes: Option<u32>,
    pub status_url: Option<String>,
    pub device_id: Option<String>,
    pub status_token_ref: Option<String>,
    pub enrollment_key_ref: Option<String>,
}

/// The configuration that the administrator wrote on this machine.
#[derive(Debug, PartialEq, Eq)]
pub struct LocalConfig {
    pub backup: LocalBackupConfig,
    pub repository: LocalRepositoryConfig,
    pub schedule: LocalScheduleConfig,
    pub retention: LocalRetentionConfig,
    pub updates: LocalUpdateConfig,
    pub restore: LocalRestoreConfig,
    pub management: LocalManagementConfig,
}

pub ghost struct LocalConfigView {
    pub paths: Option<Seq<Seq<char>>>,
    pub exclusions: Option<Seq<Seq<char>>>,
    pub display_name: Option<Seq<char>>,
    pub url: Option<Seq<char>>,
    pub mode: Option<RepositoryMode>,
    pub options: Option<Map<Seq<char>, Seq<char>>>,
    pub secret_refs: Option<Map<SecretEnvironmentVariable, Seq<char>>>,
    pub schedule: LocalScheduleConfig,
    pub retention: LocalRetentionConfig,
    pub automatic_install: Option<bool>,
    pub restore_enabled: Option<bool>,
    pub management: LocalManagementConfig,
}

pub open spec fn maybe_texts(texts: Option<Vec<String>>) -> Option<Seq<Seq<char>>> {
    match texts {
        Some(texts) => Some(texts_of(texts@)),
        None => None,
    }
}

impl View for LocalConfig {
    type V = LocalConfigView;

    open spec fn view(&self) -> LocalConfigView {
        LocalConfigView {
            paths: maybe_texts(self.backup.paths),
            exclusions: maybe_texts(self.backup.exclusions),
            display_name: chars_of(self.repository.display_name),
            url: chars_of(self.repository.url),
            mode: self.repository.mode,
            options: match self.repository.options {
                Some(options) => Some(options_of(options@)),
                None => None,
            },
            secret_refs: match self.repository.secret_refs {
                Some(refs) => Some(refs@),
                None => None,
            },
            schedule: self.schedule,
            retention: self.retention,
            automatic_install: self.updates.automatic_install,
            restore_enabled: self.restore.enabled,
            management: self.management,
        }
    }
}

impl Clone for LocalManagementConfig {
    fn clone(&self) -> (copy: LocalManagementConfig)
        ensures
            copy == *self,
    {
        LocalManagementConfig {
            mode: self.mode,
            manifest_url: copy_text(&self.manifest_url),
            signing_public_key: copy_text(&self.signing_public_key),
            refresh_interval_minutes: self.refresh_interval_minutes,
            status_url: copy_text(&self.status_url),
            device_id: copy_text(&self.device_id),
            status_token_ref: copy_text(&self.status_token_ref),
            enrollment_key_ref: copy_text(&self.enrollment_key_ref),
        }
    }
}

fn same_optional_text(left: &Option<String>, right: &Option<String>) -> (same: bool)
    ensures
        same == (chars_of(*left) == chars_of(*right)),
{
    match (left, right) {
        (Some(left), Some(right)) => *left == *right,
        (None, None) => true,
        _ => false,
    }
}

impl LocalManagementConfig {
    /// The configuration of a machine that nobody manages.
    pub fn disabled() -> (management: LocalManagementConfig)
        ensures
            management == LocalManagementConfig::unmanaged(),
    {
        LocalManagementConfig {
            mode: ManagementMode::Disabled,
            manifest_url: None,
            signing_public_key: None,
            refresh_interval_minutes: None,
            status_url: None,
            device_id: None,
            status_token_ref: None,
            enrollment_key_ref: None,
        }
    }

    pub open spec fn unmanaged() -> LocalManagementConfig {
        LocalManagementConfig {
            mode: ManagementMode::Disabled,
            manifest_url: None,
            signing_public_key: None,
            refresh_interval_minutes: None,
            status_url: None,
            device_id: None,
            status_token_ref: None,
            enrollment_key_ref: None,
        }
    }

    /// Whether two configurations name the same management source, field by field.
    pub open spec fn reads_as(self, other: LocalManagementConfig) -> bool {
        &&& self.mode == other.mode
        &&& chars_of(self.manifest_url) == chars_of(other.manifest_url)
        &&& chars_of(self.signing_public_key) == chars_of(other.signing_public_key)
        &&& self.refresh_interval_minutes == other.refresh_interval_minutes
        &&& chars_of(self.status_url) == chars_of(other.status_url)
        &&& chars_of(self.device_id) == chars_of(other.device_id)
        &&& chars_of(self.status_token_ref) == chars_of(other.status_token_ref)
        &&& chars_of(self.enrollment_key_ref) == chars_of(other.enrollment_key_ref)
    }

    pub fn same_as(&self, other: &LocalManagementConfig) -> (same: bool)
        ensures
            same == self.reads_as(*other),
    {
        let same_interval = match (self.refresh_interval_minutes, other.refresh_interval_minutes) {
            (Some(left), Some(right)) => left == right,
            (None, None) => true,
            _ => false,
        };
        self.mode == other.mode && same_optional_text(&self.manifest_url, &other.manifest_url)
            && same_optional_text(&self.signing_public_key, &other.signing_public_key)
            && same_interval && same_optional_text(&self.status_url, &other.status_url)
            && same_optional_text(&self.device_id, &other.device_id) && same_optional_text(
            &self.status_token_ref,
            &other.status_token_ref,
        ) && same_optional_text(&self.enrollment_key_ref, &other.enrollment_key_ref)
    }

    /// A machine is enrolled when it follows a signed manifest and holds both
    /// of the credentials that enrolment gave it.
    pub open spec fn is_enrolled(self) -> bool {
        &&& self.mode is SignedManifest
        &&& self.status_token_ref is Some
        &&& self.enrollment_key_ref is Some
    }

    pub fn enrolled(&self) -> (enrolled: bool)
        ensures
            enrolled == self.is_enrolled(),
    {
        self.mode == ManagementMode::SignedManifest && self.status_token_ref.is_some()
            && self.enrollment_key_ref.is_some()
    }
}

impl Clone for LocalConfig {
    fn clone(&self) -> (copy: LocalConfig)
        ensures
            copy@ == self@,
    {
        LocalConfig {
            backup: LocalBackupConfig {
                paths: match &self.backup.paths {
                    Some(paths) => Some(copy_texts(paths)),
                    None => None,
                },
                exclusions: match &self.backup.exclusions {
                    Some(exclusions) => Some(copy_texts(exclusions)),
                    None => None,
                },
            },
            repository: LocalRepositoryConfig {
                display_name: copy_text(&self.repository.display_name),
                url: copy_text(&self.repository.url),
                mode: self.repository.mode,
                options: match &self.repository.options {
                    Some(options) => Some(copy_options(options)),
                    None => None,
                },
                secret_refs: match &self.repository.secret_refs {
                    Some(refs) => Some(refs.clone()),
                    None => None,
                },
            },
            schedule: self.schedule,
            retention: self.retention,
            updates: self.updates,
            restore: self.restore,
            management: self.management.clone(),
        }
    }
}

} // verus!
