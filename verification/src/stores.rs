//! Where the service keeps its files: all of them stand next to the machine
//! configuration.
use crate::paths;
use crate::text;
use vstd::prelude::*;

verus! {

/// The largest local configuration that is read or written, in bytes.
pub const MAX_CONFIG_BYTES: u64 = 1_048_576;

/// The largest schedule state that is read, in bytes.
pub const MAX_STATE_BYTES: u64 = 16_384;

/// The layout of the schedule state that is read and written.
pub const STATE_SCHEMA_VERSION: u32 = 1;

/// What opening a file and reading it, up to one byte past its limit, came to.
#[derive(Debug, Clone, Copy, PartialEq, Eq, Structural)]
pub enum StoredFile {
    Missing,
    Unreadable,
    Read { length: u64 },
}

/// Why the machine configuration was not read or written.
#[derive(Debug, Clone, Copy, PartialEq, Eq, Structural)]
pub enum ConfigStoreError {
    TooLarge,
    Io,
}

/// Where the machine configuration comes from.
#[derive(Debug, Clone, Copy, PartialEq, Eq, Structural)]
pub enum LoadedConfig {
    /// There is none: the service starts with its defaults.
    Defaults,
    Contents,
}

/// What a file says of the machine configuration.
pub open spec fn config_in(file: StoredFile) -> Result<LoadedConfig, ConfigStoreError> {
    match file {
        StoredFile::Missing => Ok(LoadedConfig::Defaults),
        StoredFile::Unreadable => Err(ConfigStoreError::Io),
        StoredFile::Read { length } => if length > MAX_CONFIG_BYTES {
            Err(ConfigStoreError::TooLarge)
        } else {
            Ok(LoadedConfig::Contents)
        },
    }
}

/// The bytes that are written for a configuration.
pub open spec fn written_config(contents: Seq<u8>) -> Result<Seq<u8>, ConfigStoreError> {
    if contents.len() >= MAX_CONFIG_BYTES {
        Err(ConfigStoreError::TooLarge)
    } else {
        Ok(contents.push(10u8))
    }
}

/// The machine configuration that the administrator edits.
#[derive(Debug, PartialEq, Eq)]
pub struct LocalConfigStore {
    path: String,
}

impl View for LocalConfigStore {
    type V = Seq<char>;

    closed spec fn view(&self) -> Seq<char> {
        self.path@
    }
}

impl LocalConfigStore {
    pub fn new(path: &str) -> (store: LocalConfigStore)
        ensures
            store@ == path@,
    {
        LocalConfigStore { path: path.to_owned() }
    }

    pub fn path(&self) -> (path: &str)
        ensures
            path@ == self@,
    {
        self.path.as_str()
    }

    /// The directory that the configuration stands in.
    pub fn directory(&self) -> (directory: Option<String>)
        ensures
            crate::config::chars_of(directory) == paths::parent_of(self@),
    {
        paths::parent(self.path.as_str())
    }

    /// A missing configuration is no error, and a long one is not read.
    pub fn load(file: StoredFile) -> (loaded: Result<LoadedConfig, ConfigStoreError>)
        ensures
            loaded == config_in(file),
    {
        match file {
            StoredFile::Missing => Ok(LoadedConfig::Defaults),
            StoredFile::Unreadable => Err(ConfigStoreError::Io),
            StoredFile::Read { length } => if length > MAX_CONFIG_BYTES {
                Err(ConfigStoreError::TooLarge)
            } else {
                Ok(LoadedConfig::Contents)
            },
        }
    }

    /// What is written for a configuration: its text and a line end. A text that
    /// would not be read again is not written.
    pub fn save(contents: Vec<u8>) -> (written: Result<Vec<u8>, ConfigStoreError>)
        ensures
            match written {
                Ok(bytes) => written_config(contents@) == Ok::<Seq<u8>, ConfigStoreError>(bytes@),
                Err(error) => written_config(contents@) == Err::<Seq<u8>, ConfigStoreError>(error),
            },
    {
        if contents.len() as u64 >= MAX_CONFIG_BYTES {
            return Err(ConfigStoreError::TooLarge);
        }
        let mut bytes = contents;
        bytes.push(10);
        Ok(bytes)
    }
}

/// What was written is short enough to be read again.
pub proof fn a_written_configuration_is_read(contents: Seq<u8>)
    requires
        written_config(contents) is Ok,
    ensures
        config_in(
            StoredFile::Read { length: written_config(contents)->Ok_0.len() as u64 },
        ) == Ok::<LoadedConfig, ConfigStoreError>(LoadedConfig::Contents),
{
}

/// Why the schedule state was not read.
#[derive(Debug, Clone, Copy, PartialEq, Eq, Structural)]
pub enum StateStoreError {
    TooLarge,
    UnsupportedSchema(u32),
    Io,
    Json,
}

/// The schedule state as it stands in its file.
#[derive(Debug, Clone, Copy, PartialEq, Eq, Structural)]
pub struct PersistedScheduleState {
    pub schema_version: u32,
    pub last_success: Option<i128>,
}

/// What a file with this state says of the last successful backup.
pub open spec fn last_success_in(
    file: StoredFile,
    decoded: Option<PersistedScheduleState>,
) -> Result<Option<i128>, StateStoreError> {
    match file {
        StoredFile::Missing => Ok(None),
        StoredFile::Unreadable => Err(StateStoreError::Io),
        StoredFile::Read { length } => if length > MAX_STATE_BYTES {
            Err(StateStoreError::TooLarge)
        } else {
            match decoded {
                None => Err(StateStoreError::Json),
                Some(state) => if state.schema_version != STATE_SCHEMA_VERSION {
                    Err(StateStoreError::UnsupportedSchema(state.schema_version))
                } else {
                    Ok(state.last_success)
                },
            }
        },
    }
}

/// The state that is written after a successful backup.
pub open spec fn state_after_success(last_success: i128) -> PersistedScheduleState {
    PersistedScheduleState {
        schema_version: STATE_SCHEMA_VERSION,
        last_success: Some(last_success),
    }
}

/// A file of the schedule state: what stands in it, in how many bytes.
pub ghost struct StateFile {
    pub state: PersistedScheduleState,
    pub length: u64,
}

/// The file once `saves` were written, one after the other. Each of them takes
/// the place of the whole file.
pub open spec fn file_after(file: Option<StateFile>, saves: Seq<StateFile>) -> Option<StateFile>
    decreases saves.len(),
{
    if saves.len() == 0 {
        file
    } else {
        file_after(Some(saves[0]), saves.drop_first())
    }
}

/// What is read of the last successful backup where the file stands, or none does.
pub open spec fn success_on_disk(file: Option<StateFile>) -> Result<Option<i128>, StateStoreError> {
    match file {
        Some(file) => last_success_in(StoredFile::Read { length: file.length }, Some(file.state)),
        None => last_success_in(StoredFile::Missing, None),
    }
}

/// The successful backup that was written down last is found again, whatever
/// stood in the file before and however often it was written. Only a file that
/// outgrew the limit is refused.
pub proof fn the_last_saved_success_is_loaded(
    file: Option<StateFile>,
    saves: Seq<StateFile>,
    last_success: i128,
)
    requires
        saves.len() > 0,
        saves.last().state == state_after_success(last_success),
    ensures
        success_on_disk(file_after(file, saves)) == (if saves.last().length <= MAX_STATE_BYTES {
            Ok::<Option<i128>, StateStoreError>(Some(last_success))
        } else {
            Err(StateStoreError::TooLarge)
        }),
    decreases saves.len(),
{
    if saves.len() > 1 {
        the_last_saved_success_is_loaded(Some(saves[0]), saves.drop_first(), last_success);
    } else {
        assert(file_after(Some(saves[0]), saves.drop_first()) == Some(saves[0]));
    }
}

/// Where nothing was ever written, no successful backup is found.
pub proof fn no_success_without_a_file()
    ensures
        success_on_disk(file_after(None, Seq::empty())) == Ok::<Option<i128>, StateStoreError>(None),
{
}

/// What the service remembers over a restart.
#[derive(Debug, PartialEq, Eq)]
pub struct ScheduleStateStore {
    path: String,
}

impl View for ScheduleStateStore {
    type V = Seq<char>;

    closed spec fn view(&self) -> Seq<char> {
        self.path@
    }
}

impl ScheduleStateStore {
    pub fn next_to_config(config_path: &str) -> (store: ScheduleStateStore)
        ensures
            store@ == paths::beside(config_path@, "state.json"@),
    {
        ScheduleStateStore { path: paths::with_file_name(config_path, "state.json") }
    }

    /// The last successful backup. Without a file there was none.
    pub fn load_last_success(file: StoredFile, decoded: Option<PersistedScheduleState>) -> (loaded:
        Result<Option<i128>, StateStoreError>)
        ensures
            loaded == last_success_in(file, decoded),
    {
        match file {
            StoredFile::Missing => Ok(None),
            StoredFile::Unreadable => Err(StateStoreError::Io),
            StoredFile::Read { length } => {
                if length > MAX_STATE_BYTES {
                    return Err(StateStoreError::TooLarge);
                }
                match decoded {
                    None => Err(StateStoreError::Json),
                    Some(state) => if state.schema_version != STATE_SCHEMA_VERSION {
                        Err(StateStoreError::UnsupportedSchema(state.schema_version))
                    } else {
                        Ok(state.last_success)
                    },
                }
            },
        }
    }

    pub fn save_last_success(last_success: i128) -> (state: PersistedScheduleState)
        ensures
            state == state_after_success(last_success),
    {
        PersistedScheduleState {
            schema_version: STATE_SCHEMA_VERSION,
            last_success: Some(last_success),
        }
    }

    pub fn path(&self) -> (path: &str)
        ensures
            path@ == self@,
    {
        self.path.as_str()
    }
}

/// The database of past runs.
#[derive(Debug, PartialEq, Eq)]
pub struct BackupHistoryStore {
    path: String,
}

impl View for BackupHistoryStore {
    type V = Seq<char>;

    closed spec fn view(&self) -> Seq<char> {
        self.path@
    }
}

impl BackupHistoryStore {
    pub fn next_to_config(config_path: &str) -> (store: BackupHistoryStore)
        ensures
            store@ == paths::beside(config_path@, "state.db"@),
    {
        BackupHistoryStore { path: paths::with_file_name(config_path, "state.db") }
    }

    pub fn path(&self) -> (path: &str)
        ensures
            path@ == self@,
    {
        self.path.as_str()
    }

    /// The database and the two files that SQLite keeps beside it.
    pub fn database_files(&self) -> (files: Vec<String>)
        ensures
            crate::config::texts_of(files@) == seq![self@, self@ + "-wal"@, self@ + "-shm"@],
    {
        let mut files: Vec<String> = Vec::new();
        files.push(self.path.clone());
        files.push(paths::sqlite_sidecar_path(self.path.as_str(), "-wal"));
        files.push(paths::sqlite_sidecar_path(self.path.as_str(), "-shm"));
        proof {
            assert(crate::config::texts_of(files@) =~= seq![self@, self@ + "-wal"@, self@ + "-shm"@]);
        }
        files
    }
}

/// The managed policy that was last verified.
#[derive(Debug, PartialEq, Eq)]
pub struct ManagedPolicyCache {
    path: String,
}

impl View for ManagedPolicyCache {
    type V = Seq<char>;

    closed spec fn view(&self) -> Seq<char> {
        self.path@
    }
}

impl ManagedPolicyCache {
    pub fn next_to_config(config_path: &str) -> (store: ManagedPolicyCache)
        ensures
            store@ == paths::beside(config_path@, "managed-policy-cache.json"@),
    {
        ManagedPolicyCache {
            path: paths::with_file_name(config_path, "managed-policy-cache.json"),
        }
    }

    pub fn path(&self) -> (path: &str)
        ensures
            path@ == self@,
    {
        self.path.as_str()
    }
}

/// The name of a temporary file that will replace another one.
pub open spec fn temporary_name(label: Seq<char>, process: u32, number: u64) -> Seq<char> {
    "."@ + label + "-"@ + text::decimal(process as nat) + "-"@ + text::decimal(number as nat)
        + ".tmp"@
}

/// A file that is deleted unless it was moved to its place.
#[derive(Debug, PartialEq, Eq)]
pub struct TemporaryFile {
    path: String,
}

impl TemporaryFile {
    /// The file that has to be deleted, and nothing once it is disarmed.
    pub closed spec fn armed(self) -> Option<Seq<char>> {
        if self.path@.len() == 0 {
            None
        } else {
            Some(self.path@)
        }
    }

    /// A temporary file in the directory of `target`. There is none for a
    /// target that stands in no directory.
    pub fn replacing(target: &str, label: &str, process: u32, number: u64) -> (file: Option<
        TemporaryFile,
    >)
        ensures
            file is Some == paths::parent_of(target@) is Some,
            file is Some ==> file->0.armed() == Some(
                paths::below(
                    paths::parent_of(target@)->0,
                    temporary_name(label@, process, number),
                ),
            ),
    {
        match paths::parent(target) {
            Some(directory) => {
                let mut name = ".".to_owned();
                name.append(label);
                name.append("-");
                let process_digits = text::decimal_text(process as u64);
                name.append(process_digits.as_str());
                name.append("-");
                let digits = text::decimal_text(number);
                name.append(digits.as_str());
                name.append(".tmp");
                let path = paths::join(directory.as_str(), name.as_str());
                proof {
                    reveal_strlit(".");
                    assert(name@[0] == '.');
                }
                Some(TemporaryFile { path })
            },
            None => None,
        }
    }

    /// Where the temporary file stands.
    pub fn path(&self) -> (path: &str)
        ensures
            self.armed() is Some ==> path@ == self.armed()->0,
    {
        self.path.as_str()
    }

    /// Keeps the file: it has been moved to its place.
    pub fn disarm(self) -> (file: TemporaryFile)
        ensures
            file.armed() is None,
    {
        TemporaryFile { path: String::new() }
    }

    pub fn to_delete(&self) -> (path: Option<String>)
        ensures
            crate::config::chars_of(path) == self.armed(),
    {
        if self.path.as_str().is_empty() {
            None
        } else {
            Some(self.path.clone())
        }
    }
}

} // verus!
