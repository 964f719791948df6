//! What is backed up, what a child process is given, and what the log keeps.
use crate::diagnostics::{
    archive_of, is_code, is_code_character, log_beside, rotation_of, sanitized, RotationStepView,
};
use crate::environment::{
    give_all, inherited_variables, is_child_environment, value_after, Assignment,
};
use crate::executor::InvocationError;
use crate::paths::{is_same_path, on_network, ordinary, unsupported_namespace, PathPrefix};
use crate::sources::{
    distinct_exclusions, distinct_paths, excluded_always, first_error, first_of_each, source_error,
    sources_error, CheckedSource,
};
use crate::stores::{
    config_in, last_success_in, state_after_success, temporary_name, written_config,
    ConfigStoreError, LoadedConfig, PersistedScheduleState, StateStoreError, StoredFile,
};
use crate::text;
use vstd::prelude::*;

verus! {

/// Of sources that are told apart by their case alone the first is kept, and so
/// is every other; exclusions are told apart by every letter.
pub proof fn each_source_is_kept_once(paths: Seq<Seq<char>>, path: Seq<char>)
    ensures
        distinct_paths(Seq::empty()).len() == 0,
        distinct_paths(paths.push(path)) == (if exists|i: int|
            0 <= i < paths.len() && text::unicode_lowercase(#[trigger] paths[i])
                == text::unicode_lowercase(path) {
            distinct_paths(paths)
        } else {
            distinct_paths(paths).push(path)
        }),
        distinct_exclusions(Seq::empty()).len() == 0,
        distinct_exclusions(paths.push(path)) == (if paths.contains(path) {
            distinct_exclusions(paths)
        } else {
            distinct_exclusions(paths).push(path)
        }),
{
    let lower = |path: Seq<char>| text::unicode_lowercase(path);
    let keys = paths.map_values(lower);
    let more = paths.push(path).map_values(lower);
    assert(more.drop_last() =~= keys);
    assert(more.last() == text::unicode_lowercase(path));
    assert(paths.push(path).drop_last() =~= paths);
    if exists|i: int|
        0 <= i < paths.len() && text::unicode_lowercase(#[trigger] paths[i])
            == text::unicode_lowercase(path) {
        let i = choose|i: int|
            0 <= i < paths.len() && text::unicode_lowercase(#[trigger] paths[i])
                == text::unicode_lowercase(path);
        assert(keys[i] == text::unicode_lowercase(path));
    }
    if keys.contains(text::unicode_lowercase(path)) {
        let i = keys.index_of(text::unicode_lowercase(path));
        assert(text::unicode_lowercase(paths[i]) == text::unicode_lowercase(path));
    }
}

/// The service never backs its own folder up, however it is spelled.
pub proof fn the_own_folder_is_excluded(directory: Seq<char>, resolved: Option<Seq<char>>)
    ensures
        excluded_always(directory, resolved)[0] == directory,
        resolved is None ==> excluded_always(directory, resolved).len() == 1,
        resolved is Some && is_same_path(directory, ordinary(resolved->0)) ==> excluded_always(
            directory,
            resolved,
        ).len() == 1,
        resolved is Some && !is_same_path(directory, ordinary(resolved->0)) ==> excluded_always(
            directory,
            resolved,
        ) == seq![directory, ordinary(resolved->0)],
{
}

/// A source is refused where it lies on the network, then where it names no
/// folder of a drive or is an alias, and accepted else.
pub proof fn when_a_source_is_refused(source: CheckedSource)
    ensures
        on_network(source.path@, source.drive_is_remote) ==> source_error(source) == Some(
            InvocationError::UnsupportedNetworkBackupSource,
        ),
        !on_network(source.path@, source.drive_is_remote) && (unsupported_namespace(source.path@)
            || source.spelled_as_resolved == Some(false)) ==> source_error(source) == Some(
            InvocationError::UnsupportedBackupSourceNamespace,
        ),
        source_error(source) is None <==> {
            &&& !on_network(source.path@, source.drive_is_remote)
            &&& !unsupported_namespace(source.path@)
            &&& source.spelled_as_resolved != Some(false)
        },
{
}

/// The first source that is refused decides; only where none is, a protected one
/// does.
pub proof fn the_first_refused_source_decides(sources: Seq<CheckedSource>, source: CheckedSource)
    ensures
        first_error(Seq::empty()) is None,
        first_error(sources) is Some ==> first_error(sources.push(source)) == first_error(sources),
        first_error(sources) is None ==> first_error(sources.push(source)) == source_error(source),
        first_error(sources) is Some ==> sources_error(sources) == first_error(sources),
        first_error(sources) is None ==> (sources_error(sources) is Some <==> exists|i: int|
            0 <= i < sources.len() && (#[trigger] sources[i]).protected),
        first_error(sources) is None && sources_error(sources) is Some ==> sources_error(sources)
            == Some(InvocationError::ProtectedBackupSource),
{
    assert(sources.push(source).drop_last() =~= sources);
}

/// A share is on the network, a drive where its letter is, and nothing else.
pub proof fn what_lies_on_the_network(path: Seq<char>, remote: bool)
    ensures
        crate::paths::prefix_of(path) is Unc || crate::paths::prefix_of(path) is VerbatimUnc
            ==> on_network(path, remote),
        crate::paths::prefix_of(path) is Disk || crate::paths::prefix_of(path) is VerbatimDisk
            ==> on_network(path, remote) == remote,
        crate::paths::prefix_of(path) is Bare || crate::paths::prefix_of(path) is DeviceNamespace
            || crate::paths::prefix_of(path) is Verbatim ==> !on_network(path, remote),
        unsupported_namespace(path) <==> crate::paths::prefix_of(path) is DeviceNamespace
            || crate::paths::prefix_of(path) is Verbatim,
{
}

/// A child takes six variables over from the machine, is given those that were
/// configured, then the pace of its reports, then its credentials, and last of
/// all its cache.
pub proof fn what_a_child_is_given(
    plan: Seq<Assignment>,
    environment: Seq<(String, String)>,
    secrets: Seq<(String, String)>,
    cache: Seq<char>,
    at: int,
)
    requires
        is_child_environment(plan, environment, secrets, cache),
    ensures
        plan.len() == 8 + environment.len() + secrets.len(),
        0 <= at < 6 ==> plan[at] is Inherit,
        plan[0].changes() == "SystemRoot"@,
        plan[1].changes() == "TEMP"@,
        plan[2].changes() == "TMP"@,
        plan[3].changes() == "LOCALAPPDATA"@,
        plan[4].changes() == "APPDATA"@,
        plan[5].changes() == "USERPROFILE"@,
        0 <= at < environment.len() ==> plan[6 + at].gives(environment[at].0@, environment[at].1@),
        plan[6 + environment.len() as int].gives("RESTIC_PROGRESS_FPS"@, "1"@),
        0 <= at < secrets.len() ==> plan[7 + environment.len() + at].gives(
            secrets[at].0@,
            secrets[at].1@,
        ),
        plan.last().gives("RESTIC_CACHE_DIR"@, cache),
{
    let given = plan.subrange(6, 6 + environment.len() as int);
    let hidden = plan.subrange(
        7 + environment.len() as int,
        7 + environment.len() as int + secrets.len() as int,
    );
    assert(plan[0].inherits(inherited_variables()[0]));
    assert(plan[1].inherits(inherited_variables()[1]));
    assert(plan[2].inherits(inherited_variables()[2]));
    assert(plan[3].inherits(inherited_variables()[3]));
    assert(plan[4].inherits(inherited_variables()[4]));
    assert(plan[5].inherits(inherited_variables()[5]));
    if 0 <= at < environment.len() {
        assert(given[at].gives(environment[at].0@, environment[at].1@));
        assert(given[at] == plan[6 + at]);
    }
    if 0 <= at < secrets.len() {
        assert(hidden[at].gives(secrets[at].0@, secrets[at].1@));
        assert(hidden[at] == plan[7 + environment.len() + at]);
    }
}

/// A variable that is given has the value that it is given under its name.
pub proof fn a_given_variable_has_its_value(assignment: Assignment, name: Seq<char>, value: Seq<char>)
    ensures
        assignment.gives(name, value) ==> assignment is Give && assignment.changes() == name,
        assignment.inherits(name) ==> assignment is Inherit && assignment.changes() == name,
        assignment matches Assignment::Give { name: given, value: text } ==> (assignment.gives(
            name,
            value,
        ) <==> given@ == name && text@ == value),
{
}

/// A code that is written to the log is short, of small letters, digits and a
/// few signs; any other is replaced as a whole.
pub proof fn a_logged_code_is_plain(code: Seq<char>)
    ensures
        is_code(code) <==> 0 < code.len() <= 96 && forall|i: int|
            0 <= i < code.len() ==> {
                let character = #[trigger] code[i];
                ||| 'a' <= character <= 'z'
                ||| '0' <= character <= '9'
                ||| character == '_'
                ||| character == '-'
                ||| character == '.'
            },
        is_code(code) ==> sanitized(code) == code,
        !is_code(code) ==> sanitized(code) == "unclassified_error"@,
        sanitized(sanitized(code)) == sanitized(code),
{
    reveal_strlit("unclassified_error");
    let fallback = "unclassified_error"@;
    assert(is_code(fallback)) by {
        assert forall|i: int| 0 <= i < fallback.len() implies is_code_character(
            #[trigger] fallback[i],
        ) by {}
    }
    if is_code(code) {
        assert forall|i: int| 0 <= i < code.len() implies ({
            let character = #[trigger] code[i];
            ||| 'a' <= character <= 'z'
            ||| '0' <= character <= '9'
            ||| character == '_'
            ||| character == '-'
            ||| character == '.'
        }) by {
            assert(is_code_character(code[i]));
        }
    }
}

/// A full log moves up: the oldest goes, each archive takes the number after its
/// own, and the log becomes the first.
pub proof fn a_full_log_moves_up(path: Seq<char>)
    ensures
        ({
            let steps = rotation_of(path);
            &&& steps.len() == 4
            &&& steps[0] == (RotationStepView::Remove { path: archive_of(path, 3) })
            &&& steps[1] == (RotationStepView::Rename {
                from: archive_of(path, 2),
                to: archive_of(path, 3),
            })
            &&& steps[2] == (RotationStepView::Rename {
                from: archive_of(path, 1),
                to: archive_of(path, 2),
            })
            &&& steps[3] == (RotationStepView::Rename { from: path, to: archive_of(path, 1) })
        }),
        forall|index: nat| #[trigger]
            archive_of(path, index) == crate::paths::with_extension_of(
                path,
                "jsonl."@ + text::decimal(index),
            ),
{
}

/// The log lies in a folder of its own, beside the configuration.
pub proof fn where_the_log_lies(config_path: Seq<char>)
    ensures
        crate::paths::parent_of(config_path) is Some ==> log_beside(config_path)
            == crate::paths::below(
            crate::paths::below(crate::paths::parent_of(config_path)->0, "Logs"@),
            "service.jsonl"@,
        ),
        crate::paths::parent_of(config_path) is None ==> log_beside(config_path)
            == crate::paths::below(crate::paths::below("."@, "Logs"@), "service.jsonl"@),
{
}

/// A configuration is read up to a megabyte, and written only where it would be
/// read again; none at all means the defaults.
pub proof fn when_a_configuration_is_read(file: StoredFile, contents: Seq<u8>)
    ensures
        config_in(StoredFile::Missing) == Ok::<LoadedConfig, ConfigStoreError>(
            LoadedConfig::Defaults,
        ),
        file is Unreadable ==> config_in(file) == Err::<LoadedConfig, ConfigStoreError>(
            ConfigStoreError::Io,
        ),
        file is Read && file->length <= 1_048_576 ==> config_in(file) == Ok::<
            LoadedConfig,
            ConfigStoreError,
        >(LoadedConfig::Contents),
        file is Read && file->length > 1_048_576 ==> config_in(file) == Err::<
            LoadedConfig,
            ConfigStoreError,
        >(ConfigStoreError::TooLarge),
        contents.len() < 1_048_576 ==> written_config(contents) == Ok::<
            Seq<u8>,
            ConfigStoreError,
        >(contents.push(10u8)),
        contents.len() >= 1_048_576 ==> written_config(contents) == Err::<
            Seq<u8>,
            ConfigStoreError,
        >(ConfigStoreError::TooLarge),
{
}

/// The state is read up to sixteen kilobytes, of one layout, and a broken file
/// is never taken for none.
pub proof fn when_the_state_is_read(file: StoredFile, decoded: Option<PersistedScheduleState>)
    ensures
        file is Missing ==> last_success_in(file, decoded) == Ok::<Option<i128>, StateStoreError>(
            None,
        ),
        file is Unreadable ==> last_success_in(file, decoded) == Err::<
            Option<i128>,
            StateStoreError,
        >(StateStoreError::Io),
        file is Read && file->length > 16_384 ==> last_success_in(file, decoded) == Err::<
            Option<i128>,
            StateStoreError,
        >(StateStoreError::TooLarge),
        file is Read && file->length <= 16_384 && decoded is None ==> last_success_in(file, decoded)
            == Err::<Option<i128>, StateStoreError>(StateStoreError::Json),
        file is Read && file->length <= 16_384 && decoded is Some && decoded->0.schema_version == 1
            ==> last_success_in(file, decoded) == Ok::<Option<i128>, StateStoreError>(
            decoded->0.last_success,
        ),
        file is Read && file->length <= 16_384 && decoded is Some && decoded->0.schema_version != 1
            ==> last_success_in(file, decoded) == Err::<Option<i128>, StateStoreError>(
            StateStoreError::UnsupportedSchema(decoded->0.schema_version),
        ),
        forall|success: i128|
            (#[trigger] state_after_success(success)).last_success == Some(success)
                && state_after_success(success).schema_version == 1,
{
}

/// A temporary file is named after what it replaces, its process and its number.
pub proof fn how_a_temporary_file_is_named(label: Seq<char>, process: u32, number: u64)
    ensures
        temporary_name(label, process, number) == "."@ + label + "-"@ + text::decimal(
            process as nat,
        ) + "-"@ + text::decimal(number as nat) + ".tmp"@,
{
}

/// What is given is given one by one, each name with its value.
pub proof fn what_is_given_is_given_one_by_one(
    assignments: Seq<Assignment>,
    given: Seq<(String, String)>,
    at: int,
)
    requires
        give_all(assignments, given),
    ensures
        assignments.len() == given.len(),
        0 <= at < given.len() ==> assignments[at].gives(given[at].0@, given[at].1@),
{
}

/// The last assignment of a variable counts; a variable that the machine does not
/// have is not taken over.
pub proof fn the_last_assignment_counts(
    plan: Seq<Assignment>,
    machine: spec_fn(Seq<char>) -> Option<Seq<char>>,
    same: spec_fn(Seq<char>, Seq<char>) -> bool,
    name: Seq<char>,
    last: Assignment,
)
    ensures
        ({
            let before = value_after(plan, machine, same, name);
            let after = value_after(plan.push(last), machine, same, name);
            &&& !same(last.changes(), name) ==> after == before
            &&& last is Give && same(last.changes(), name) ==> after == Some(last->value@)
            &&& last is Inherit && same(last.changes(), name) && machine(last.changes()) is Some
                ==> after == machine(last.changes())
            &&& last is Inherit && machine(last.changes()) is None ==> after == before
            &&& value_after(Seq::empty(), machine, same, name) is None
        }),
{
    assert(plan.push(last).drop_last() =~= plan);
}

} // verus!
