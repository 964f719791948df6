//! The folders that are backed up: which of them count as one, and which the
//! service cannot back up.
use crate::config::{chars_of, texts_of};
use crate::executor::InvocationError;
use crate::paths::{
    is_same_path, on_network, ordinary, ordinary_windows_path, same_path, source_is_network_path,
    source_uses_unsupported_local_namespace, unsupported_namespace,
};
use crate::text::{to_lowercase, unicode_lowercase};
use vstd::prelude::*;

verus! {

/// The texts whose key has not occurred before, in their order.
pub open spec fn first_of_each(texts: Seq<Seq<char>>, keys: Seq<Seq<char>>) -> Seq<Seq<char>>
    decreases texts.len(),
{
    if texts.len() == 0 {
        Seq::empty()
    } else {
        let before = first_of_each(texts.drop_last(), keys.drop_last());
        if keys.drop_last().contains(keys.last()) {
            before
        } else {
            before.push(texts.last())
        }
    }
}

/// Of the texts with one key only the first is kept.
pub fn keep_first(texts: &Vec<String>, keys: &Vec<String>) -> (kept: Vec<String>)
    requires
        texts@.len() == keys@.len(),
    ensures
        texts_of(kept@) == first_of_each(texts_of(texts@), texts_of(keys@)),
{
    let mut kept: Vec<String> = Vec::new();
    let mut i: usize = 0;
    while i < texts.len()
        invariant
            texts@.len() == keys@.len(),
            i <= texts@.len(),
            texts_of(kept@) == first_of_each(
                texts_of(texts@.take(i as int)),
                texts_of(keys@.take(i as int)),
            ),
        decreases texts@.len() - i,
    {
        let mut seen = false;
        let mut j: usize = 0;
        while j < i
            invariant
                j <= i < keys@.len(),
                seen == texts_of(keys@.take(j as int)).contains(keys@[i as int]@),
            decreases i - j,
        {
            proof {
                let earlier = texts_of(keys@.take(j as int));
                assert(texts_of(keys@.take(j + 1)) == earlier.push(keys@[j as int]@));
                assert(earlier.push(keys@[j as int]@)[j as int] == keys@[j as int]@);
                if earlier.contains(keys@[i as int]@) {
                    let at = earlier.index_of(keys@[i as int]@);
                    assert(earlier.push(keys@[j as int]@)[at] == keys@[i as int]@);
                }
            }
            if keys[j] == keys[i] {
                seen = true;
            }
            j = j + 1;
        }
        proof {
            assert(texts_of(texts@.take(i + 1)).drop_last() == texts_of(texts@.take(i as int)));
            assert(texts_of(keys@.take(i + 1)).drop_last() == texts_of(keys@.take(i as int)));
        }
        let ghost before = kept@;
        if !seen {
            kept.push(texts[i].clone());
            proof {
                assert(texts_of(kept@) == texts_of(before).push(texts@[i as int]@));
            }
        }
        i = i + 1;
    }
    proof {
        assert(texts@.take(texts@.len() as int) == texts@);
        assert(keys@.take(keys@.len() as int) == keys@);
    }
    kept
}

/// The folders without those that another one spells in other letters.
pub open spec fn distinct_paths(paths: Seq<Seq<char>>) -> Seq<Seq<char>> {
    first_of_each(paths, paths.map_values(|path: Seq<char>| unicode_lowercase(path)))
}

/// Windows does not tell upper from lower case, so neither does a list of folders.
pub fn deduplicate_paths(paths: &Vec<String>) -> (kept: Vec<String>)
    ensures
        texts_of(kept@) == distinct_paths(texts_of(paths@)),
{
    let mut keys: Vec<String> = Vec::new();
    let mut i: usize = 0;
    while i < paths.len()
        invariant
            i <= paths@.len(),
            keys@.len() == i,
            forall|j: int| 0 <= j < i ==> (#[trigger] keys@[j])@ == unicode_lowercase(paths@[j]@),
        decreases paths@.len() - i,
    {
        keys.push(to_lowercase(paths[i].as_str()));
        i = i + 1;
    }
    proof {
        assert(texts_of(keys@) =~= texts_of(paths@).map_values(
            |path: Seq<char>| unicode_lowercase(path),
        ));
    }
    keep_first(paths, &keys)
}

/// The exclusions, each once.
pub open spec fn distinct_exclusions(exclusions: Seq<Seq<char>>) -> Seq<Seq<char>> {
    first_of_each(exclusions, exclusions)
}

pub fn deduplicate_exclusions(exclusions: &Vec<String>) -> (kept: Vec<String>)
    ensures
        texts_of(kept@) == distinct_exclusions(texts_of(exclusions@)),
{
    keep_first(exclusions, exclusions)
}

/// Whatever texts count as one: one of them stays, and only one.
pub proof fn one_of_each_is_kept(texts: Seq<Seq<char>>, key: spec_fn(Seq<char>) -> Seq<char>)
    ensures
        ({
            let kept = first_of_each(texts, texts.map_values(key));
            &&& forall|i: int, j: int|
                0 <= i < j < kept.len() ==> key(#[trigger] kept[i]) != key(#[trigger] kept[j])
            &&& forall|i: int| 0 <= i < kept.len() ==> texts.contains(#[trigger] kept[i])
            &&& forall|i: int|
                0 <= i < texts.len() ==> exists|j: int|
                    0 <= j < kept.len() && key(#[trigger] kept[j]) == key(#[trigger] texts[i])
        }),
    decreases texts.len(),
{
    let keys = texts.map_values(key);
    let kept = first_of_each(texts, keys);
    if texts.len() > 0 {
        let shorter = texts.drop_last();
        one_of_each_is_kept(shorter, key);
        assert(shorter.map_values(key) == keys.drop_last());
        let before = first_of_each(shorter, keys.drop_last());
        let repeated = keys.drop_last().contains(keys.last());
        assert forall|i: int| 0 <= i < kept.len() implies texts.contains(#[trigger] kept[i]) by {
            if i < before.len() {
                assert(shorter.contains(before[i]));
                let at = shorter.index_of(before[i]);
                assert(texts[at] == before[i]);
            } else {
                assert(texts[texts.len() - 1] == kept[i]);
            }
        }
        assert forall|i: int| 0 <= i < texts.len() implies exists|j: int|
            0 <= j < kept.len() && key(#[trigger] kept[j]) == key(#[trigger] texts[i]) by {
            let earlier = if i < shorter.len() {
                i
            } else if repeated {
                keys.drop_last().index_of(keys.last())
            } else {
                -1
            };
            if earlier >= 0 {
                assert(key(shorter[earlier]) == key(texts[i]));
                let j = choose|j: int|
                    0 <= j < before.len() && key(#[trigger] before[j]) == key(shorter[earlier]);
                assert(kept[j] == before[j]);
            } else {
                assert(kept[kept.len() - 1] == texts[i]);
            }
        }
        assert forall|i: int, j: int| 0 <= i < j < kept.len() implies key(#[trigger] kept[i]) != key(
            #[trigger] kept[j],
        ) by {
            if j == before.len() {
                assert(shorter.contains(before[i]));
                let at = shorter.index_of(before[i]);
                assert(keys.drop_last()[at] == key(before[i]));
            }
        }
    }
}

/// What every backup leaves out: the folder of the service, under the name that
/// was configured and under the one that the file system gives it.
pub open spec fn excluded_always(data_directory: Seq<char>, resolved: Option<Seq<char>>) -> Seq<
    Seq<char>,
> {
    match resolved {
        Some(path) => if is_same_path(data_directory, ordinary(path)) {
            seq![data_directory]
        } else {
            seq![data_directory, ordinary(path)]
        },
        None => seq![data_directory],
    }
}

pub fn required_exclusions(data_directory: &str, resolved: Option<String>) -> (exclusions: Vec<
    String,
>)
    ensures
        texts_of(exclusions@) == excluded_always(data_directory@, chars_of(resolved)),
{
    let mut exclusions: Vec<String> = vec![data_directory.to_owned()];
    if let Some(resolved) = resolved {
        let plain = ordinary_windows_path(resolved.as_str());
        if !same_path(data_directory, plain.as_str()) {
            exclusions.push(plain);
        }
    }
    proof {
        assert(texts_of(exclusions@) =~= excluded_always(data_directory@, chars_of(resolved)));
    }
    exclusions
}

/// The folder of the service is in no backup.
pub proof fn the_service_folder_is_always_excluded(
    data_directory: Seq<char>,
    resolved: Option<Seq<char>>,
)
    ensures
        excluded_always(data_directory, resolved).contains(data_directory),
        resolved is Some ==> is_same_path(data_directory, ordinary(resolved->0))
            || excluded_always(data_directory, resolved).contains(ordinary(resolved->0)),
{
    let excluded = excluded_always(data_directory, resolved);
    assert(excluded[0] == data_directory);
    if resolved is Some && !is_same_path(data_directory, ordinary(resolved->0)) {
        assert(excluded[1] == ordinary(resolved->0));
    }
}

/// A folder with what the file system says of it.
pub struct CheckedSource {
    pub path: String,
    /// The drive of the path is a network drive.
    pub drive_is_remote: bool,
    /// Whether the resolved spelling of the path names the same folder; `None`
    /// where the path could not be resolved.
    pub spelled_as_resolved: Option<bool>,
    /// The path lies in the folder of the service.
    pub protected: bool,
}

/// What keeps one folder from being backed up, apart from the service's own.
pub open spec fn source_error(source: CheckedSource) -> Option<InvocationError> {
    if on_network(source.path@, source.drive_is_remote) {
        Some(InvocationError::UnsupportedNetworkBackupSource)
    } else if unsupported_namespace(source.path@) || source.spelled_as_resolved == Some(false) {
        Some(InvocationError::UnsupportedBackupSourceNamespace)
    } else {
        None
    }
}

/// What keeps the folders from being backed up: the error of the first that has
/// one, or else that one of them is the service's own.
pub open spec fn sources_error(sources: Seq<CheckedSource>) -> Option<InvocationError> {
    match first_error(sources) {
        Some(error) => Some(error),
        None => if exists|i: int| 0 <= i < sources.len() && (#[trigger] sources[i]).protected {
            Some(InvocationError::ProtectedBackupSource)
        } else {
            None
        },
    }
}

pub open spec fn first_error(sources: Seq<CheckedSource>) -> Option<InvocationError>
    decreases sources.len(),
{
    if sources.len() == 0 {
        None
    } else if first_error(sources.drop_last()) is Some {
        first_error(sources.drop_last())
    } else {
        source_error(sources.last())
    }
}

proof fn lemma_first_error_stands(sources: Seq<CheckedSource>, length: int)
    requires
        0 <= length <= sources.len(),
        first_error(sources.take(length)) is Some,
    ensures
        first_error(sources) == first_error(sources.take(length)),
    decreases sources.len() - length,
{
    if length < sources.len() {
        assert(sources.take(length + 1).drop_last() == sources.take(length));
        lemma_first_error_stands(sources, length + 1);
    } else {
        assert(sources.take(length) == sources);
    }
}

pub fn validate_backup_source_paths(sources: &Vec<CheckedSource>) -> (valid: Result<
    (),
    InvocationError,
>)
    ensures
        match valid {
            Ok(_) => sources_error(sources@) is None,
            Err(error) => sources_error(sources@) == Some(error),
        },
{
    let mut protected = false;
    let mut i: usize = 0;
    while i < sources.len()
        invariant
            i <= sources@.len(),
            first_error(sources@.take(i as int)) is None,
            protected == (exists|j: int| 0 <= j < i && (#[trigger] sources@[j]).protected),
        decreases sources@.len() - i,
    {
        let source = &sources[i];
        proof {
            assert(sources@.take(i + 1).drop_last() == sources@.take(i as int));
            assert(first_error(sources@.take(i + 1)) == source_error(*source));
            if source_error(*source) is Some {
                lemma_first_error_stands(sources@, i + 1);
            }
        }
        if source_is_network_path(source.path.as_str(), source.drive_is_remote) {
            return Err(InvocationError::UnsupportedNetworkBackupSource);
        }
        if source_uses_unsupported_local_namespace(source.path.as_str()) {
            return Err(InvocationError::UnsupportedBackupSourceNamespace);
        }
        match source.spelled_as_resolved {
            Some(equivalent) => if !equivalent {
                return Err(InvocationError::UnsupportedBackupSourceNamespace);
            },
            None => {},
        }
        if source.protected {
            protected = true;
        }
        i = i + 1;
    }
    proof {
        assert(sources@.take(sources@.len() as int) == sources@);
    }
    if protected {
        return Err(InvocationError::ProtectedBackupSource);
    }
    Ok(())
}

/// Folders that pass the check are all local, under their own name and not the
/// service's.
pub proof fn checked_sources_are_local(sources: Seq<CheckedSource>, at: int)
    requires
        sources_error(sources) is None,
        0 <= at < sources.len(),
    ensures
        !on_network(sources[at].path@, sources[at].drive_is_remote),
        !unsupported_namespace(sources[at].path@),
        sources[at].spelled_as_resolved != Some(false),
        !sources[at].protected,
    decreases sources.len() - at,
{
    let seen = sources.take(at + 1);
    assert(seen.drop_last() == sources.take(at));
    if first_error(sources.take(at)) is Some {
        lemma_first_error_stands(sources, at);
    }
    if source_error(sources[at]) is Some {
        lemma_first_error_stands(sources, at + 1);
    }
}

} // verus!
