//! Browsing backups and restoring files, which only administrators may do.
//! What the repository holds stays in this state and in replies to
//! administrators.
use super::events::{RestoreQueryOutcome, RestoreQueryRequest, RuntimeEvent};
use super::state::{
    Diagnostic, RuntimeState, ServiceRuntime, MAX_AUTHORIZED_RESTORE_NODES,
    MAX_RETAINED_RESTORE_QUERIES,
};
use crate::config::{chars_of, texts_of};
use crate::diagnostics::DiagnosticLevel;
use crate::outcome::holds_text;
use crate::paths::{is_absolute, is_absolute_path};
use crate::protocol::{
    rejected, repository_operation_allows_backup, ClientIdentity, ResponsePayload, RestoreEntryView,
    RestoreJobState, RestoreNodeType, RestoreQueryKind, RestoreQueryState, RestoreQueryView,
    RestoreSnapshotView, RestoreStatusView,
};
use crate::rejection::Rejection;
use crate::status::copy_text;
use crate::table::Table;
use crate::text;
use std::collections::BTreeMap;
use vstd::prelude::*;
use vstd::std_specs::iter::IteratorSpec;

verus! {

/// How many items one page of a listing holds at most.
pub const MAX_RESTORE_QUERY_PAGE_SIZE: u16 = 100;

/// How far a restore has come.
pub struct RestoreProgress {
    pub files_restored: Option<u64>,
    pub bytes_restored: Option<u64>,
    pub total_files: Option<u64>,
    pub total_bytes: Option<u64>,
    pub destination: Option<String>,
}

/// What an administrator is told of a failure of the repository.
pub open spec fn failure_text(code: Seq<char>) -> Seq<char> {
    if code == "restore_cancelled"@ {
        "File recovery was cancelled."@
    } else if code == "invalid_restore_snapshot"@ || code == "restore_snapshot_invalid"@ {
        "The selected backup snapshot is no longer available."@
    } else if code == "invalid_restore_path"@ || code == "restore_path_invalid"@ {
        "The selected backup item is not available for recovery."@
    } else if code == "invalid_restore_destination"@ || code == "restore_destination_invalid"@
        || code == "restore_destination_network_unsupported"@ || code
        == "restore_destination_unavailable"@ || code == "restore_destination_not_directory"@
        || code == "restore_destination_alias_unsupported"@ || code
        == "restore_destination_protected"@ {
        "Choose an existing, unprotected folder on a local Windows drive."@
    } else if code == "restore_destination_create_failed"@ || code
        == "restore_destination_creation_failed"@ {
        "A new recovery folder could not be created in the selected destination."@
    } else if code == "restore_destination_security_failed"@ {
        "Windows could not safely protect or grant access to the recovered files."@
    } else if code == "restore_verification_failed"@ {
        "The recovered files could not be verified."@
    } else if code == "restore_unsupported_node"@ {
        "The selected folder contains a symbolic link, device, or another unsupported item."@
    } else if code == "restore_subtree_limit_exceeded"@ || code
        == "restore_directory_limit_exceeded"@ {
        "The selected recovery folder exceeds the safe repository-listing limit."@
    } else if code == "restore_authorization_limit_exceeded"@ {
        "The recovery browser reached its safe memory limit. Refresh the backup listing and try again."@
    } else if code == "restic_termination_failed"@ {
        "Windows could not safely stop the recovery process; its files remain protected."@
    } else if code == "restore_timed_out"@ {
        "File recovery exceeded its safe execution limit."@
    } else if code == "executor_start_failed"@ {
        "The recovery worker could not be started."@
    } else {
        "The backup repository could not complete the requested recovery operation."@
    }
}

pub fn restore_failure_message(code: &str) -> (message: &'static str)
    ensures
        message@ == failure_text(code@),
{
    if text::same_text(code, "restore_cancelled") {
        "File recovery was cancelled."
    } else if text::same_text(code, "invalid_restore_snapshot") || text::same_text(
        code,
        "restore_snapshot_invalid",
    ) {
        "The selected backup snapshot is no longer available."
    } else if text::same_text(code, "invalid_restore_path") || text::same_text(
        code,
        "restore_path_invalid",
    ) {
        "The selected backup item is not available for recovery."
    } else if text::same_text(code, "invalid_restore_destination") || text::same_text(
        code,
        "restore_destination_invalid",
    ) || text::same_text(code, "restore_destination_network_unsupported") || text::same_text(
        code,
        "restore_destination_unavailable",
    ) || text::same_text(code, "restore_destination_not_directory") || text::same_text(
        code,
        "restore_destination_alias_unsupported",
    ) || text::same_text(code, "restore_destination_protected") {
        "Choose an existing, unprotected folder on a local Windows drive."
    } else if text::same_text(code, "restore_destination_create_failed") || text::same_text(
        code,
        "restore_destination_creation_failed",
    ) {
        "A new recovery folder could not be created in the selected destination."
    } else if text::same_text(code, "restore_destination_security_failed") {
        "Windows could not safely protect or grant access to the recovered files."
    } else if text::same_text(code, "restore_verification_failed") {
        "The recovered files could not be verified."
    } else if text::same_text(code, "restore_unsupported_node") {
        "The selected folder contains a symbolic link, device, or another unsupported item."
    } else if text::same_text(code, "restore_subtree_limit_exceeded") || text::same_text(
        code,
        "restore_directory_limit_exceeded",
    ) {
        "The selected recovery folder exceeds the safe repository-listing limit."
    } else if text::same_text(code, "restore_authorization_limit_exceeded") {
        "The recovery browser reached its safe memory limit. Refresh the backup listing and try again."
    } else if text::same_text(code, "restic_termination_failed") {
        "Windows could not safely stop the recovery process; its files remain protected."
    } else if text::same_text(code, "restore_timed_out") {
        "File recovery exceeded its safe execution limit."
    } else if text::same_text(code, "executor_start_failed") {
        "The recovery worker could not be started."
    } else {
        "The backup repository could not complete the requested recovery operation."
    }
}

/// `after` is `before` without anything that was learnt of the repository;
/// while the repository is being read or restored from, nothing changes.
pub open spec fn forgets_restores(after: RuntimeState, before: RuntimeState) -> bool {
    if before.restore_operation_active {
        after == before
    } else {
        &&& after.restore_queries@ == Map::<u64, RestoreQueryView>::empty()
        &&& after.authorized_restore_nodes.well_formed()
        &&& after.authorized_restore_nodes@ == Map::<
            (Seq<char>, Seq<char>),
            RestoreNodeType,
        >::empty()
        &&& after.authorized_restore_nodes.keys().len() == 0
        &&& after.restore_query_snapshot_ids@ == Map::<u64, String>::empty()
        &&& after == (RuntimeState {
            restore_queries: after.restore_queries,
            authorized_restore_nodes: after.authorized_restore_nodes,
            restore_query_snapshot_ids: after.restore_query_snapshot_ids,
            active_restore_query: None,
            restore_status: RestoreStatusView::spec_idle(),
            ..before
        })
    }
}

pub fn clear_sensitive_restore_state(state: &mut RuntimeState)
    ensures
        forgets_restores(*final(state), *old(state)),
        old(state).well_formed() ==> final(state).well_formed(),
{
    if state.restore_operation_active {
        return ;
    }
    state.restore_queries.clear();
    state.authorized_restore_nodes.clear();
    state.restore_query_snapshot_ids.clear();
    state.active_restore_query = None;
    state.restore_status = RestoreStatusView::idle();
}

/// A text with forward slashes in place of backslashes.
pub open spec fn slashed(path: Seq<char>) -> Seq<char> {
    path.map_values(
        |c: char|
            if c == '\\' {
                '/'
            } else {
                c
            },
    )
}

/// A text without the slashes at its end.
pub open spec fn without_end_slashes(path: Seq<char>) -> Seq<char>
    decreases path.len(),
{
    if path.len() > 0 && path.last() == '/' {
        without_end_slashes(path.drop_last())
    } else {
        path
    }
}

proof fn lemma_without_end_slashes(path: Seq<char>, length: int)
    requires
        0 <= length <= path.len(),
        forall|i: int| length <= i < path.len() ==> #[trigger] path[i] == '/',
        length > 0 ==> path[length - 1] != '/',
    ensures
        without_end_slashes(path) == path.take(length),
    decreases path.len(),
{
    if length < path.len() {
        assert(path[path.len() - 1] == '/');
        let shorter = path.drop_last();
        assert forall|i: int| length <= i < shorter.len() implies #[trigger] shorter[i] == '/' by {
            assert(shorter[i] == path[i]);
        }
        lemma_without_end_slashes(shorter, length);
        assert(shorter.take(length) == path.take(length));
    } else {
        assert(path.take(length) == path);
    }
}

/// Where a folder of a drive stands in a backup: restic keeps the case of the
/// drive letter and writes the path with forward slashes.
pub open spec fn node_path(source: Seq<char>) -> Option<Seq<char>> {
    if source.len() >= 3 && text::is_ascii_alphabetic(source[0]) && source[1] == ':' && (source[2]
        == '\\' || source[2] == '/') {
        Some(seq!['/', source[0]] + without_end_slashes(slashed(source.skip(2))))
    } else {
        None
    }
}

pub fn snapshot_node_path(source: &str) -> (path: Option<String>)
    ensures
        chars_of(path) == node_path(source@),
{
    let chars = text::characters(source);
    if chars.len() < 3 || !text::ascii_alphabetic(chars[0]) || chars[1] != ':' || (chars[2] != '\\'
        && chars[2] != '/') {
        return None;
    }
    let mut end: usize = chars.len();
    while end > 2 && (chars[end - 1] == '/' || chars[end - 1] == '\\')
        invariant
            2 <= end <= chars@.len(),
            forall|i: int|
                end <= i < chars@.len() ==> #[trigger] chars@[i] == '/' || chars@[i] == '\\',
        decreases end,
    {
        end = end - 1;
    }
    let ghost tail = slashed(chars@.skip(2));
    proof {
        assert forall|i: int| end - 2 <= i < tail.len() implies #[trigger] tail[i] == '/' by {
            assert(chars@[i + 2] == '/' || chars@[i + 2] == '\\');
        }
        lemma_without_end_slashes(tail, end - 2);
    }
    let mut path = String::new();
    path.push('/');
    path.push(chars[0]);
    let mut i: usize = 2;
    while i < end
        invariant
            3 <= chars@.len(),
            2 <= i <= end <= chars@.len(),
            tail == slashed(chars@.skip(2)),
            path@ == seq!['/', chars@[0]] + tail.take(i - 2),
        decreases end - i,
    {
        let c = if chars[i] == '\\' {
            '/'
        } else {
            chars[i]
        };
        let ghost before = path@;
        path.push(c);
        proof {
            assert(tail.take(i - 1) == tail.take(i - 2).push(c));
            assert(path@ =~= seq!['/', chars@[0]] + tail.take(i - 1));
        }
        i = i + 1;
    }
    Some(path)
}

/// Where a folder stands in a backup, unless the host refuses that path.
pub open spec fn source_node(source: Seq<char>, refused: Seq<Seq<char>>) -> Option<Seq<char>> {
    match node_path(source) {
        Some(path) => if refused.contains(path) {
            None
        } else {
            Some(path)
        },
        None => None,
    }
}

pub fn snapshot_source_path(source: &str, refused: &Vec<String>) -> (path: Option<String>)
    ensures
        chars_of(path) == source_node(source@, texts_of(refused@)),
{
    match snapshot_node_path(source) {
        Some(path) => if holds_text(refused, &path) {
            None
        } else {
            Some(path)
        },
        None => None,
    }
}

/// The folders of a backup that may be opened first: its root and its sources,
/// each once.
pub open spec fn snapshot_nodes(paths: Seq<Seq<char>>, refused: Seq<Seq<char>>) -> Seq<Seq<char>>
    decreases paths.len(),
{
    if paths.len() == 0 {
        seq!["/"@]
    } else {
        let before = snapshot_nodes(paths.drop_last(), refused);
        match source_node(paths.last(), refused) {
            Some(path) => if before.contains(path) {
                before
            } else {
                before.push(path)
            },
            None => before,
        }
    }
}

/// The folders of a backup.
pub open spec fn nodes_of(snapshot: RestoreSnapshotView, refused: Seq<Seq<char>>) -> Seq<Seq<char>> {
    snapshot_nodes(texts_of(snapshot.paths@), refused)
}

fn list_nodes(snapshot: &RestoreSnapshotView, refused: &Vec<String>) -> (nodes: Vec<String>)
    ensures
        texts_of(nodes@) == nodes_of(*snapshot, texts_of(refused@)),
{
    let mut nodes: Vec<String> = Vec::new();
    nodes.push("/".to_owned());
    proof {
        assert(texts_of(nodes@) =~= seq!["/"@]);
        assert(texts_of(snapshot.paths@.take(0)) == Seq::<Seq<char>>::empty());
    }
    let mut i: usize = 0;
    while i < snapshot.paths.len()
        invariant
            i <= snapshot.paths@.len(),
            texts_of(nodes@) == snapshot_nodes(
                texts_of(snapshot.paths@.take(i as int)),
                texts_of(refused@),
            ),
        decreases snapshot.paths@.len() - i,
    {
        let ghost listed = nodes@;
        proof {
            let seen = texts_of(snapshot.paths@.take(i + 1));
            assert(seen.drop_last() == texts_of(snapshot.paths@.take(i as int)));
            assert(seen.last() == snapshot.paths@[i as int]@);
        }
        if let Some(path) = snapshot_source_path(snapshot.paths[i].as_str(), refused) {
            if !holds_text(&nodes, &path) {
                let ghost added = path@;
                nodes.push(path);
                proof {
                    assert(texts_of(nodes@) == texts_of(listed).push(added));
                }
            }
        }
        i = i + 1;
    }
    proof {
        assert(snapshot.paths@.take(snapshot.paths@.len() as int) == snapshot.paths@);
    }
    nodes
}

/// The folders of all backups, counted.
pub open spec fn node_count(snapshots: Seq<RestoreSnapshotView>, refused: Seq<Seq<char>>) -> nat
    decreases snapshots.len(),
{
    if snapshots.len() == 0 {
        0
    } else {
        node_count(snapshots.drop_last(), refused) + nodes_of(snapshots.last(), refused).len()
    }
}

proof fn lemma_node_count_grows(
    snapshots: Seq<RestoreSnapshotView>,
    refused: Seq<Seq<char>>,
    length: int,
)
    requires
        0 <= length <= snapshots.len(),
    ensures
        node_count(snapshots.take(length), refused) <= node_count(snapshots, refused),
    decreases snapshots.len() - length,
{
    if length < snapshots.len() {
        assert(snapshots.take(length + 1).drop_last() == snapshots.take(length));
        lemma_node_count_grows(snapshots, refused, length + 1);
    } else {
        assert(snapshots.take(length) == snapshots);
    }
}

/// No later backup of the listing has the same name.
pub open spec fn is_last_of_its_name(snapshots: Seq<RestoreSnapshotView>, at: int) -> bool {
    forall|later: int|
        at < later < snapshots.len() ==> (#[trigger] snapshots[later]).id@ != snapshots[at].id@
}

/// Whether the first `upto` backups of a listing open this folder.
pub open spec fn opens(
    snapshots: Seq<RestoreSnapshotView>,
    refused: Seq<Seq<char>>,
    upto: int,
    node: (Seq<char>, Seq<char>),
) -> bool {
    exists|at: int|
        0 <= at < upto && (#[trigger] snapshots[at]).id@ == node.0 && is_last_of_its_name(
            snapshots,
            at,
        ) && nodes_of(snapshots[at], refused).contains(node.1)
}

/// What a listing of backups allows to be opened.
pub open spec fn authorized_by(
    snapshots: Seq<RestoreSnapshotView>,
    refused: Seq<Seq<char>>,
    upto: int,
) -> Map<(Seq<char>, Seq<char>), RestoreNodeType> {
    Map::new(
        |node: (Seq<char>, Seq<char>)| opens(snapshots, refused, upto, node),
        |node: (Seq<char>, Seq<char>)| RestoreNodeType::Directory,
    )
}

fn has_later_namesake(snapshots: &Vec<RestoreSnapshotView>, at: usize) -> (found: bool)
    requires
        at < snapshots@.len(),
    ensures
        found == !is_last_of_its_name(snapshots@, at as int),
{
    let total: usize = snapshots.len();
    assert(at < total);
    let mut i: usize = at + 1;
    while i < snapshots.len()
        invariant
            at < i <= snapshots@.len(),
            forall|later: int|
                at < later < i ==> (#[trigger] snapshots@[later]).id@ != snapshots@[at as int].id@,
        decreases snapshots@.len() - i,
    {
        if snapshots[i].id == snapshots[at].id {
            return true;
        }
        i = i + 1;
    }
    false
}

/// Files what a listing of backups allows to be opened, where it is not too much.
fn authorize_snapshots(snapshots: &Vec<RestoreSnapshotView>, refused: &Vec<String>) -> (nodes: Option<
    Table<RestoreNodeType>,
>)
    ensures
        nodes is Some == (node_count(snapshots@, texts_of(refused@))
            <= MAX_AUTHORIZED_RESTORE_NODES),
        nodes is Some ==> {
            &&& nodes->0.well_formed()
            &&& nodes->0.keys().len() <= MAX_AUTHORIZED_RESTORE_NODES
            &&& nodes->0@ == authorized_by(
                snapshots@,
                texts_of(refused@),
                snapshots@.len() as int,
            )
        },
{
    let ghost denied = texts_of(refused@);
    let mut table: Table<RestoreNodeType> = Table::new();
    let mut total: usize = 0;
    let mut i: usize = 0;
    proof {
        assert(table@ =~= authorized_by(snapshots@, denied, 0));
        assert(snapshots@.take(0) == Seq::<RestoreSnapshotView>::empty());
    }
    while i < snapshots.len()
        invariant
            denied == texts_of(refused@),
            i <= snapshots@.len(),
            total == node_count(snapshots@.take(i as int), denied),
            total <= MAX_AUTHORIZED_RESTORE_NODES,
            table.well_formed(),
            table.keys().len() <= total,
            table@ == authorized_by(snapshots@, denied, i as int),
        decreases snapshots@.len() - i,
    {
        let nodes = list_nodes(&snapshots[i], refused);
        let ghost names = texts_of(nodes@);
        proof {
            assert(snapshots@.take(i + 1).drop_last() == snapshots@.take(i as int));
            assert(names.len() == nodes@.len());
            lemma_node_count_grows(snapshots@, denied, i + 1);
        }
        if nodes.len() > MAX_AUTHORIZED_RESTORE_NODES - total {
            return None;
        }
        let last = !has_later_namesake(snapshots, i);
        let ghost before = table@;
        let ghost held = table.keys().len();
        let ghost id = snapshots@[i as int].id@;
        if last {
            let mut k: usize = 0;
            proof {
                assert(names.take(0) == Seq::<Seq<char>>::empty());
            }
            while k < nodes.len()
                invariant
                    i < snapshots@.len(),
                    id == snapshots@[i as int].id@,
                    names == texts_of(nodes@),
                    k <= nodes@.len(),
                    table.well_formed(),
                    table.keys().len() <= held + k,
                    before == authorized_by(snapshots@, denied, i as int),
                    forall|node: (Seq<char>, Seq<char>)| #[trigger]
                        table@.contains_key(node) == (before.contains_key(node) || (node.0 == id
                            && names.take(k as int).contains(node.1))),
                    forall|node: (Seq<char>, Seq<char>)| #[trigger]
                        table@.contains_key(node) ==> table@[node] == RestoreNodeType::Directory,
                decreases nodes@.len() - k,
            {
                let ghost filed = table@;
                let ghost seen = names.take(k as int);
                table.insert(
                    (snapshots[i].id.clone(), nodes[k].clone()),
                    RestoreNodeType::Directory,
                );
                proof {
                    let name = nodes@[k as int]@;
                    assert(names.take(k + 1) == seen.push(name));
                    assert(table@ == filed.insert((id, name), RestoreNodeType::Directory));
                    assert forall|node: (Seq<char>, Seq<char>)| #[trigger]
                        table@.contains_key(node) == (before.contains_key(node) || (node.0 == id
                            && names.take(k + 1).contains(node.1))) by {
                        assert(seen.push(name)[seen.len() as int] == name);
                        if seen.contains(node.1) {
                            let at = seen.index_of(node.1);
                            assert(seen.push(name)[at] == node.1);
                        }
                    }
                }
                k = k + 1;
            }
            proof {
                assert(names.take(names.len() as int) == names);
            }
        }
        proof {
            assert forall|node: (Seq<char>, Seq<char>)| #[trigger]
                table@.contains_key(node) == opens(snapshots@, denied, i + 1, node) by {
                if opens(snapshots@, denied, i + 1, node) && !opens(
                    snapshots@,
                    denied,
                    i as int,
                    node,
                ) {
                    let at = choose|at: int|
                        0 <= at < i + 1 && (#[trigger] snapshots@[at]).id@ == node.0
                            && is_last_of_its_name(snapshots@, at) && nodes_of(
                            snapshots@[at],
                            denied,
                        ).contains(node.1);
                    assert(at == i);
                }
                if opens(snapshots@, denied, i as int, node) {
                    let at = choose|at: int|
                        0 <= at < i && (#[trigger] snapshots@[at]).id@ == node.0
                            && is_last_of_its_name(snapshots@, at) && nodes_of(
                            snapshots@[at],
                            denied,
                        ).contains(node.1);
                    assert(snapshots@[at].id@ == node.0);
                }
                if last && node.0 == id && names.contains(node.1) {
                    assert(snapshots@[i as int].id@ == node.0);
                }
            }
            assert(table@ =~= authorized_by(snapshots@, denied, i + 1));
        }
        total = total + nodes.len();
        i = i + 1;
    }
    proof {
        assert(snapshots@.take(snapshots@.len() as int) == snapshots@);
    }
    Some(table)
}

/// Whether anything of a backup may be opened.
pub open spec fn knows_snapshot(
    nodes: Map<(Seq<char>, Seq<char>), RestoreNodeType>,
    snapshot_id: Seq<char>,
) -> bool {
    exists|path: Seq<char>| #[trigger] nodes.contains_key((snapshot_id, path))
}

fn holds_snapshot(nodes: &Table<RestoreNodeType>, snapshot_id: &str) -> (held: bool)
    ensures
        held == knows_snapshot(nodes@, snapshot_id@),
{
    let wanted = snapshot_id.to_owned();
    let mut i: usize = 0;
    while i < nodes.len()
        invariant
            wanted@ == snapshot_id@,
            i <= nodes.keys().len(),
            forall|j: int| 0 <= j < i ==> (#[trigger] nodes.keys()[j]).0 != snapshot_id@,
        decreases nodes.keys().len() - i,
    {
        let (key, _) = nodes.entry(i);
        if key.0 == wanted {
            proof {
                let node = nodes.keys()[i as int];
                assert(nodes.keys().contains(node));
                assert(nodes@.contains_key((snapshot_id@, node.1)));
            }
            return true;
        }
        i = i + 1;
    }
    proof {
        if knows_snapshot(nodes@, snapshot_id@) {
            let path = choose|path: Seq<char>| #[trigger]
                nodes@.contains_key((snapshot_id@, path));
            let at = nodes.keys().index_of((snapshot_id@, path));
            assert(nodes.keys()[at].0 == snapshot_id@);
        }
    }
    false
}

/// What may be opened once the entries of a folder are known.
pub open spec fn with_entries(
    nodes: Map<(Seq<char>, Seq<char>), RestoreNodeType>,
    snapshot_id: Seq<char>,
    entries: Seq<RestoreEntryView>,
) -> Map<(Seq<char>, Seq<char>), RestoreNodeType>
    decreases entries.len(),
{
    if entries.len() == 0 {
        nodes
    } else {
        with_entries(nodes, snapshot_id, entries.drop_last()).insert(
            (snapshot_id, entries.last().path@),
            entries.last().node_type,
        )
    }
}

/// How many of the entries may not be opened yet.
pub open spec fn new_entries(
    nodes: Map<(Seq<char>, Seq<char>), RestoreNodeType>,
    snapshot_id: Seq<char>,
    entries: Seq<RestoreEntryView>,
) -> nat
    decreases entries.len(),
{
    if entries.len() == 0 {
        0
    } else {
        new_entries(nodes, snapshot_id, entries.drop_last()) + (if nodes.contains_key(
            (snapshot_id, entries.last().path@),
        ) {
            0nat
        } else {
            1nat
        })
    }
}

fn count_new_entries(
    nodes: &Table<RestoreNodeType>,
    snapshot_id: &String,
    entries: &Vec<RestoreEntryView>,
) -> (count: usize)
    requires
        nodes.well_formed(),
    ensures
        count == new_entries(nodes@, snapshot_id@, entries@),
{
    let mut count: usize = 0;
    let mut i: usize = 0;
    proof {
        assert(entries@.take(0) == Seq::<RestoreEntryView>::empty());
    }
    while i < entries.len()
        invariant
            nodes.well_formed(),
            i <= entries@.len(),
            count <= i,
            count == new_entries(nodes@, snapshot_id@, entries@.take(i as int)),
        decreases entries@.len() - i,
    {
        proof {
            assert(entries@.take(i + 1).drop_last() == entries@.take(i as int));
        }
        if !nodes.contains_key(&(snapshot_id.clone(), entries[i].path.clone())) {
            count = count + 1;
        }
        i = i + 1;
    }
    proof {
        assert(entries@.take(entries@.len() as int) == entries@);
    }
    count
}

proof fn lemma_entries_stay(
    nodes: Map<(Seq<char>, Seq<char>), RestoreNodeType>,
    snapshot_id: Seq<char>,
    entries: Seq<RestoreEntryView>,
    node: (Seq<char>, Seq<char>),
)
    requires
        nodes.contains_key(node),
    ensures
        with_entries(nodes, snapshot_id, entries).contains_key(node),
    decreases entries.len(),
{
    if entries.len() > 0 {
        lemma_entries_stay(nodes, snapshot_id, entries.drop_last(), node);
    }
}

fn file_entries(
    nodes: &mut Table<RestoreNodeType>,
    snapshot_id: &String,
    entries: &Vec<RestoreEntryView>,
)
    requires
        old(nodes).well_formed(),
    ensures
        final(nodes).well_formed(),
        final(nodes)@ == with_entries(old(nodes)@, snapshot_id@, entries@),
        final(nodes).keys().len() <= old(nodes).keys().len() + new_entries(
            old(nodes)@,
            snapshot_id@,
            entries@,
        ),
{
    let ghost before = *nodes;
    let mut i: usize = 0;
    proof {
        assert(entries@.take(0) == Seq::<RestoreEntryView>::empty());
    }
    while i < entries.len()
        invariant
            nodes.well_formed(),
            i <= entries@.len(),
            nodes@ == with_entries(before@, snapshot_id@, entries@.take(i as int)),
            nodes.keys().len() <= before.keys().len() + new_entries(
                before@,
                snapshot_id@,
                entries@.take(i as int),
            ),
        decreases entries@.len() - i,
    {
        proof {
            assert(entries@.take(i + 1).drop_last() == entries@.take(i as int));
            let node = (snapshot_id@, entries@[i as int].path@);
            if before@.contains_key(node) {
                lemma_entries_stay(before@, snapshot_id@, entries@.take(i as int), node);
            }
        }
        nodes.insert((snapshot_id.clone(), entries[i].path.clone()), entries[i].node_type);
        i = i + 1;
    }
    proof {
        assert(entries@.take(entries@.len() as int) == entries@);
    }
}

/// `key` is the smallest key.
pub open spec fn is_smallest_key<V>(queries: Map<u64, V>, key: u64) -> bool {
    queries.contains_key(key) && forall|other: u64| #[trigger]
        queries.contains_key(other) ==> key <= other
}

fn smallest_key(queries: &BTreeMap<u64, RestoreQueryView>) -> (key: Option<u64>)
    ensures
        match key {
            Some(key) => is_smallest_key(queries@, key),
            None => queries@.dom().len() == 0,
        },
{
    let mut smallest: Option<u64> = None;
    for key in keys: queries.keys()
        invariant
            keys.seq() == queries.keys().remaining(),
            match smallest {
                Some(smallest) => {
                    &&& queries@.contains_key(smallest)
                    &&& forall|i: int| 0 <= i < keys.index() ==> smallest <= *(#[trigger] keys.seq()[i])
                },
                None => keys.index() == 0,
            },
    {
        proof {
            assert(keys.seq().unref()[keys.index()] == *key);
            assert(keys.seq().unref().to_set().contains(*key));
        }
        smallest = match smallest {
            Some(found) => if found <= *key {
                Some(found)
            } else {
                Some(*key)
            },
            None => Some(*key),
        };
    }
    proof {
        let all = queries.keys().remaining();
        assert forall|other: u64| #[trigger] queries@.contains_key(other) implies smallest is Some
            && smallest->0 <= other by {
            assert(all.unref().to_set().contains(other));
            let at = all.unref().index_of(other);
            assert(all.unref()[at] == *all[at]);
        }
    }
    smallest
}

/// Room was made for one more listing: where there are too many, the one with
/// the smallest number is gone.
pub open spec fn makes_room(
    queries_after: Map<u64, RestoreQueryView>,
    ids_after: Map<u64, String>,
    queries: Map<u64, RestoreQueryView>,
    ids: Map<u64, String>,
) -> bool {
    if queries.dom().len() >= MAX_RETAINED_RESTORE_QUERIES {
        exists|oldest: u64| #[trigger]
            is_smallest_key(queries, oldest) && queries_after == queries.remove(oldest)
                && ids_after == ids.remove(oldest)
    } else {
        queries_after == queries && ids_after == ids
    }
}

/// A listing that has just been asked for.
pub open spec fn is_blank_listing(
    view: RestoreQueryView,
    query_id: u64,
    kind: RestoreQueryKind,
) -> bool {
    &&& view.query_id == query_id
    &&& view.kind == kind
    &&& view.state is Running
    &&& view.snapshots@.len() == 0
    &&& view.entries@.len() == 0
    &&& view.total == 0
    &&& view.message is None
}

pub open spec fn kind_of(request: RestoreQueryRequest) -> RestoreQueryKind {
    match request {
        RestoreQueryRequest::Snapshots => RestoreQueryKind::Snapshots,
        RestoreQueryRequest::Directory { .. } => RestoreQueryKind::Directory,
    }
}

/// The number after `identifier`; after the last one they start anew.
pub open spec fn next_identifier(identifier: u64) -> u64 {
    if identifier == u64::MAX {
        1
    } else {
        (identifier + 1) as u64
    }
}

fn next_restore_identifier(state: &mut RuntimeState) -> (identifier: u64)
    ensures
        identifier == old(state).next_restore_identifier,
        *final(state) == (RuntimeState {
            next_restore_identifier: next_identifier(identifier),
            ..*old(state)
        }),
{
    let identifier = state.next_restore_identifier;
    state.next_restore_identifier = match identifier.checked_add(1) {
        Some(next) => next,
        None => 1,
    };
    identifier
}

/// One more listing was filed beside the earlier ones.
pub open spec fn files_listing(
    after: RuntimeState,
    queries: Map<u64, RestoreQueryView>,
    ids: Map<u64, String>,
    query_id: u64,
    request: RestoreQueryRequest,
) -> bool {
    exists|kept: Map<u64, RestoreQueryView>, kept_ids: Map<u64, String>| #[trigger]
        makes_room(kept, kept_ids, queries, ids) && after.restore_queries@ == kept.insert(
            query_id,
            after.restore_queries@[query_id],
        ) && after.restore_query_snapshot_ids@ == (match request {
            RestoreQueryRequest::Snapshots => kept_ids,
            RestoreQueryRequest::Directory { snapshot_id, .. } => kept_ids.insert(
                query_id,
                snapshot_id,
            ),
        })
}

/// The state once a listing was asked for. A new list of backups makes
/// everything that was listed before void.
pub open spec fn listing_begun(
    after: RuntimeState,
    before: RuntimeState,
    request: RestoreQueryRequest,
) -> bool {
    let query_id = before.next_restore_identifier;
    let queries = if request is Snapshots {
        Map::<u64, RestoreQueryView>::empty()
    } else {
        before.restore_queries@
    };
    let ids = if request is Snapshots {
        Map::<u64, String>::empty()
    } else {
        before.restore_query_snapshot_ids@
    };
    &&& files_listing(after, queries, ids, query_id, request)
    &&& is_blank_listing(after.restore_queries@[query_id], query_id, kind_of(request))
    &&& after.authorized_restore_nodes@ == (if request is Snapshots {
        Map::<(Seq<char>, Seq<char>), RestoreNodeType>::empty()
    } else {
        before.authorized_restore_nodes@
    })
    &&& after == (RuntimeState {
        restore_queries: after.restore_queries,
        restore_query_snapshot_ids: after.restore_query_snapshot_ids,
        authorized_restore_nodes: after.authorized_restore_nodes,
        active_restore_query: Some(query_id),
        restore_operation_active: true,
        next_restore_identifier: next_identifier(query_id),
        ..before
    })
}

/// A listing that did not come about.
pub open spec fn listing_failed(
    after: RestoreQueryView,
    before: RestoreQueryView,
    message: Seq<char>,
) -> bool {
    &&& after.state is Failed
    &&& chars_of(after.message) == Some(message)
    &&& after == (RestoreQueryView {
        state: after.state,
        message: after.message,
        ..before
    })
}

/// The reply to a listing and what it allows to be opened.
pub open spec fn listing_answered(
    view: RestoreQueryView,
    nodes: Map<(Seq<char>, Seq<char>), RestoreNodeType>,
    before: RuntimeState,
    query_id: u64,
    outcome: RestoreQueryOutcome,
    refused: Seq<Seq<char>>,
) -> bool {
    let listing = before.restore_queries@[query_id];
    let known = before.authorized_restore_nodes@;
    let too_much = failure_text("restore_authorization_limit_exceeded"@);
    match outcome {
        RestoreQueryOutcome::Snapshots(snapshots) => if node_count(snapshots@, refused)
            > MAX_AUTHORIZED_RESTORE_NODES {
            &&& listing_failed(view, listing, too_much)
            &&& nodes == Map::<(Seq<char>, Seq<char>), RestoreNodeType>::empty()
        } else {
            &&& view == (RestoreQueryView {
                total: snapshots@.len() as u64,
                snapshots,
                state: RestoreQueryState::Succeeded,
                ..listing
            })
            &&& nodes == authorized_by(snapshots@, refused, snapshots@.len() as int)
        },
        RestoreQueryOutcome::Directory(entries) => {
            let browsed = before.restore_query_snapshot_ids@.contains_key(query_id)
                && knows_snapshot(known, before.restore_query_snapshot_ids@[query_id]@);
            let snapshot_id = before.restore_query_snapshot_ids@[query_id]@;
            let added = if browsed {
                new_entries(known, snapshot_id, entries@)
            } else {
                0
            };
            if before.authorized_restore_nodes.keys().len() + added
                > MAX_AUTHORIZED_RESTORE_NODES {
                &&& listing_failed(view, listing, too_much)
                &&& nodes == known
            } else {
                &&& view == (RestoreQueryView {
                    total: entries@.len() as u64,
                    entries,
                    state: RestoreQueryState::Succeeded,
                    ..listing
                })
                &&& nodes == (if browsed {
                    with_entries(known, snapshot_id, entries@)
                } else {
                    known
                })
            }
        },
        RestoreQueryOutcome::Failed { code } => {
            &&& listing_failed(view, listing, failure_text(code@))
            &&& nodes == known
        },
        RestoreQueryOutcome::Cancelled => {
            &&& view.state is Cancelled
            &&& chars_of(view.message) == Some("The recovery listing was cancelled."@)
            &&& view == (RestoreQueryView { state: view.state, message: view.message, ..listing })
            &&& nodes == known
        },
    }
}

/// The state once a listing came to its end.
pub open spec fn listing_ended(
    after: RuntimeState,
    before: RuntimeState,
    query_id: u64,
    outcome: RestoreQueryOutcome,
    refused: Seq<Seq<char>>,
) -> bool {
    &&& after == (RuntimeState {
        restore_queries: after.restore_queries,
        authorized_restore_nodes: after.authorized_restore_nodes,
        active_restore_query: None,
        restore_operation_active: false,
        ..before
    })
    &&& if before.restore_queries@.contains_key(query_id) {
        &&& after.restore_queries@ == before.restore_queries@.insert(
            query_id,
            after.restore_queries@[query_id],
        )
        &&& listing_answered(
            after.restore_queries@[query_id],
            after.authorized_restore_nodes@,
            before,
            query_id,
            outcome,
            refused,
        )
    } else {
        &&& after.restore_queries == before.restore_queries
        &&& after.authorized_restore_nodes == before.authorized_restore_nodes
    }
}

/// What keeps the repository from being read.
pub open spec fn repository_is_taken(state: RuntimeState, now: i128) -> Option<Rejection> {
    if !state.repository_operation.allows_backup() {
        Some(Rejection::RepositoryNotReadyToRestore)
    } else if state.status.state is Running {
        Some(Rejection::BackupRunningAtRestore)
    } else if state.restore_operation_active {
        Some(Rejection::RestoreRunning)
    } else if state.update_pending(now) {
        Some(Rejection::RestoreHeld)
    } else if state.management_operation_active || state.repository_operation is Running {
        Some(Rejection::OperationRunning)
    } else {
        None
    }
}

fn ensure_repository_is_available(state: &RuntimeState, now: i128) -> (taken: Option<Rejection>)
    ensures
        taken == repository_is_taken(*state, now),
{
    if !repository_operation_allows_backup(&state.repository_operation) {
        return Some(Rejection::RepositoryNotReadyToRestore);
    }
    if state.status.state.is_running() {
        return Some(Rejection::BackupRunningAtRestore);
    }
    if state.restore_operation_active {
        return Some(Rejection::RestoreRunning);
    }
    if state.has_pending_update(now) {
        return Some(Rejection::RestoreHeld);
    }
    if state.management_operation_active || state.repository_operation.is_running() {
        return Some(Rejection::OperationRunning);
    }
    None
}

/// What keeps an item of a backup from being opened or restored.
pub open spec fn node_is_closed(
    nodes: Map<(Seq<char>, Seq<char>), RestoreNodeType>,
    snapshot_id: Seq<char>,
    path: Seq<char>,
    folder_only: bool,
) -> Option<Rejection> {
    if !knows_snapshot(nodes, snapshot_id) {
        Some(Rejection::RestoreSnapshotNotAuthorized)
    } else if !nodes.contains_key((snapshot_id, path)) {
        Some(Rejection::RestorePathNotAuthorized)
    } else if folder_only && !(nodes[(snapshot_id, path)] is Directory) {
        Some(Rejection::RestorePathNotFolder)
    } else {
        None
    }
}

fn authorize_snapshot_node(
    state: &RuntimeState,
    snapshot_id: &str,
    path: &str,
    folder_only: bool,
) -> (closed: Option<Rejection>)
    requires
        state.well_formed(),
    ensures
        closed == node_is_closed(
            state.authorized_restore_nodes@,
            snapshot_id@,
            path@,
            folder_only,
        ),
{
    if !holds_snapshot(&state.authorized_restore_nodes, snapshot_id) {
        return Some(Rejection::RestoreSnapshotNotAuthorized);
    }
    match state.authorized_restore_nodes.get(&(snapshot_id.to_owned(), path.to_owned())) {
        None => Some(Rejection::RestorePathNotAuthorized),
        Some(node_type) => if folder_only && *node_type != RestoreNodeType::Directory {
            Some(Rejection::RestorePathNotFolder)
        } else {
            None
        },
    }
}

/// What the host's rules say of the item that a request selects.
#[derive(Debug, Clone, Copy, PartialEq, Eq, Structural)]
pub struct SelectionCheck {
    pub snapshot_id_is_valid: bool,
    pub path_is_valid: bool,
}

pub open spec fn selection_is_invalid(check: SelectionCheck) -> Option<Rejection> {
    if !check.snapshot_id_is_valid {
        Some(Rejection::RestoreSnapshotInvalid)
    } else if !check.path_is_valid {
        Some(Rejection::RestorePathInvalid)
    } else {
        None
    }
}

pub fn validate_snapshot_selection(check: SelectionCheck) -> (invalid: Option<Rejection>)
    ensures
        invalid == selection_is_invalid(check),
{
    if !check.snapshot_id_is_valid {
        return Some(Rejection::RestoreSnapshotInvalid);
    }
    if !check.path_is_valid {
        return Some(Rejection::RestorePathInvalid);
    }
    None
}

/// The page of a listing from `offset` on.
pub open spec fn is_page(
    page: RestoreQueryView,
    listing: RestoreQueryView,
    query_id: u64,
    offset: int,
    limit: int,
) -> bool {
    let end = |available: int|
        if offset + limit < available {
            offset + limit
        } else {
            available
        };
    &&& page.query_id == query_id
    &&& page.kind == listing.kind
    &&& page.state == listing.state
    &&& page.total == listing.total
    &&& page.message == listing.message
    &&& match listing.kind {
        RestoreQueryKind::Snapshots => {
            &&& page.entries@.len() == 0
            &&& page.snapshots@.len() == end(listing.snapshots@.len() as int) - offset
            &&& forall|i: int|
                0 <= i < page.snapshots@.len() ==> {
                    &&& (#[trigger] page.snapshots@[i]).id == listing.snapshots@[offset + i].id
                    &&& page.snapshots@[i].paths@ == listing.snapshots@[offset + i].paths@
                }
        },
        RestoreQueryKind::Directory => {
            &&& page.snapshots@.len() == 0
            &&& page.entries@ == listing.entries@.subrange(
                offset,
                end(listing.entries@.len() as int),
            )
        },
    }
}

/// How many items a listing holds.
pub open spec fn available_in(listing: RestoreQueryView) -> nat {
    match listing.kind {
        RestoreQueryKind::Snapshots => listing.snapshots@.len(),
        RestoreQueryKind::Directory => listing.entries@.len(),
    }
}

/// `shorter` is `page` with its first `count` items.
pub open spec fn starts_page(shorter: RestoreQueryView, page: RestoreQueryView, count: int) -> bool {
    match page.kind {
        RestoreQueryKind::Snapshots => {
            &&& shorter.snapshots@ == page.snapshots@.take(count)
            &&& shorter == (RestoreQueryView { snapshots: shorter.snapshots, ..page })
        },
        RestoreQueryKind::Directory => {
            &&& shorter.entries@ == page.entries@.take(count)
            &&& shorter == (RestoreQueryView { entries: shorter.entries, ..page })
        },
    }
}

/// The encoding of the first `count` items of a page came to this length.
pub open spec fn encodes_to<F: Fn(&RestoreQueryView) -> Option<usize>>(
    encode: F,
    page: RestoreQueryView,
    count: int,
    length: Option<usize>,
) -> bool {
    exists|shorter: RestoreQueryView| #[trigger]
        starts_page(shorter, page, count) && call_ensures(encode, (&shorter,), length)
}

/// The first `count` items of a page do not fit.
pub open spec fn is_too_large<F: Fn(&RestoreQueryView) -> Option<usize>>(
    encode: F,
    page: RestoreQueryView,
    count: int,
    response_limit: int,
) -> bool {
    exists|length: usize| #[trigger]
        encodes_to(encode, page, count, Some(length)) && length > response_limit
}

/// The reply holds the first `count` items of a page, and no more of them fit.
/// Where not even the bare page fits, or where it cannot be encoded, the reply
/// says so.
pub open spec fn answers_page<F: Fn(&RestoreQueryView) -> Option<usize>>(
    payload: ResponsePayload,
    encode: F,
    page: RestoreQueryView,
    count: int,
    response_limit: int,
) -> bool {
    &&& 0 <= count <= available_in(page)
    &&& forall|more: int|
        count < more <= available_in(page) ==> #[trigger] is_too_large(
            encode,
            page,
            more,
            response_limit,
        )
    &&& match payload {
        ResponsePayload::RestoreQuery { result } => {
            &&& starts_page(result, page, count)
            &&& exists|length: usize|
                length <= response_limit && #[trigger] call_ensures(
                    encode,
                    (&result,),
                    Some(length),
                )
        },
        _ => {
            ||| payload.rejects(Rejection::RestoreQueryEncodingFailed) && encodes_to(
                encode,
                page,
                count,
                None,
            )
            ||| payload.rejects(Rejection::RestoreQueryItemTooLarge) && count == 0 && is_too_large(
                encode,
                page,
                0,
                response_limit,
            )
        },
    }
}

/// The bytes of a frame that a page leaves to the rest of the reply.
pub const RESPONSE_RESERVE_BYTES: usize = 16_384;

/// The page as far as its encoding fits into a frame: items are taken off its
/// end until it does. The host says how long the encoding is.
pub fn fit_page<F: Fn(&RestoreQueryView) -> Option<usize>>(
    page: RestoreQueryView,
    encode: F,
    max_frame: usize,
) -> (payload: ResponsePayload)
    requires
        max_frame >= RESPONSE_RESERVE_BYTES,
        forall|page: &RestoreQueryView| #[trigger] call_requires(encode, (page,)),
    ensures
        exists|count: int| #[trigger]
            answers_page(payload, encode, page, count, max_frame - RESPONSE_RESERVE_BYTES),
{
    let response_limit: usize = max_frame - RESPONSE_RESERVE_BYTES;
    let ghost mut count: int = available_in(page) as int;
    let mut shown = page;
    proof {
        assert(page.snapshots@.take(page.snapshots@.len() as int) =~= page.snapshots@);
        assert(page.entries@.take(page.entries@.len() as int) =~= page.entries@);
    }
    loop
        invariant
            response_limit == max_frame - RESPONSE_RESERVE_BYTES,
            forall|page: &RestoreQueryView| #[trigger] call_requires(encode, (page,)),
            0 <= count <= available_in(page),
            starts_page(shown, page, count),
            forall|more: int|
                count < more <= available_in(page) ==> #[trigger] is_too_large(
                    encode,
                    page,
                    more,
                    response_limit as int,
                ),
        decreases count,
    {
        let length = match encode(&shown) {
            Some(length) => length,
            None => {
                let payload = rejected(Rejection::RestoreQueryEncodingFailed);
                proof {
                    assert(encodes_to(encode, page, count, None));
                    assert(answers_page(payload, encode, page, count, response_limit as int));
                }
                return payload;
            },
        };
        if length <= response_limit {
            let payload = ResponsePayload::RestoreQuery { result: shown };
            proof {
                assert(answers_page(payload, encode, page, count, response_limit as int));
            }
            return payload;
        }
        proof {
            assert(encodes_to(encode, page, count, Some(length)));
            assert(is_too_large(encode, page, count, response_limit as int));
        }
        let removed = match shown.kind {
            RestoreQueryKind::Snapshots => shown.snapshots.pop().is_some(),
            RestoreQueryKind::Directory => shown.entries.pop().is_some(),
        };
        if !removed {
            let payload = rejected(Rejection::RestoreQueryItemTooLarge);
            proof {
                assert(answers_page(payload, encode, page, count, response_limit as int));
            }
            return payload;
        }
        proof {
            match shown.kind {
                RestoreQueryKind::Snapshots => {
                    assert(shown.snapshots@ =~= page.snapshots@.take(count - 1));
                },
                RestoreQueryKind::Directory => {
                    assert(shown.entries@ =~= page.entries@.take(count - 1));
                },
            }
            count = count - 1;
        }
    }
}

impl ServiceRuntime {
    /// The settings of the recovery browser, for administrators.
    pub fn restore_settings(&self, identity: ClientIdentity) -> (payload: ResponsePayload)
        ensures
            !identity.is_elevated_administrator ==> payload.rejects(
                Rejection::AdministratorRequired,
            ),
            identity.is_elevated_administrator ==> (payload matches ResponsePayload::RestoreSettings {
                configuration,
            } && self.shows_restore_settings(configuration)),
    {
        if !identity.is_elevated_administrator {
            return rejected(Rejection::AdministratorRequired);
        }
        ResponsePayload::RestoreSettings { configuration: self.restore_settings_view() }
    }

    /// Why a listing is not begun.
    pub open spec fn listing_refusal(
        self,
        request: RestoreQueryRequest,
        check: SelectionCheck,
        identity: ClientIdentity,
        now: i128,
    ) -> Option<Rejection> {
        if !identity.is_elevated_administrator {
            Some(Rejection::AdministratorRequired)
        } else if request is Directory && selection_is_invalid(check) is Some {
            selection_is_invalid(check)
        } else if !self.config.restore.enabled {
            Some(Rejection::RestoreDisabled)
        } else if repository_is_taken(self.state, now) is Some {
            repository_is_taken(self.state, now)
        } else {
            match request {
                RestoreQueryRequest::Snapshots => None,
                RestoreQueryRequest::Directory { snapshot_id, path } => node_is_closed(
                    self.state.authorized_restore_nodes@,
                    snapshot_id@,
                    path@,
                    true,
                ),
            }
        }
    }

    /// Begins a listing, or says why not. The host tells the event loop of it.
    pub fn begin_restore_query(
        &mut self,
        request: RestoreQueryRequest,
        check: SelectionCheck,
        identity: ClientIdentity,
        now: i128,
    ) -> (begun: Result<(u64, RuntimeEvent), ResponsePayload>)
        requires
            old(self).well_formed(),
        ensures
            final(self).well_formed(),
            final(self).only_state_changed(*old(self)),
            match begun {
                Ok((query_id, event)) => {
                    &&& old(self).listing_refusal(request, check, identity, now) is None
                    &&& query_id == old(self).state.next_restore_identifier
                    &&& event == (RuntimeEvent::RestoreQueryRequested { query_id, request })
                    &&& listing_begun(final(self).state, old(self).state, request)
                },
                Err(payload) => {
                    &&& old(self).listing_refusal(request, check, identity, now) is Some
                    &&& payload.rejects(
                        old(self).listing_refusal(request, check, identity, now)->0,
                    )
                    &&& *final(self) == *old(self)
                },
            },
    {
        if !identity.is_elevated_administrator {
            return Err(rejected(Rejection::AdministratorRequired));
        }
        let listed_id = match &request {
            RestoreQueryRequest::Snapshots => None,
            RestoreQueryRequest::Directory { snapshot_id, .. } => Some(snapshot_id.clone()),
        };
        if listed_id.is_some() {
            match validate_snapshot_selection(check) {
                Some(invalid) => return Err(rejected(invalid)),
                None => {},
            }
        }
        if !self.config.restore.enabled {
            return Err(rejected(Rejection::RestoreDisabled));
        }
        match ensure_repository_is_available(&self.state, now) {
            Some(taken) => return Err(rejected(taken)),
            None => {},
        }
        match &request {
            RestoreQueryRequest::Directory { snapshot_id, path } => {
                match authorize_snapshot_node(
                    &self.state,
                    snapshot_id.as_str(),
                    path.as_str(),
                    true,
                ) {
                    Some(closed) => return Err(rejected(closed)),
                    None => {},
                }
            },
            RestoreQueryRequest::Snapshots => {
                self.state.authorized_restore_nodes.clear();
                self.state.restore_query_snapshot_ids.clear();
                self.state.restore_queries.clear();
            },
        }
        let ghost queries = self.state.restore_queries@;
        let ghost ids = self.state.restore_query_snapshot_ids@;
        let query_id = next_restore_identifier(&mut self.state);
        if self.state.restore_queries.len() >= MAX_RETAINED_RESTORE_QUERIES {
            if let Some(oldest) = smallest_key(&self.state.restore_queries) {
                let _ = self.state.restore_queries.remove(&oldest);
                let _ = self.state.restore_query_snapshot_ids.remove(&oldest);
                proof {
                    assert(is_smallest_key(queries, oldest));
                }
            }
        }
        let ghost kept = self.state.restore_queries@;
        let ghost kept_ids = self.state.restore_query_snapshot_ids@;
        proof {
            assert(makes_room(kept, kept_ids, queries, ids));
        }
        let kind = match listed_id {
            Some(snapshot_id) => {
                self.state.restore_query_snapshot_ids.insert(query_id, snapshot_id);
                RestoreQueryKind::Directory
            },
            None => RestoreQueryKind::Snapshots,
        };
        self.state.restore_queries.insert(
            query_id,
            RestoreQueryView {
                query_id,
                kind,
                state: RestoreQueryState::Running,
                snapshots: Vec::new(),
                entries: Vec::new(),
                total: 0,
                message: None,
            },
        );
        self.state.active_restore_query = Some(query_id);
        self.state.restore_operation_active = true;
        proof {
            assert(files_listing(self.state, queries, ids, query_id, request));
        }
        Ok((query_id, RuntimeEvent::RestoreQueryRequested { query_id, request }))
    }

    /// A listing could not be handed on: it is gone.
    pub fn restore_query_undelivered(&mut self, query_id: u64) -> (payload: ResponsePayload)
        requires
            old(self).well_formed(),
        ensures
            final(self).well_formed(),
            final(self).only_state_changed(*old(self)),
            payload.rejects(Rejection::ServiceStopping),
            final(self).state.restore_queries@ == old(self).state.restore_queries@.remove(query_id),
            final(self).state.restore_query_snapshot_ids@
                == old(self).state.restore_query_snapshot_ids@.remove(query_id),
            final(self).state == (RuntimeState {
                restore_queries: final(self).state.restore_queries,
                restore_query_snapshot_ids: final(self).state.restore_query_snapshot_ids,
                active_restore_query: None,
                restore_operation_active: false,
                ..old(self).state
            }),
    {
        let _ = self.state.restore_queries.remove(&query_id);
        let _ = self.state.restore_query_snapshot_ids.remove(&query_id);
        self.state.active_restore_query = None;
        self.state.restore_operation_active = false;
        rejected(Rejection::ServiceStopping)
    }

    /// Why a page of a listing is not shown.
    pub open spec fn page_refusal(
        self,
        query_id: u64,
        offset: u32,
        limit: u16,
        identity: ClientIdentity,
    ) -> Option<Rejection> {
        if !identity.is_elevated_administrator {
            Some(Rejection::AdministratorRequired)
        } else if !self.config.restore.enabled {
            Some(Rejection::RestoreDisabled)
        } else if limit == 0 || limit > MAX_RESTORE_QUERY_PAGE_SIZE {
            Some(Rejection::InvalidRestoreQueryLimit)
        } else if !self.state.restore_queries@.contains_key(query_id) {
            Some(Rejection::RestoreQueryNotFound)
        } else if offset > available_in(self.state.restore_queries@[query_id]) {
            Some(Rejection::InvalidRestoreQueryOffset)
        } else {
            None
        }
    }

    /// A page of a listing, as long as it was asked for.
    pub fn restore_page(
        &self,
        query_id: u64,
        offset: u32,
        limit: u16,
        identity: ClientIdentity,
    ) -> (page: Result<RestoreQueryView, ResponsePayload>)
        requires
            self.well_formed(),
        ensures
            match page {
                Ok(page) => {
                    &&& self.page_refusal(query_id, offset, limit, identity) is None
                    &&& is_page(
                        page,
                        self.state.restore_queries@[query_id],
                        query_id,
                        offset as int,
                        limit as int,
                    )
                },
                Err(payload) => {
                    &&& self.page_refusal(query_id, offset, limit, identity) is Some
                    &&& payload.rejects(self.page_refusal(query_id, offset, limit, identity)->0)
                },
            },
    {
        if !identity.is_elevated_administrator {
            return Err(rejected(Rejection::AdministratorRequired));
        }
        if !self.config.restore.enabled {
            return Err(rejected(Rejection::RestoreDisabled));
        }
        if limit == 0 || limit > MAX_RESTORE_QUERY_PAGE_SIZE {
            return Err(rejected(Rejection::InvalidRestoreQueryLimit));
        }
        let listing = match self.state.restore_queries.get(&query_id) {
            Some(listing) => listing,
            None => return Err(rejected(Rejection::RestoreQueryNotFound)),
        };
        let available: usize = match listing.kind {
            RestoreQueryKind::Snapshots => listing.snapshots.len(),
            RestoreQueryKind::Directory => listing.entries.len(),
        };
        if offset as u64 > available as u64 {
            return Err(rejected(Rejection::InvalidRestoreQueryOffset));
        }
        let start: usize = offset as usize;
        let left: usize = available - start;
        let size: usize = if (limit as usize) < left {
            limit as usize
        } else {
            left
        };
        let mut snapshots: Vec<RestoreSnapshotView> = Vec::new();
        let mut entries: Vec<RestoreEntryView> = Vec::new();
        let mut i: usize = 0;
        while i < size
            invariant
                i <= size,
                start + size <= available,
                available == available_in(*listing),
                listing.kind is Snapshots ==> {
                    &&& entries@.len() == 0
                    &&& snapshots@.len() == i
                    &&& forall|j: int|
                        0 <= j < i ==> {
                            &&& (#[trigger] snapshots@[j]).id == listing.snapshots@[start + j].id
                            &&& snapshots@[j].paths@ == listing.snapshots@[start + j].paths@
                        }
                },
                listing.kind is Directory ==> {
                    &&& snapshots@.len() == 0
                    &&& entries@ == listing.entries@.subrange(start as int, start + i)
                },
            decreases size - i,
        {
            match listing.kind {
                RestoreQueryKind::Snapshots => {
                    snapshots.push(listing.snapshots[start + i].clone());
                },
                RestoreQueryKind::Directory => {
                    entries.push(listing.entries[start + i].clone());
                },
            }
            i = i + 1;
        }
        Ok(
            RestoreQueryView {
                query_id,
                kind: listing.kind,
                state: listing.state,
                snapshots,
                entries,
                total: listing.total,
                message: copy_text(&listing.message),
            },
        )
    }

    /// A page of a listing, as far as it fits into one reply.
    pub fn restore_query<F: Fn(&RestoreQueryView) -> Option<usize>>(
        &self,
        query_id: u64,
        offset: u32,
        limit: u16,
        identity: ClientIdentity,
        encode: F,
        max_frame: usize,
    ) -> (payload: ResponsePayload)
        requires
            self.well_formed(),
            max_frame >= RESPONSE_RESERVE_BYTES,
            forall|page: &RestoreQueryView| #[trigger] call_requires(encode, (page,)),
        ensures
            match self.page_refusal(query_id, offset, limit, identity) {
                Some(refusal) => payload.rejects(refusal),
                None => exists|page: RestoreQueryView, count: int|
                    {
                        &&& is_page(
                            page,
                            self.state.restore_queries@[query_id],
                            query_id,
                            offset as int,
                            limit as int,
                        )
                        &&& #[trigger] answers_page(
                            payload,
                            encode,
                            page,
                            count,
                            max_frame - RESPONSE_RESERVE_BYTES,
                        )
                    },
            },
    {
        match self.restore_page(query_id, offset, limit, identity) {
            Ok(page) => fit_page(page, encode, max_frame),
            Err(payload) => payload,
        }
    }

    /// Asks for the end of the listing that runs.
    pub fn cancel_restore_query(&self, query_id: u64, identity: ClientIdentity) -> (asked: Result<
        RuntimeEvent,
        ResponsePayload,
    >)
        ensures
            ({
                let refusal = if !identity.is_elevated_administrator {
                    Some(Rejection::AdministratorRequired)
                } else if !self.config.restore.enabled {
                    Some(Rejection::RestoreDisabled)
                } else if self.state.active_restore_query != Some(query_id) {
                    Some(Rejection::RestoreQueryNotRunning)
                } else {
                    None
                };
                match asked {
                    Ok(event) => refusal is None && event == (RuntimeEvent::RestoreQueryCancelled {
                        query_id,
                    }),
                    Err(payload) => refusal is Some && payload.rejects(refusal->0),
                }
            }),
    {
        if !identity.is_elevated_administrator {
            return Err(rejected(Rejection::AdministratorRequired));
        }
        if !self.config.restore.enabled {
            return Err(rejected(Rejection::RestoreDisabled));
        }
        let active = match self.state.active_restore_query {
            Some(active) => active == query_id,
            None => false,
        };
        if !active {
            return Err(rejected(Rejection::RestoreQueryNotRunning));
        }
        Ok(RuntimeEvent::RestoreQueryCancelled { query_id })
    }

    fn answer_listing(&mut self, query_id: u64, outcome: RestoreQueryOutcome, refused: &Vec<String>)
        requires
            old(self).well_formed(),
            old(self).state.restore_queries@.contains_key(query_id),
        ensures
            final(self).well_formed(),
            final(self).only_state_changed(*old(self)),
            final(self).state == (RuntimeState {
                restore_queries: final(self).state.restore_queries,
                authorized_restore_nodes: final(self).state.authorized_restore_nodes,
                ..old(self).state
            }),
            final(self).state.restore_queries@ == old(self).state.restore_queries@.insert(
                query_id,
                final(self).state.restore_queries@[query_id],
            ),
            listing_answered(
                final(self).state.restore_queries@[query_id],
                final(self).state.authorized_restore_nodes@,
                old(self).state,
                query_id,
                outcome,
                texts_of(refused@),
            ),
    {
        let mut listing = match self.state.restore_queries.remove(&query_id) {
            Some(listing) => listing,
            None => return ,
        };
        match outcome {
            RestoreQueryOutcome::Snapshots(snapshots) => {
                match authorize_snapshots(&snapshots, refused) {
                    Some(nodes) => {
                        self.state.authorized_restore_nodes = nodes;
                        listing.total = snapshots.len() as u64;
                        listing.snapshots = snapshots;
                        listing.state = RestoreQueryState::Succeeded;
                    },
                    None => {
                        self.state.authorized_restore_nodes.clear();
                        listing.state = RestoreQueryState::Failed;
                        listing.message = Some(
                            restore_failure_message(
                                "restore_authorization_limit_exceeded",
                            ).to_owned(),
                        );
                    },
                }
            },
            RestoreQueryOutcome::Directory(entries) => {
                let held: usize = self.state.authorized_restore_nodes.len();
                let browsed = match self.state.restore_query_snapshot_ids.get(&query_id) {
                    Some(snapshot_id) => if holds_snapshot(
                        &self.state.authorized_restore_nodes,
                        snapshot_id.as_str(),
                    ) {
                        Some(snapshot_id.clone())
                    } else {
                        None
                    },
                    None => None,
                };
                let added: usize = match &browsed {
                    Some(snapshot_id) => count_new_entries(
                        &self.state.authorized_restore_nodes,
                        snapshot_id,
                        &entries,
                    ),
                    None => 0,
                };
                if added > MAX_AUTHORIZED_RESTORE_NODES - held {
                    listing.state = RestoreQueryState::Failed;
                    listing.message = Some(
                        restore_failure_message("restore_authorization_limit_exceeded").to_owned(),
                    );
                } else {
                    if let Some(snapshot_id) = &browsed {
                        file_entries(
                            &mut self.state.authorized_restore_nodes,
                            snapshot_id,
                            &entries,
                        );
                    }
                    listing.total = entries.len() as u64;
                    listing.entries = entries;
                    listing.state = RestoreQueryState::Succeeded;
                }
            },
            RestoreQueryOutcome::Failed { code } => {
                listing.state = RestoreQueryState::Failed;
                listing.message = Some(restore_failure_message(code.as_str()).to_owned());
            },
            RestoreQueryOutcome::Cancelled => {
                listing.state = RestoreQueryState::Cancelled;
                listing.message = Some("The recovery listing was cancelled.".to_owned());
            },
        }
        self.state.restore_queries.insert(query_id, listing);
    }

    /// Ends the listing that runs; the end of any other is stale. `refused`
    /// holds the paths in backups that the host does not accept. Where the
    /// recovery browser was switched off meanwhile nothing of it is kept.
    pub fn finish_restore_query(
        &mut self,
        query_id: u64,
        outcome: RestoreQueryOutcome,
        refused: &Vec<String>,
    )
        requires
            old(self).well_formed(),
        ensures
            final(self).well_formed(),
            final(self).only_state_changed(*old(self)),
            old(self).state.active_restore_query != Some(query_id) ==> *final(self) == *old(self),
            old(self).state.active_restore_query == Some(query_id) ==> exists|ended: RuntimeState|
                {
                    &&& #[trigger] listing_ended(
                        ended,
                        old(self).state,
                        query_id,
                        outcome,
                        texts_of(refused@),
                    )
                    &&& if old(self).config.restore.enabled
                        || !old(self).state.restore_queries@.contains_key(query_id) {
                        final(self).state == ended
                    } else {
                        forgets_restores(final(self).state, ended)
                    }
                },
    {
        let active = match self.state.active_restore_query {
            Some(active) => active == query_id,
            None => false,
        };
        if !active {
            return ;
        }
        if !self.state.restore_queries.contains_key(&query_id) {
            self.state.active_restore_query = None;
            self.state.restore_operation_active = false;
            proof {
                assert(listing_ended(
                    self.state,
                    old(self).state,
                    query_id,
                    outcome,
                    texts_of(refused@),
                ));
            }
            return ;
        }
        let ghost reported = outcome;
        self.answer_listing(query_id, outcome, refused);
        self.state.active_restore_query = None;
        self.state.restore_operation_active = false;
        let ghost ended = self.state;
        proof {
            assert(listing_ended(
                ended,
                old(self).state,
                query_id,
                reported,
                texts_of(refused@),
            ));
        }
        if !self.config.restore.enabled {
            clear_sensitive_restore_state(&mut self.state);
        }
    }

    /// Why a restore is not begun.
    pub open spec fn restore_refusal(
        self,
        snapshot_id: Seq<char>,
        path: Seq<char>,
        destination: Seq<char>,
        check: SelectionCheck,
        max_path: usize,
        identity: ClientIdentity,
        now: i128,
    ) -> Option<Rejection> {
        if !identity.is_elevated_administrator {
            Some(Rejection::AdministratorRequired)
        } else if selection_is_invalid(check) is Some {
            selection_is_invalid(check)
        } else if path == "/"@ {
            Some(Rejection::RestoreOfWholeRoot)
        } else if !is_absolute_path(destination) || text::utf16_len(destination) > max_path {
            Some(Rejection::RestoreDestinationInvalid)
        } else if !self.config.restore.enabled {
            Some(Rejection::RestoreDisabled)
        } else if repository_is_taken(self.state, now) is Some {
            repository_is_taken(self.state, now)
        } else {
            node_is_closed(self.state.authorized_restore_nodes@, snapshot_id, path, false)
        }
    }

    /// The status of a restore that has just begun.
    pub open spec fn is_fresh_restore(status: RestoreStatusView, job_id: u64) -> bool {
        &&& status.job_id == Some(job_id)
        &&& status.state is Running
        &&& status.files_restored == Some(0u64)
        &&& status.bytes_restored == Some(0u64)
        &&& status.total_files is None
        &&& status.total_bytes is None
        &&& status.destination is None
        &&& chars_of(status.message) == Some("Preparing a verified file restore."@)
    }

    /// Begins a restore, or says why not. The host tells the event loop of it.
    /// `max_path` is the longest path that the host accepts, in UTF-16.
    pub fn begin_restore(
        &mut self,
        snapshot_id: String,
        path: String,
        destination: String,
        check: SelectionCheck,
        max_path: usize,
        identity: ClientIdentity,
        now: i128,
    ) -> (begun: Result<(u64, RuntimeEvent), ResponsePayload>)
        requires
            old(self).well_formed(),
        ensures
            final(self).well_formed(),
            final(self).only_state_changed(*old(self)),
            ({
                let refusal = old(self).restore_refusal(
                    snapshot_id@,
                    path@,
                    destination@,
                    check,
                    max_path,
                    identity,
                    now,
                );
                match begun {
                    Ok((job_id, event)) => {
                        &&& refusal is None
                        &&& job_id == old(self).state.next_restore_identifier
                        &&& event == (RuntimeEvent::RestoreRequested {
                            job_id,
                            snapshot_id,
                            path,
                            destination,
                        })
                        &&& Self::is_fresh_restore(final(self).state.restore_status, job_id)
                        &&& final(self).state == (RuntimeState {
                            restore_status: final(self).state.restore_status,
                            restore_operation_active: true,
                            next_restore_identifier: next_identifier(job_id),
                            ..old(self).state
                        })
                    },
                    Err(payload) => {
                        &&& refusal is Some
                        &&& payload.rejects(refusal->0)
                        &&& *final(self) == *old(self)
                    },
                }
            }),
    {
        if !identity.is_elevated_administrator {
            return Err(rejected(Rejection::AdministratorRequired));
        }
        match validate_snapshot_selection(check) {
            Some(invalid) => return Err(rejected(invalid)),
            None => {},
        }
        if text::same_text(path.as_str(), "/") {
            return Err(rejected(Rejection::RestoreOfWholeRoot));
        }
        if !is_absolute(destination.as_str()) || text::exceeds_utf16(
            destination.as_str(),
            max_path,
        ) {
            return Err(rejected(Rejection::RestoreDestinationInvalid));
        }
        if !self.config.restore.enabled {
            return Err(rejected(Rejection::RestoreDisabled));
        }
        match ensure_repository_is_available(&self.state, now) {
            Some(taken) => return Err(rejected(taken)),
            None => {},
        }
        match authorize_snapshot_node(&self.state, snapshot_id.as_str(), path.as_str(), false) {
            Some(closed) => return Err(rejected(closed)),
            None => {},
        }
        let job_id = next_restore_identifier(&mut self.state);
        self.state.restore_status = RestoreStatusView {
            job_id: Some(job_id),
            state: RestoreJobState::Running,
            files_restored: Some(0),
            bytes_restored: Some(0),
            total_files: None,
            total_bytes: None,
            destination: None,
            message: Some("Preparing a verified file restore.".to_owned()),
        };
        self.state.restore_operation_active = true;
        Ok((job_id, RuntimeEvent::RestoreRequested { job_id, snapshot_id, path, destination }))
    }

    /// A restore could not be handed on: nothing is left of it.
    pub fn restore_undelivered(&mut self) -> (payload: ResponsePayload)
        ensures
            final(self).only_state_changed(*old(self)),
            payload.rejects(Rejection::ServiceStopping),
            final(self).state == (RuntimeState {
                restore_status: RestoreStatusView::spec_idle(),
                restore_operation_active: false,
                ..old(self).state
            }),
    {
        self.state.restore_status = RestoreStatusView::idle();
        self.state.restore_operation_active = false;
        rejected(Rejection::ServiceStopping)
    }

    /// What the log says when a restore was handed on.
    pub fn restore_started() -> (diagnostic: Diagnostic)
        ensures
            diagnostic.reads(
                DiagnosticLevel::Information,
                "restore.started"@,
                "An administrator started verified file recovery."@,
                None,
            ),
    {
        Diagnostic {
            level: DiagnosticLevel::Information,
            event_id: "restore.started",
            message: "An administrator started verified file recovery.",
            code: None,
        }
    }

    /// Why the state of a restore is not shown: a running one can be watched
    /// and stopped even where the recovery browser was switched off.
    pub open spec fn watch_refusal(self, identity: ClientIdentity) -> Option<Rejection> {
        if !identity.is_elevated_administrator {
            Some(Rejection::AdministratorRequired)
        } else if !self.config.restore.enabled && !(self.state.restore_status.state is Running) {
            Some(Rejection::RestoreDisabled)
        } else {
            None
        }
    }

    fn authorize_active_restore(&self, identity: ClientIdentity) -> (refused: Option<Rejection>)
        ensures
            refused == self.watch_refusal(identity),
    {
        if !identity.is_elevated_administrator {
            return Some(Rejection::AdministratorRequired);
        }
        if self.config.restore.enabled || self.state.restore_status.state
            == RestoreJobState::Running {
            None
        } else {
            Some(Rejection::RestoreDisabled)
        }
    }

    pub fn restore_status(&self, identity: ClientIdentity) -> (payload: ResponsePayload)
        ensures
            match self.watch_refusal(identity) {
                Some(rejection) => payload.rejects(rejection),
                None => payload == (ResponsePayload::RestoreStatus {
                    status: self.state.restore_status,
                }),
            },
    {
        match self.authorize_active_restore(identity) {
            Some(rejection) => rejected(rejection),
            None => ResponsePayload::RestoreStatus { status: self.state.restore_status.clone() },
        }
    }

    /// Asks for the end of the restore that runs.
    pub fn cancel_restore(&self, identity: ClientIdentity) -> (asked: Result<
        RuntimeEvent,
        ResponsePayload,
    >)
        ensures
            match asked {
                Ok(event) => {
                    &&& self.watch_refusal(identity) is None
                    &&& self.state.restore_status.state is Running
                    &&& self.state.restore_status.job_id is Some
                    &&& event == (RuntimeEvent::RestoreCancelled {
                        job_id: self.state.restore_status.job_id->0,
                    })
                },
                Err(payload) => match self.watch_refusal(identity) {
                    Some(rejection) => payload.rejects(rejection),
                    None => payload.rejects(Rejection::RestoreNotRunning) && (!(
                    self.state.restore_status.state is Running)
                        || self.state.restore_status.job_id is None),
                },
            },
    {
        match self.authorize_active_restore(identity) {
            Some(rejection) => return Err(rejected(rejection)),
            None => {},
        }
        if self.state.restore_status.state != RestoreJobState::Running {
            return Err(rejected(Rejection::RestoreNotRunning));
        }
        match self.state.restore_status.job_id {
            Some(job_id) => Ok(RuntimeEvent::RestoreCancelled { job_id }),
            None => Err(rejected(Rejection::RestoreNotRunning)),
        }
    }

    /// Takes in how far the restore that runs has come; anything else is stale.
    pub fn update_restore_progress(&mut self, job_id: u64, progress: RestoreProgress)
        ensures
            final(self).only_state_changed(*old(self)),
            ({
                let before = old(self).state.restore_status;
                let after = final(self).state.restore_status;
                if before.job_id == Some(job_id) && before.state is Running {
                    &&& final(self).state == (RuntimeState {
                        restore_status: after,
                        ..old(self).state
                    })
                    &&& chars_of(after.message) == Some(
                        "Restoring and verifying the selected files."@,
                    )
                    &&& after == (RestoreStatusView {
                        files_restored: progress.files_restored,
                        bytes_restored: progress.bytes_restored,
                        total_files: progress.total_files,
                        total_bytes: progress.total_bytes,
                        destination: if progress.destination is Some {
                            progress.destination
                        } else {
                            before.destination
                        },
                        message: after.message,
                        ..before
                    })
                } else {
                    *final(self) == *old(self)
                }
            }),
    {
        let same = match self.state.restore_status.job_id {
            Some(running) => running == job_id,
            None => false,
        };
        if !same || self.state.restore_status.state != RestoreJobState::Running {
            return ;
        }
        self.state.restore_status.files_restored = progress.files_restored;
        self.state.restore_status.bytes_restored = progress.bytes_restored;
        self.state.restore_status.total_files = progress.total_files;
        self.state.restore_status.total_bytes = progress.total_bytes;
        if progress.destination.is_some() {
            self.state.restore_status.destination = progress.destination;
        }
        self.state.restore_status.message = Some(
            "Restoring and verifying the selected files.".to_owned(),
        );
    }

    /// Ends a restore; the end of one that is not the current one is stale.
    pub fn finish_restore(&mut self, job_id: u64, status: RestoreStatusView) -> (diagnostic: Option<
        Diagnostic,
    >)
        requires
            old(self).well_formed(),
        ensures
            final(self).well_formed(),
            final(self).only_state_changed(*old(self)),
            old(self).state.restore_status.job_id != Some(job_id) ==> *final(self) == *old(self)
                && diagnostic is None,
            old(self).state.restore_status.job_id == Some(job_id) ==> {
                let ended = RuntimeState {
                    restore_status: status,
                    restore_operation_active: false,
                    ..old(self).state
                };
                &&& if old(self).config.restore.enabled {
                    final(self).state == ended
                } else {
                    forgets_restores(final(self).state, ended)
                }
                &&& diagnostic is Some
                &&& match status.state {
                    RestoreJobState::Succeeded => diagnostic->0.reads(
                        DiagnosticLevel::Information,
                        "restore.succeeded"@,
                        "Verified file recovery completed successfully."@,
                        None,
                    ),
                    RestoreJobState::Cancelled => diagnostic->0.reads(
                        DiagnosticLevel::Information,
                        "restore.cancelled"@,
                        "An administrator cancelled file recovery."@,
                        None,
                    ),
                    _ => diagnostic->0.reads(
                        DiagnosticLevel::Error,
                        "restore.failed"@,
                        "Verified file recovery could not be completed."@,
                        None,
                    ),
                }
            },
    {
        let current = match self.state.restore_status.job_id {
            Some(running) => running == job_id,
            None => false,
        };
        if !current {
            return None;
        }
        let ended = status.state;
        self.state.restore_status = status;
        self.state.restore_operation_active = false;
        if !self.config.restore.enabled {
            clear_sensitive_restore_state(&mut self.state);
        }
        Some(
            match ended {
                RestoreJobState::Succeeded => Diagnostic {
                    level: DiagnosticLevel::Information,
                    event_id: "restore.succeeded",
                    message: "Verified file recovery completed successfully.",
                    code: None,
                },
                RestoreJobState::Cancelled => Diagnostic {
                    level: DiagnosticLevel::Information,
                    event_id: "restore.cancelled",
                    message: "An administrator cancelled file recovery.",
                    code: None,
                },
                _ => Diagnostic {
                    level: DiagnosticLevel::Error,
                    event_id: "restore.failed",
                    message: "Verified file recovery could not be completed.",
                    code: None,
                },
            },
        )
    }
}

/// Only what a listing showed can be opened or restored.
pub proof fn only_listed_items_are_opened(
    runtime: ServiceRuntime,
    snapshot_id: Seq<char>,
    path: Seq<char>,
    destination: Seq<char>,
    check: SelectionCheck,
    max_path: usize,
    identity: ClientIdentity,
    now: i128,
)
    requires
        runtime.restore_refusal(
            snapshot_id,
            path,
            destination,
            check,
            max_path,
            identity,
            now,
        ) is None,
    ensures
        identity.is_elevated_administrator,
        runtime.config.restore.enabled,
        runtime.state.authorized_restore_nodes@.contains_key((snapshot_id, path)),
        path != "/"@,
        is_absolute_path(destination),
        !runtime.state.restore_operation_active,
        !(runtime.state.status.state is Running),
{
}

/// Every backup of a listing can be opened at its root.
pub proof fn a_listed_backup_can_be_opened(
    snapshots: Seq<RestoreSnapshotView>,
    refused: Seq<Seq<char>>,
    at: int,
)
    requires
        0 <= at < snapshots.len(),
    ensures
        node_is_closed(
            authorized_by(snapshots, refused, snapshots.len() as int),
            snapshots[at].id@,
            "/"@,
            true,
        ) is None,
    decreases snapshots.len() - at,
{
    let nodes = authorized_by(snapshots, refused, snapshots.len() as int);
    let node = (snapshots[at].id@, "/"@);
    if is_last_of_its_name(snapshots, at) {
        lemma_root_is_a_node(texts_of(snapshots[at].paths@), refused);
        assert(opens(snapshots, refused, snapshots.len() as int, node));
        assert(nodes.contains_key(node));
    } else {
        let later = choose|later: int|
            at < later < snapshots.len() && (#[trigger] snapshots[later]).id@ == snapshots[at].id@;
        a_listed_backup_can_be_opened(snapshots, refused, later);
    }
}

proof fn lemma_root_is_a_node(paths: Seq<Seq<char>>, refused: Seq<Seq<char>>)
    ensures
        snapshot_nodes(paths, refused).contains("/"@),
    decreases paths.len(),
{
    if paths.len() == 0 {
        assert(snapshot_nodes(paths, refused)[0] == "/"@);
    } else {
        let before = snapshot_nodes(paths.drop_last(), refused);
        lemma_root_is_a_node(paths.drop_last(), refused);
        let at = before.index_of("/"@);
        assert(before[at] == "/"@);
        assert(snapshot_nodes(paths, refused)[at] == "/"@);
    }
}

/// Every entry that a listing of a folder showed can be restored.
pub proof fn a_shown_entry_can_be_restored(
    nodes: Map<(Seq<char>, Seq<char>), RestoreNodeType>,
    snapshot_id: Seq<char>,
    entries: Seq<RestoreEntryView>,
    at: int,
)
    requires
        0 <= at < entries.len(),
    ensures
        node_is_closed(
            with_entries(nodes, snapshot_id, entries),
            snapshot_id,
            entries[at].path@,
            false,
        ) is None,
    decreases entries.len(),
{
    if at < entries.len() - 1 {
        let earlier = entries.drop_last();
        a_shown_entry_can_be_restored(nodes, snapshot_id, earlier, at);
        assert(earlier[at] == entries[at]);
    }
    assert(with_entries(nodes, snapshot_id, entries).contains_key(
        (snapshot_id, entries[at].path@),
    ));
}

/// Whoever is not an administrator sees nothing of a backup and restores nothing.
pub proof fn only_administrators_browse(
    runtime: ServiceRuntime,
    request: RestoreQueryRequest,
    check: SelectionCheck,
    query_id: u64,
    offset: u32,
    limit: u16,
    snapshot_id: Seq<char>,
    path: Seq<char>,
    destination: Seq<char>,
    max_path: usize,
    now: i128,
)
    ensures
        ({
            let user = ClientIdentity { is_elevated_administrator: false };
            let refusal = Some(Rejection::AdministratorRequired);
            &&& runtime.listing_refusal(request, check, user, now) == refusal
            &&& runtime.page_refusal(query_id, offset, limit, user) == refusal
            &&& runtime.watch_refusal(user) == refusal
            &&& runtime.restore_refusal(
                snapshot_id,
                path,
                destination,
                check,
                max_path,
                user,
                now,
            ) == refusal
        }),
{
}

/// Where the recovery browser is off nothing is listed and nothing is restored.
pub proof fn a_disabled_browser_lists_nothing(
    runtime: ServiceRuntime,
    request: RestoreQueryRequest,
    check: SelectionCheck,
    query_id: u64,
    offset: u32,
    limit: u16,
    snapshot_id: Seq<char>,
    path: Seq<char>,
    destination: Seq<char>,
    max_path: usize,
    identity: ClientIdentity,
    now: i128,
)
    requires
        !runtime.config.restore.enabled,
    ensures
        runtime.listing_refusal(request, check, identity, now) is Some,
        runtime.page_refusal(query_id, offset, limit, identity) is Some,
        runtime.restore_refusal(
            snapshot_id,
            path,
            destination,
            check,
            max_path,
            identity,
            now,
        ) is Some,
{
}

/// While a backup runs, or the repository is otherwise in use, no listing begins.
pub proof fn one_reader_at_a_time(
    runtime: ServiceRuntime,
    request: RestoreQueryRequest,
    check: SelectionCheck,
    identity: ClientIdentity,
    now: i128,
)
    requires
        runtime.state.is_busy(now),
    ensures
        runtime.listing_refusal(request, check, identity, now) is Some,
{
}

} // verus!
