//! What the recovery browser shows, and what may be opened and restored.
use crate::config::chars_of;
use crate::protocol::{
    ClientIdentity, RestoreEntryView, RestoreNodeType, RestoreQueryKind, RestoreQueryView,
    RestoreSnapshotView, RestoreStatusView,
};
use crate::rejection::Rejection;
use crate::runtime::events::{RestoreQueryOutcome, RestoreQueryRequest};
use crate::runtime::restore::{
    authorized_by, available_in, failure_text, forgets_restores, is_blank_listing, is_page,
    is_smallest_key, kind_of, knows_snapshot, listing_begun, listing_ended, makes_room,
    new_entries, next_identifier, node_count, node_is_closed, node_path, nodes_of, opens,
    repository_is_taken, selection_is_invalid, slashed, snapshot_nodes, source_node, starts_page,
    with_entries, without_end_slashes, SelectionCheck,
};
use crate::runtime::state::{RuntimeState, ServiceRuntime};
use crate::text;
use vstd::prelude::*;

verus! {

/// What was browsed is forgotten unless it is being read, and nothing else is.
pub proof fn what_is_forgotten(after: RuntimeState, before: RuntimeState)
    requires
        forgets_restores(after, before),
    ensures
        before.restore_operation_active ==> after == before,
        !before.restore_operation_active ==> {
            &&& after.restore_queries@.dom().len() == 0
            &&& after.restore_query_snapshot_ids@.dom().len() == 0
            &&& after.authorized_restore_nodes@.dom().len() == 0
            &&& after.active_restore_query is None
            &&& after.restore_status.state is Idle
            &&& after.restore_status.job_id is None
        },
        after.status == before.status,
        after.service_state == before.service_state,
        after.repository_operation == before.repository_operation,
        after.next_restore_identifier == before.next_restore_identifier,
        after.restore_operation_active == before.restore_operation_active,
{
    assert(Map::<u64, RestoreQueryView>::empty().dom() =~= Set::empty());
    assert(Map::<u64, String>::empty().dom() =~= Set::empty());
    assert(Map::<(Seq<char>, Seq<char>), RestoreNodeType>::empty().dom() =~= Set::empty());
}

/// A folder of a drive is found in a backup under the letter of the drive, with
/// forward slashes and none at its end; any other text is found nowhere.
pub proof fn where_a_source_is_found(source: Seq<char>)
    ensures
        node_path(source) is Some <==> source.len() >= 3 && text::is_ascii_alphabetic(source[0])
            && source[1] == ':' && (source[2] == '\\' || source[2] == '/'),
        node_path(source) is Some ==> {
            let path = node_path(source)->0;
            &&& path.len() >= 2
            &&& path[0] == '/'
            &&& path[1] == source[0]
            &&& path.last() != '/'
            &&& path.len() <= source.len()
            &&& forall|i: int|
                2 <= i < path.len() ==> #[trigger] path[i] == (if source[i] == '\\' {
                    '/'
                } else {
                    source[i]
                })
            &&& forall|i: int|
                path.len() <= i < source.len() ==> #[trigger] source[i] == '\\' || source[i] == '/'
        },
{
    if node_path(source) is Some {
        let rest = slashed(source.skip(2));
        let short = without_end_slashes(rest);
        end_slashes_go(rest);
        let path = node_path(source)->0;
        assert(path =~= seq!['/', source[0]] + short);
        assert forall|i: int| 2 <= i < path.len() implies #[trigger] path[i] == (if source[i]
            == '\\' {
            '/'
        } else {
            source[i]
        }) by {
            assert(path[i] == short[i - 2]);
            assert(short[i - 2] == rest[i - 2]);
        }
        assert forall|i: int| path.len() <= i < source.len() implies #[trigger] source[i] == '\\'
            || source[i] == '/' by {
            assert(rest[i - 2] == '/');
            assert(source.skip(2)[i - 2] == source[i]);
        }
        if short.len() > 0 {
            assert(path.last() == short.last());
        } else {
            assert(path.last() == source[0]);
        }
    }
}

/// Slashes at the end go, and nothing else does.
pub proof fn end_slashes_go(path: Seq<char>)
    ensures
        ({
            let short = without_end_slashes(path);
            &&& short.len() <= path.len()
            &&& short == path.take(short.len() as int)
            &&& short.len() > 0 ==> short.last() != '/'
            &&& forall|i: int| short.len() <= i < path.len() ==> #[trigger] path[i] == '/'
        }),
    decreases path.len(),
{
    if path.len() > 0 && path.last() == '/' {
        end_slashes_go(path.drop_last());
        let short = without_end_slashes(path);
        assert(short =~= path.take(short.len() as int));
        assert forall|i: int| short.len() <= i < path.len() implies #[trigger] path[i] == '/' by {
            if i < path.len() - 1 {
                assert(path.drop_last()[i] == path[i]);
            }
        }
    } else {
        assert(path.take(path.len() as int) =~= path);
    }
}

/// A backup opens at its root, and at every source that is found in it and not
/// refused.
pub proof fn where_a_backup_opens(paths: Seq<Seq<char>>, refused: Seq<Seq<char>>, node: Seq<char>)
    ensures
        snapshot_nodes(paths, refused).contains(node) <==> node == "/"@ || exists|i: int|
            0 <= i < paths.len() && node_path(#[trigger] paths[i]) == Some(node)
                && !refused.contains(node),
        snapshot_nodes(paths, refused)[0] == "/"@,
        snapshot_nodes(paths, refused).len() <= paths.len() + 1,
    decreases paths.len(),
{
    let all = snapshot_nodes(paths, refused);
    if paths.len() == 0 {
        assert(all[0] == "/"@);
        assert(all.contains("/"@));
        if all.contains(node) {
            let at = all.index_of(node);
            assert(all[at] == node);
        }
    } else {
        let fewer = paths.drop_last();
        let last = paths[paths.len() - 1];
        let before = snapshot_nodes(fewer, refused);
        where_a_backup_opens(fewer, refused, node);
        where_a_backup_opens(fewer, refused, "/"@);
        let found = source_node(last, refused);
        if found is Some {
            where_a_backup_opens(fewer, refused, found->0);
        }
        if before.contains(node) {
            let at = before.index_of(node);
            assert(all[at] == node);
            if node != "/"@ {
                let i = choose|i: int|
                    0 <= i < fewer.len() && node_path(#[trigger] fewer[i]) == Some(node)
                        && !refused.contains(node);
                assert(paths[i] == fewer[i]);
            }
        }
        if all.contains(node) && !before.contains(node) {
            let at = all.index_of(node);
            if at < before.len() {
                assert(before[at] == node);
            }
            assert(found == Some(node));
            assert(paths[paths.len() - 1] == last);
        }
        if exists|i: int|
            0 <= i < paths.len() && node_path(#[trigger] paths[i]) == Some(node)
                && !refused.contains(node) {
            let i = choose|i: int|
                0 <= i < paths.len() && node_path(#[trigger] paths[i]) == Some(node)
                    && !refused.contains(node);
            if i < fewer.len() {
                assert(fewer[i] == paths[i]);
                assert(before.contains(node));
            } else {
                assert(found == Some(node));
                if !before.contains(node) {
                    assert(all[before.len() as int] == node);
                }
            }
        }
    }
}

/// The items that all backups of a list open at are counted together.
pub proof fn items_are_counted(
    snapshots: Seq<RestoreSnapshotView>,
    snapshot: RestoreSnapshotView,
    refused: Seq<Seq<char>>,
)
    ensures
        node_count(Seq::empty(), refused) == 0,
        node_count(snapshots.push(snapshot), refused) == node_count(snapshots, refused) + nodes_of(
            snapshot,
            refused,
        ).len(),
        nodes_of(snapshot, refused) == snapshot_nodes(
            crate::config::texts_of(snapshot.paths@),
            refused,
        ),
{
    assert(snapshots.push(snapshot).drop_last() =~= snapshots);
}

/// Of a list of backups, an item is open where the last backup of that name
/// opens at it, and as a folder.
pub proof fn what_a_list_opens(
    snapshots: Seq<RestoreSnapshotView>,
    refused: Seq<Seq<char>>,
    id: Seq<char>,
    path: Seq<char>,
)
    ensures
        ({
            let nodes = authorized_by(snapshots, refused, snapshots.len() as int);
            &&& nodes.contains_key((id, path)) <==> exists|at: int|
                {
                    &&& 0 <= at < snapshots.len()
                    &&& (#[trigger] snapshots[at]).id@ == id
                    &&& forall|later: int|
                        at < later < snapshots.len() ==> (#[trigger] snapshots[later]).id@ != id
                    &&& nodes_of(snapshots[at], refused).contains(path)
                }
            &&& nodes.contains_key((id, path)) ==> nodes[(id, path)] is Directory
        }),
{
    let count = snapshots.len() as int;
    if opens(snapshots, refused, count, (id, path)) {
        let at = choose|at: int|
            0 <= at < count && (#[trigger] snapshots[at]).id@ == id
                && crate::runtime::restore::is_last_of_its_name(snapshots, at) && nodes_of(
                snapshots[at],
                refused,
            ).contains(path);
        assert(snapshots[at].id@ == id);
    }
    if exists|at: int|
        {
            &&& 0 <= at < snapshots.len()
            &&& (#[trigger] snapshots[at]).id@ == id
            &&& forall|later: int|
                at < later < snapshots.len() ==> (#[trigger] snapshots[later]).id@ != id
            &&& nodes_of(snapshots[at], refused).contains(path)
        } {
        let at = choose|at: int|
            {
                &&& 0 <= at < snapshots.len()
                &&& (#[trigger] snapshots[at]).id@ == id
                &&& forall|later: int|
                    at < later < snapshots.len() ==> (#[trigger] snapshots[later]).id@ != id
                &&& nodes_of(snapshots[at], refused).contains(path)
            };
        assert(crate::runtime::restore::is_last_of_its_name(snapshots, at));
        assert(opens(snapshots, refused, count, (id, path)));
    }
}

/// Entries of a folder can be opened or restored as what they are, in the backup
/// that was browsed; what could be before still can.
pub proof fn what_a_folder_adds(
    nodes: Map<(Seq<char>, Seq<char>), RestoreNodeType>,
    snapshot_id: Seq<char>,
    entries: Seq<RestoreEntryView>,
    entry: RestoreEntryView,
    other: (Seq<char>, Seq<char>),
)
    ensures
        ({
            let more = with_entries(nodes, snapshot_id, entries.push(entry));
            let before = with_entries(nodes, snapshot_id, entries);
            &&& with_entries(nodes, snapshot_id, Seq::empty()) == nodes
            &&& more.contains_key((snapshot_id, entry.path@))
            &&& more[(snapshot_id, entry.path@)] == entry.node_type
            &&& other != (snapshot_id, entry.path@) ==> more.contains_key(other)
                == before.contains_key(other) && (before.contains_key(other) ==> more[other]
                == before[other])
            &&& new_entries(nodes, snapshot_id, entries.push(entry)) == new_entries(
                nodes,
                snapshot_id,
                entries,
            ) + (if nodes.contains_key((snapshot_id, entry.path@)) {
                0nat
            } else {
                1nat
            })
            &&& new_entries(nodes, snapshot_id, Seq::empty()) == 0
        }),
{
    assert(entries.push(entry).drop_last() =~= entries);
}

/// The oldest listing has the smallest number, and goes where there are eight.
pub proof fn the_oldest_listing_goes(
    queries_after: Map<u64, RestoreQueryView>,
    ids_after: Map<u64, String>,
    queries: Map<u64, RestoreQueryView>,
    ids: Map<u64, String>,
    query_id: u64,
)
    requires
        makes_room(queries_after, ids_after, queries, ids),
    ensures
        queries.dom().len() < 8 ==> queries_after == queries && ids_after == ids,
        queries_after.contains_key(query_id) ==> queries.contains_key(query_id)
            && queries_after[query_id] == queries[query_id],
        queries.dom().len() >= 8 ==> exists|oldest: u64|
            {
                &&& #[trigger] queries.contains_key(oldest)
                &&& !queries_after.contains_key(oldest)
                &&& !ids_after.contains_key(oldest)
                &&& forall|other: u64| #[trigger]
                    queries.contains_key(other) ==> oldest <= other && (other != oldest
                        ==> queries_after.contains_key(other))
            },
{
    if queries.dom().len() >= 8 {
        let oldest = choose|oldest: u64| #[trigger]
            is_smallest_key(queries, oldest) && queries_after == queries.remove(oldest)
                && ids_after == ids.remove(oldest);
        assert(queries.contains_key(oldest));
    }
}

/// A listing that was asked for runs under the next number, empty as yet. A new
/// list of backups closes everything that was open.
pub proof fn how_a_listing_begins(
    after: RuntimeState,
    before: RuntimeState,
    request: RestoreQueryRequest,
)
    requires
        listing_begun(after, before, request),
    ensures
        ({
            let query_id = before.next_restore_identifier;
            let view = after.restore_queries@[query_id];
            &&& after.restore_queries@.contains_key(query_id)
            &&& view.query_id == query_id
            &&& view.state is Running
            &&& view.snapshots@.len() == 0 && view.entries@.len() == 0 && view.total == 0
            &&& view.message is None
            &&& request is Snapshots <==> view.kind is Snapshots
            &&& after.active_restore_query == Some(query_id)
            &&& after.restore_operation_active
            &&& query_id < u64::MAX ==> after.next_restore_identifier == query_id + 1
            &&& query_id == u64::MAX ==> after.next_restore_identifier == 1
            &&& request is Snapshots ==> after.authorized_restore_nodes@.dom().len() == 0
            &&& request is Directory ==> after.authorized_restore_nodes@
                == before.authorized_restore_nodes@ && after.restore_query_snapshot_ids@.contains_key(
                query_id,
            ) && after.restore_query_snapshot_ids@[query_id] == request->snapshot_id
            &&& after.status == before.status
            &&& after.service_state == before.service_state
        }),
{
    assert(Map::<(Seq<char>, Seq<char>), RestoreNodeType>::empty().dom() =~= Set::empty());
}

/// A listing that came to its end shows what was found, or why nothing was, and
/// leaves the repository free.
pub proof fn how_a_listing_ends(
    after: RuntimeState,
    before: RuntimeState,
    query_id: u64,
    outcome: RestoreQueryOutcome,
    refused: Seq<Seq<char>>,
)
    requires
        listing_ended(after, before, query_id, outcome, refused),
        before.restore_queries@.contains_key(query_id),
    ensures
        ({
            let view = after.restore_queries@[query_id];
            let listing = before.restore_queries@[query_id];
            let nodes = after.authorized_restore_nodes@;
            &&& !after.restore_operation_active
            &&& after.active_restore_query is None
            &&& view.query_id == listing.query_id && view.kind == listing.kind
            &&& after.restore_query_snapshot_ids == before.restore_query_snapshot_ids
            &&& after.status == before.status
            &&& outcome is Failed ==> view.state is Failed && chars_of(view.message) == Some(
                failure_text(outcome->code@),
            ) && nodes == before.authorized_restore_nodes@
            &&& outcome is Cancelled ==> view.state is Cancelled && nodes
                == before.authorized_restore_nodes@
            &&& outcome is Snapshots && view.state is Succeeded ==> view.snapshots
                == outcome->Snapshots_0 && view.total == outcome->Snapshots_0@.len() && nodes
                == authorized_by(
                outcome->Snapshots_0@,
                refused,
                outcome->Snapshots_0@.len() as int,
            )
            &&& outcome is Snapshots ==> (view.state is Succeeded <==> node_count(
                outcome->Snapshots_0@,
                refused,
            ) <= 65_536)
            &&& outcome is Snapshots && !(view.state is Succeeded) ==> view.state is Failed
                && nodes.dom().len() == 0
            &&& outcome is Directory && view.state is Succeeded ==> view.entries
                == outcome->Directory_0 && view.total == outcome->Directory_0@.len()
            &&& outcome is Directory && !(view.state is Succeeded) ==> view.state is Failed && nodes
                == before.authorized_restore_nodes@
            &&& outcome is Directory ==> {
                let snapshot_id = before.restore_query_snapshot_ids@[query_id]@;
                let browsed = before.restore_query_snapshot_ids@.contains_key(query_id)
                    && knows_snapshot(before.authorized_restore_nodes@, snapshot_id);
                let held = before.authorized_restore_nodes.keys().len();
                &&& browsed ==> (view.state is Succeeded <==> held + new_entries(
                    before.authorized_restore_nodes@,
                    snapshot_id,
                    outcome->Directory_0@,
                ) <= 65_536)
                &&& !browsed && held <= 65_536 ==> view.state is Succeeded && nodes
                    == before.authorized_restore_nodes@
            }
            &&& outcome is Directory && view.state is Succeeded
                && before.restore_query_snapshot_ids@.contains_key(query_id) && knows_snapshot(
                before.authorized_restore_nodes@,
                before.restore_query_snapshot_ids@[query_id]@,
            ) ==> nodes == with_entries(
                before.authorized_restore_nodes@,
                before.restore_query_snapshot_ids@[query_id]@,
                outcome->Directory_0@,
            )
        }),
{
    assert(Map::<(Seq<char>, Seq<char>), RestoreNodeType>::empty().dom() =~= Set::empty());
    if outcome is Snapshots {
        crate::laws::restore::a_vector_is_counted(outcome->Snapshots_0);
    }
    if outcome is Directory {
        crate::laws::restore::entries_are_counted(outcome->Directory_0);
    }
}

/// A list of backups in memory has a number of entries that can be counted.
pub proof fn a_vector_is_counted(snapshots: Vec<RestoreSnapshotView>)
    ensures
        snapshots@.len() as u64 == snapshots@.len(),
{
    assert(snapshots@.len() == snapshots.len());
}

/// A folder in memory has a number of entries that can be counted.
pub proof fn entries_are_counted(entries: Vec<RestoreEntryView>)
    ensures
        entries@.len() as u64 == entries@.len(),
{
    assert(entries@.len() == entries.len());
}

/// A page starts where it was asked to, holds as many items as were asked for
/// or are left, and says how many there are in all.
pub proof fn what_a_page_holds(
    page: RestoreQueryView,
    listing: RestoreQueryView,
    query_id: u64,
    offset: int,
    limit: int,
    i: int,
)
    requires
        is_page(page, listing, query_id, offset, limit),
        0 <= offset <= available_in(listing),
        limit > 0,
    ensures
        page.query_id == query_id,
        page.kind == listing.kind,
        page.state == listing.state,
        page.total == listing.total,
        page.message == listing.message,
        available_in(page) <= limit,
        available_in(page) == limit || offset + available_in(page) == available_in(listing),
        listing.kind is Directory && 0 <= i < page.entries@.len() ==> page.entries@[i]
            == listing.entries@[offset + i],
        listing.kind is Snapshots && 0 <= i < page.snapshots@.len() ==> page.snapshots@[i].id
            == listing.snapshots@[offset + i].id && page.snapshots@[i].paths@
            == listing.snapshots@[offset + i].paths@,
        listing.kind is Snapshots ==> page.entries@.len() == 0,
        listing.kind is Directory ==> page.snapshots@.len() == 0,
{
}

/// A shorter page is the start of the longer one.
pub proof fn a_shorter_page_is_a_start(
    shorter: RestoreQueryView,
    page: RestoreQueryView,
    count: int,
)
    requires
        starts_page(shorter, page, count),
        0 <= count <= available_in(page),
    ensures
        available_in(shorter) == count,
        shorter.query_id == page.query_id,
        shorter.total == page.total,
        shorter.kind == page.kind,
        page.kind is Snapshots ==> shorter.snapshots@ == page.snapshots@.take(count)
            && shorter.entries == page.entries,
        page.kind is Directory ==> shorter.entries@ == page.entries@.take(count)
            && shorter.snapshots == page.snapshots,
{
}

/// The repository can be read where it was proved and nothing else is at work.
pub proof fn when_the_repository_is_free(state: RuntimeState, now: i128)
    ensures
        repository_is_taken(state, now) is None <==> {
            &&& state.repository_operation is Succeeded
            &&& !(state.status.state is Running)
            &&& !state.restore_operation_active
            &&& !state.update_install_active
            &&& state.update_hold_until is None || state.update_hold_until->0 <= now
            &&& !state.management_operation_active
        },
        !(state.repository_operation is Succeeded) ==> repository_is_taken(state, now) == Some(
            Rejection::RepositoryNotReadyToRestore,
        ),
        state.repository_operation is Succeeded && state.status.state is Running
            ==> repository_is_taken(state, now) == Some(Rejection::BackupRunningAtRestore),
{
}

/// An item is open where it was listed in that backup, and as a folder where a
/// folder is asked for.
pub proof fn when_an_item_is_open(
    nodes: Map<(Seq<char>, Seq<char>), RestoreNodeType>,
    snapshot_id: Seq<char>,
    path: Seq<char>,
    folder_only: bool,
)
    ensures
        node_is_closed(nodes, snapshot_id, path, folder_only) is None <==> nodes.contains_key(
            (snapshot_id, path),
        ) && (folder_only ==> nodes[(snapshot_id, path)] is Directory),
        nodes.contains_key((snapshot_id, path)) && folder_only && !(nodes[(
            snapshot_id,
            path,
        )] is Directory) ==> node_is_closed(nodes, snapshot_id, path, folder_only) == Some(
            Rejection::RestorePathNotFolder,
        ),
        (forall|other: Seq<char>| !(#[trigger] nodes.contains_key((snapshot_id, other))))
            ==> node_is_closed(nodes, snapshot_id, path, folder_only) == Some(
            Rejection::RestoreSnapshotNotAuthorized,
        ),
{
    if nodes.contains_key((snapshot_id, path)) {
        assert(knows_snapshot(nodes, snapshot_id));
    }
}

/// A selection counts where both of its parts do.
pub proof fn when_a_selection_counts(check: SelectionCheck)
    ensures
        selection_is_invalid(check) is None <==> check.snapshot_id_is_valid && check.path_is_valid,
        !check.snapshot_id_is_valid ==> selection_is_invalid(check) == Some(
            Rejection::RestoreSnapshotInvalid,
        ),
        check.snapshot_id_is_valid && !check.path_is_valid ==> selection_is_invalid(check) == Some(
            Rejection::RestorePathInvalid,
        ),
{
}

/// A listing is begun for an administrator where the browser is switched on and
/// the repository is free, and of a folder that was listed.
pub proof fn when_a_listing_begins(
    runtime: ServiceRuntime,
    request: RestoreQueryRequest,
    check: SelectionCheck,
    identity: ClientIdentity,
    now: i128,
)
    ensures
        runtime.listing_refusal(request, check, identity, now) is None <==> {
            &&& identity.is_elevated_administrator
            &&& runtime.config.restore.enabled
            &&& repository_is_taken(runtime.state, now) is None
            &&& request is Directory ==> {
                &&& check.snapshot_id_is_valid && check.path_is_valid
                &&& node_is_closed(
                    runtime.state.authorized_restore_nodes@,
                    request->snapshot_id@,
                    request->path@,
                    true,
                ) is None
            }
        },
        !identity.is_elevated_administrator ==> runtime.listing_refusal(
            request,
            check,
            identity,
            now,
        ) == Some(Rejection::AdministratorRequired),
{
}

/// A page is shown to an administrator, of one to a hundred items, of a listing
/// that is there, from a place in it.
pub proof fn when_a_page_is_shown(
    runtime: ServiceRuntime,
    query_id: u64,
    offset: u32,
    limit: u16,
    identity: ClientIdentity,
)
    ensures
        runtime.page_refusal(query_id, offset, limit, identity) is None <==> {
            &&& identity.is_elevated_administrator
            &&& runtime.config.restore.enabled
            &&& 1 <= limit <= 100
            &&& runtime.state.restore_queries@.contains_key(query_id)
            &&& offset <= available_in(runtime.state.restore_queries@[query_id])
        },
        runtime.watch_refusal(identity) is None <==> identity.is_elevated_administrator && (
        runtime.config.restore.enabled || runtime.state.restore_status.state is Running),
        !identity.is_elevated_administrator ==> runtime.page_refusal(
            query_id,
            offset,
            limit,
            identity,
        ) == Some(Rejection::AdministratorRequired) && runtime.watch_refusal(identity) == Some(
            Rejection::AdministratorRequired,
        ),
{
}

/// An item is restored for an administrator, not a whole backup at once, to an
/// absolute place that is not too long, where the item was listed.
pub proof fn when_an_item_is_restored(
    runtime: ServiceRuntime,
    snapshot_id: Seq<char>,
    path: Seq<char>,
    destination: Seq<char>,
    check: SelectionCheck,
    max_path: usize,
    identity: ClientIdentity,
    now: i128,
)
    ensures
        runtime.restore_refusal(
            snapshot_id,
            path,
            destination,
            check,
            max_path,
            identity,
            now,
        ) is None <==> {
            &&& identity.is_elevated_administrator
            &&& check.snapshot_id_is_valid && check.path_is_valid
            &&& path != "/"@
            &&& crate::paths::is_absolute_path(destination)
            &&& text::utf16_len(destination) <= max_path
            &&& runtime.config.restore.enabled
            &&& repository_is_taken(runtime.state, now) is None
            &&& runtime.state.authorized_restore_nodes@.contains_key((snapshot_id, path))
        },
        !identity.is_elevated_administrator ==> runtime.restore_refusal(
            snapshot_id,
            path,
            destination,
            check,
            max_path,
            identity,
            now,
        ) == Some(Rejection::AdministratorRequired),
{
    if runtime.state.authorized_restore_nodes@.contains_key((snapshot_id, path)) {
        assert(knows_snapshot(runtime.state.authorized_restore_nodes@, snapshot_id));
    }
}

/// A restore begins at nothing, with all of its totals unknown.
pub proof fn how_a_restore_begins(status: RestoreStatusView, job_id: u64)
    requires
        ServiceRuntime::is_fresh_restore(status, job_id),
    ensures
        status.job_id == Some(job_id),
        status.state is Running,
        status.files_restored == Some(0u64) && status.bytes_restored == Some(0u64),
        status.total_files is None && status.total_bytes is None && status.destination is None,
        RestoreStatusView::spec_idle().job_id is None,
        RestoreStatusView::spec_idle().state is Idle,
{
}

/// A listing is of the kind that was asked for, and numbers never run out.
pub proof fn listings_are_numbered(request: RestoreQueryRequest, identifier: u64)
    ensures
        kind_of(request) is Snapshots <==> request is Snapshots,
        kind_of(request) is Directory <==> request is Directory,
        identifier < u64::MAX ==> next_identifier(identifier) == identifier + 1,
        next_identifier(u64::MAX) == 1,
        next_identifier(identifier) > 0,
{
}

/// What went wrong is told in words that fit, and never in the words of the code.
pub proof fn what_went_wrong_is_told(code: Seq<char>)
    ensures
        failure_text("restore_cancelled"@) == "File recovery was cancelled."@,
        failure_text("restore_timed_out"@) == "File recovery exceeded its safe execution limit."@,
        failure_text("executor_start_failed"@) == "The recovery worker could not be started."@,
        failure_text("restore_verification_failed"@)
            == "The recovered files could not be verified."@,
        code == "invalid_restore_snapshot"@ || code == "restore_snapshot_invalid"@ ==> failure_text(
            code,
        ) == "The selected backup snapshot is no longer available."@,
        code == "invalid_restore_path"@ || code == "restore_path_invalid"@ ==> failure_text(code)
            == "The selected backup item is not available for recovery."@,
        code == "invalid_restore_destination"@ || code == "restore_destination_invalid"@ || code
            == "restore_destination_network_unsupported"@ || code
            == "restore_destination_unavailable"@ || code == "restore_destination_not_directory"@
            || code == "restore_destination_alias_unsupported"@ || code
            == "restore_destination_protected"@ ==> failure_text(code)
            == "Choose an existing, unprotected folder on a local Windows drive."@,
        code == "restore_destination_create_failed"@ || code
            == "restore_destination_creation_failed"@ ==> failure_text(code)
            == "A new recovery folder could not be created in the selected destination."@,
        code == "restore_destination_security_failed"@ ==> failure_text(code)
            == "Windows could not safely protect or grant access to the recovered files."@,
        code == "restore_unsupported_node"@ ==> failure_text(code)
            == "The selected folder contains a symbolic link, device, or another unsupported item."@,
        code == "restore_subtree_limit_exceeded"@ || code == "restore_directory_limit_exceeded"@
            ==> failure_text(code)
            == "The selected recovery folder exceeds the safe repository-listing limit."@,
        code == "restore_authorization_limit_exceeded"@ ==> failure_text(code)
            == "The recovery browser reached its safe memory limit. Refresh the backup listing and try again."@,
        code == "restic_termination_failed"@ ==> failure_text(code)
            == "Windows could not safely stop the recovery process; its files remain protected."@,
{
    reveal_strlit("restore_cancelled");
    reveal_strlit("restore_timed_out");
    reveal_strlit("executor_start_failed");
    reveal_strlit("restore_verification_failed");
    reveal_strlit("invalid_restore_snapshot");
    reveal_strlit("restore_snapshot_invalid");
    reveal_strlit("invalid_restore_path");
    reveal_strlit("restore_path_invalid");
    reveal_strlit("invalid_restore_destination");
    reveal_strlit("restore_destination_invalid");
    reveal_strlit("restore_destination_network_unsupported");
    reveal_strlit("restore_destination_unavailable");
    reveal_strlit("restore_destination_not_directory");
    reveal_strlit("restore_destination_alias_unsupported");
    reveal_strlit("restore_destination_protected");
    reveal_strlit("restore_destination_create_failed");
    reveal_strlit("restore_destination_creation_failed");
    reveal_strlit("restore_destination_security_failed");
    reveal_strlit("restore_unsupported_node");
    reveal_strlit("restore_subtree_limit_exceeded");
    reveal_strlit("restore_directory_limit_exceeded");
    reveal_strlit("restore_authorization_limit_exceeded");
    reveal_strlit("restic_termination_failed");
    // The lengths tell the codes apart, and where they agree a letter does.
    assert("restore_cancelled"@.len() == 17 && "restore_cancelled"@[8] == 'c');
    assert("restore_timed_out"@.len() == 17 && "restore_timed_out"@[8] == 't');
    assert("executor_start_failed"@[0] == 'e');
    assert("invalid_restore_snapshot"@[0] == 'i' && "invalid_restore_path"@[0] == 'i'
        && "invalid_restore_destination"@[0] == 'i');
    assert("invalid_restore_snapshot"@.len() == 24 && "invalid_restore_path"@.len() == 20
        && "invalid_restore_destination"@.len() == 27);
    assert("restic_termination_failed"@[4] == 'i');
    assert("restore_snapshot_invalid"@.len() == 24 && "restore_unsupported_node"@.len() == 24
        && "restore_snapshot_invalid"@[8] == 's' && "restore_unsupported_node"@[8] == 'u');
    assert("restore_path_invalid"@.len() == 20);
    assert("restore_verification_failed"@.len() == 27 && "restore_destination_invalid"@.len() == 27
        && "restore_verification_failed"@[8] == 'v' && "restore_destination_invalid"@[8] == 'd');
    assert("restore_destination_protected"@.len() == 29);
    assert("restore_destination_unavailable"@.len() == 31);
    assert("restore_subtree_limit_exceeded"@.len() == 30);
    assert("restore_directory_limit_exceeded"@.len() == 32);
    assert("restore_destination_not_directory"@.len() == 33);
    assert("restore_destination_create_failed"@.len() == 33
        && "restore_destination_create_failed"@[20] == 'c'
        && "restore_destination_not_directory"@[20] == 'n');
    assert("restore_destination_creation_failed"@.len() == 35
        && "restore_destination_security_failed"@.len() == 35
        && "restore_destination_creation_failed"@[20] == 'c'
        && "restore_destination_security_failed"@[20] == 's');
    assert("restore_authorization_limit_exceeded"@.len() == 36);
    assert("restore_destination_alias_unsupported"@.len() == 37);
    assert("restore_destination_network_unsupported"@.len() == 39);
}

/// The end of a listing that is gone leaves the repository free and nothing else.
pub proof fn how_a_lost_listing_ends(
    after: RuntimeState,
    before: RuntimeState,
    query_id: u64,
    outcome: RestoreQueryOutcome,
    refused: Seq<Seq<char>>,
)
    requires
        listing_ended(after, before, query_id, outcome, refused),
    ensures
        !after.restore_operation_active,
        after.active_restore_query is None,
        after.restore_query_snapshot_ids == before.restore_query_snapshot_ids,
        !before.restore_queries@.contains_key(query_id) ==> after.restore_queries
            == before.restore_queries && after.authorized_restore_nodes
            == before.authorized_restore_nodes,
        forall|other: u64|
            other != query_id ==> #[trigger] after.restore_queries@.contains_key(other)
                == before.restore_queries@.contains_key(other),
{
}

/// The items of a page that are shown fit, and one more would not.
pub proof fn as_much_is_shown_as_fits<F: Fn(&RestoreQueryView) -> Option<usize>>(
    payload: crate::protocol::ResponsePayload,
    encode: F,
    page: RestoreQueryView,
    count: int,
    limit: int,
)
    requires
        crate::runtime::restore::answers_page(payload, encode, page, count, limit),
    ensures
        0 <= count,
        count <= available_in(page),
        payload is RestoreQuery ==> available_in(payload->RestoreQuery_result) == count && exists|
            length: usize,
        |
            length <= limit && #[trigger] call_ensures(
                encode,
                (&payload->RestoreQuery_result,),
                Some(length),
            ),
        count < available_in(page) ==> exists|shorter: RestoreQueryView, length: usize|
            {
                &&& #[trigger] starts_page(shorter, page, count + 1)
                &&& #[trigger] call_ensures(encode, (&shorter,), Some(length))
                &&& length > limit
            },
        !(payload is RestoreQuery) ==> payload.rejects(Rejection::RestoreQueryEncodingFailed)
            || payload.rejects(Rejection::RestoreQueryItemTooLarge) && count == 0,
{
    if payload is RestoreQuery {
        a_shorter_page_is_a_start(payload->RestoreQuery_result, page, count);
    }
    if count < available_in(page) {
        let more = count + 1;
        assert(crate::runtime::restore::is_too_large(encode, page, more, limit));
        let length = choose|length: usize| #[trigger]
            crate::runtime::restore::encodes_to(encode, page, more, Some(length)) && length > limit;
        let shorter = choose|shorter: RestoreQueryView| #[trigger]
            starts_page(shorter, page, more) && call_ensures(encode, (&shorter,), Some(length));
        assert(starts_page(shorter, page, count + 1));
        assert(call_ensures(encode, (&shorter,), Some(length)));
    }
}

} // verus!
