//! How Windows paths are read and put together.
use crate::paths::{
    below, beside, body_parts, body_start, component_end, drive_at, followed, has_root,
    is_absolute_path, is_same_path, is_separator, names_a_file, ordinary, parent_of, parts_from,
    prefix_is_verbatim, prefix_len, prefix_of, real_end, same_prefix, spelled, starts_rooted,
    stem_end, tail_of, upper_drive, with_extension_of, PathPrefix,
};
use crate::text;
use vstd::prelude::*;

verus! {

/// A path starts from a drive where a letter and a colon come first; the case of
/// the letter does not matter.
pub proof fn a_letter_and_a_colon_are_a_drive(path: Seq<char>)
    requires
        path.len() >= 2,
        'a' <= path[0] <= 'z' || 'A' <= path[0] <= 'Z',
        path[1] == ':',
    ensures
        prefix_of(path) is Disk,
        'A' <= prefix_of(path)->Disk_drive <= 'Z',
        path[0] as u32 == prefix_of(path)->Disk_drive as u32 || path[0] as u32
            == prefix_of(path)->Disk_drive as u32 + 32,
        prefix_len(prefix_of(path)) == 2,
        is_absolute_path(path) <==> path.len() > 2 && (path[2] == '\\' || path[2] == '/'),
{
}

/// A path starts from a share where two separators, a server and a share come
/// first, and neither of them is empty.
pub proof fn two_separators_are_a_share(path: Seq<char>)
    requires
        path.len() >= 2,
        path[0] == '\\' || path[0] == '/',
        path[1] == '\\' || path[1] == '/',
        path.len() <= usize::MAX,
    ensures
        prefix_of(path) is Disk == false,
        prefix_of(path) is DeviceNamespace <==> path.len() >= 4 && path[2] == '.' && (path[3]
            == '\\' || path[3] == '/'),
        prefix_is_verbatim(prefix_of(path)) <==> path.len() >= 4 && path[0] == '\\' && path[1]
            == '\\' && path[2] == '?' && path[3] == '\\',
        prefix_of(path) is VerbatimDisk <==> prefix_is_verbatim(prefix_of(path)) && path.len() >= 6
            && text::is_ascii_alphabetic(path[4]) && path[5] == ':' && (path.len() == 6 || path[6]
            == '\\' || path[6] == '/'),
        prefix_of(path) is VerbatimUnc <==> prefix_is_verbatim(prefix_of(path)) && path.len() >= 8
            && path[4] == 'U' && path[5] == 'N' && path[6] == 'C' && (path[7] == '\\' || path[7]
            == '/'),
        prefix_of(path) is VerbatimDisk || prefix_of(path) is VerbatimUnc || prefix_of(path)
            is Verbatim || prefix_of(path) is Unc || prefix_of(path) is DeviceNamespace
            ==> is_absolute_path(path),
{
}

/// A path that starts with neither a drive nor two separators starts from
/// nowhere, and is never absolute.
pub proof fn other_paths_start_nowhere(path: Seq<char>)
    requires
        !drive_at(path, 0),
        path.len() < 2 || !is_separator(path[0], false) || !is_separator(path[1], false),
    ensures
        prefix_of(path) is Bare,
        prefix_len(prefix_of(path)) == 0,
        !is_absolute_path(path),
        has_root(path) <==> path.len() > 0 && (path[0] == '\\' || path[0] == '/'),
{
}

/// Both slashes separate, but in a verbatim path only the backslash does.
pub proof fn what_separates(character: char)
    ensures
        is_separator(character, false) <==> character == '\\' || character == '/',
        is_separator(character, true) <==> character == '\\',
{
}

/// A letter of a drive is raised, and no other sign is changed.
pub proof fn a_drive_is_a_capital(letter: char)
    ensures
        'a' <= letter <= 'z' ==> upper_drive(letter) as u32 + 32 == letter as u32,
        !('a' <= letter <= 'z') ==> upper_drive(letter) == letter,
        upper_drive(upper_drive(letter)) == upper_drive(letter),
{
}

/// A plain name is put below a folder behind one backslash, and behind none
/// where there is a separator already.
pub proof fn a_name_is_put_below(base: Seq<char>, name: Seq<char>)
    requires
        base.len() > 0,
        !prefix_is_verbatim(prefix_of(base)),
        name.len() > 0,
        !is_separator(name[0], false),
        !drive_at(name, 0),
    ensures
        is_separator(base.last(), false) ==> below(base, name) == base + name,
        !is_separator(base.last(), false) && !(base.len() == 2 && prefix_of(base) is Disk) ==> below(
            base,
            name,
        ) == base + seq!['\\'] + name,
        base.len() == 2 && prefix_of(base) is Disk ==> below(base, name) == base + name,
        below(Seq::empty(), name) == name,
{
    assert(base.push('\\') + name =~= base + seq!['\\'] + name);
    assert(Seq::<char>::empty() + name =~= name);
}

/// A path with a start of its own is not put below anything, and one from the
/// root keeps no more than where it starts.
pub proof fn a_path_of_its_own_stands_alone(base: Seq<char>, part: Seq<char>)
    ensures
        !(prefix_of(part) is Bare) ==> below(base, part) == part,
        prefix_of(part) is Bare && part.len() > 0 && is_separator(part[0], false)
            && !prefix_is_verbatim(prefix_of(base)) ==> below(base, part) == base.take(
            prefix_len(prefix_of(base)),
        ) + part,
        starts_rooted(part) <==> part.len() > 0 && (part[0] == '\\' || part[0] == '/'),
{
}

/// A dot stays, two dots go back from a name, and a name goes on.
pub proof fn where_a_component_leads(parts: Seq<Seq<char>>, step: Seq<char>)
    ensures
        step == seq!['.'] ==> followed(parts, step) == parts,
        step == seq!['.', '.'] && parts.len() == 0 ==> followed(parts, step) == parts,
        step == seq!['.', '.'] && parts.len() > 0 && parts.last() != seq!['.'] && parts.last()
            != seq!['.', '.'] ==> followed(parts, step) == parts.drop_last(),
        step != seq!['.'] && step != seq!['.', '.'] ==> followed(parts, step) == parts.push(step),
        spelled(step, Seq::empty()) == step,
        forall|prefix: Seq<char>|
            #![trigger spelled(prefix, parts)]
            spelled(prefix, parts.push(step)) == spelled(prefix, parts).push('\\') + step,
{
    assert(parts.push(step).drop_last() =~= parts);
    assert(seq!['.'][0] == '.');
    if step == seq!['.'] {
        assert(step.len() == 1);
    }
    if step == seq!['.', '.'] {
        assert(step.len() == 2);
    }
}

/// A file beside another one stands in the same folder, and a file beside what
/// is no file stands below it.
pub proof fn a_file_beside_another(path: Seq<char>, name: Seq<char>)
    ensures
        names_a_file(path, tail_of(path)) && parent_of(path) is Some ==> beside(path, name) == below(
            parent_of(path)->0,
            name,
        ),
        !names_a_file(path, tail_of(path)) ==> beside(path, name) == below(path, name)
            && with_extension_of(path, name) == path,
{
}

/// A path is its own, and whether two are one does not depend on which comes
/// first.
pub proof fn sameness_has_no_order(left: Seq<char>, right: Seq<char>)
    ensures
        is_same_path(left, left),
        is_same_path(left, right) ==> is_same_path(right, left),
        is_same_path(left, right) ==> body_parts(left) == body_parts(right) && same_prefix(
            left,
            right,
        ),
        prefix_of(left) is Disk && prefix_of(right) is Disk && same_prefix(left, right)
            ==> prefix_of(left)->Disk_drive == prefix_of(right)->Disk_drive,
        prefix_of(left) is Disk != prefix_of(right) is Disk ==> !same_prefix(left, right),
{
}

/// The ordinary spelling is for verbatim drives and shares; every other path is
/// ordinary already.
pub proof fn what_has_an_ordinary_spelling(path: Seq<char>)
    ensures
        !(prefix_of(path) is VerbatimDisk) && !(prefix_of(path) is VerbatimUnc) ==> ordinary(path)
            == path,
{
}

/// A component ends at the next separator.
pub proof fn where_a_component_ends(path: Seq<char>, from: int, verbatim: bool, i: int)
    requires
        0 <= from <= path.len(),
    ensures
        from <= component_end(path, from, verbatim) <= path.len(),
        from <= i < component_end(path, from, verbatim) ==> !is_separator(path[i], verbatim),
        component_end(path, from, verbatim) < path.len() ==> is_separator(
            path[component_end(path, from, verbatim)],
            verbatim,
        ),
    decreases path.len() - from,
{
    if from < path.len() && !is_separator(path[from], verbatim) {
        where_a_component_ends(path, from + 1, verbatim, i);
    }
}

/// An extension starts at the last dot of a name, but not at its first sign.
pub proof fn where_an_extension_starts(path: Seq<char>, start: int, end: int, at: int)
    requires
        0 <= start <= at < end <= path.len(),
    ensures
        ({
            let stem = stem_end(path, start, end, at);
            &&& stem == end || start < stem <= at && path[stem] == '.'
            &&& stem == end ==> forall|i: int| start < i <= at ==> #[trigger] path[i] != '.'
            &&& stem < end ==> forall|i: int| stem < i <= at ==> #[trigger] path[i] != '.'
        }),
    decreases at - start,
{
    if at > start && path[at] != '.' {
        where_an_extension_starts(path, start, end, at - 1);
    }
}

/// A name below a verbatim path is followed, and the path spelled out anew.
pub proof fn a_name_below_a_verbatim_path(base: Seq<char>, name: Seq<char>)
    requires
        prefix_is_verbatim(prefix_of(base)),
        name.len() > 0,
        prefix_of(name) is Bare,
        forall|i: int| 0 <= i < name.len() ==> !is_separator(#[trigger] name[i], false),
        name != seq!['.'],
        name != seq!['.', '.'],
    ensures
        below(base, name) == spelled(base.take(prefix_len(prefix_of(base))), body_parts(base)).push(
            '\\',
        ) + name,
{
    let parts = body_parts(base);
    where_a_component_ends(name, 0, false, 0);
    assert(component_end(name, 0, false) == name.len()) by {
        if component_end(name, 0, false) < name.len() {
            assert(is_separator(name[component_end(name, 0, false)], false));
        }
    }
    assert(name.subrange(0, name.len() as int) =~= name);
    let steps = parts_from(name, 0, false, false);
    assert(parts_from(name, name.len() as int + 1, false, false) =~= Seq::<Seq<char>>::empty());
    assert(steps =~= seq![name]);
    assert(!starts_rooted(name));
    assert(steps.drop_first() =~= Seq::<Seq<char>>::empty());
    assert(crate::paths::all_followed(parts.push(name), Seq::<Seq<char>>::empty()) == parts.push(
        name,
    ));
    assert(followed(parts, steps[0]) == parts.push(name));
    assert(crate::paths::all_followed(parts, steps) == parts.push(name));
    assert(parts.push(name).drop_last() =~= parts);
    assert(parts.push(name).last() == name);
}

/// A path stands in a folder where it has a last component, which a dot behind a
/// drive is not; what is in front of that component is the folder.
pub proof fn when_a_path_stands_in_a_folder(path: Seq<char>)
    ensures
        ({
            let tail = tail_of(path);
            &&& parent_of(path) is Some <==> tail.end > tail.body
                && !crate::paths::is_drive_dot(path, tail)
            &&& parent_of(path) is Some ==> parent_of(path)->0 == path.take(tail.parent_end)
            &&& names_a_file(path, tail) ==> tail.end > tail.body
            &&& crate::paths::is_drive_dot(path, tail) ==> prefix_of(path) is Disk && !has_root(path)
        }),
{
}

/// A root is a part of a path where it is spelled, or where what it starts from
/// implies one and is not verbatim.
pub proof fn when_a_root_is_named(path: Seq<char>)
    ensures
        body_start(path) > prefix_len(prefix_of(path)) ==> crate::paths::root_is_named(path),
        prefix_of(path) is Unc || prefix_of(path) is DeviceNamespace ==> crate::paths::root_is_named(
            path,
        ),
        prefix_is_verbatim(prefix_of(path)) && body_start(path) <= prefix_len(prefix_of(path))
            ==> !crate::paths::root_is_named(path),
        (prefix_of(path) is Bare || prefix_of(path) is Disk) && body_start(path) <= prefix_len(
            prefix_of(path),
        ) ==> !crate::paths::root_is_named(path) && !has_root(path),
        body_start(path) == prefix_len(prefix_of(path)) || body_start(path) == prefix_len(
            prefix_of(path),
        ) + 1,
{
}

/// The end of a path is found behind its last real component.
pub proof fn where_a_path_ends(path: Seq<char>, body: int, end: int, verbatim: bool, keep_dot: bool)
    requires
        0 <= body <= end <= path.len(),
    ensures
        end == body ==> real_end(path, body, end, verbatim, keep_dot) == body,
        end > body && is_separator(path[end - 1], verbatim) && end - 1 > body ==> real_end(
            path,
            body,
            end,
            verbatim,
            keep_dot,
        ) == real_end(path, body, end - 1, verbatim, keep_dot),
{
    if end > body && is_separator(path[end - 1], verbatim) {
        assert(crate::paths::component_start(path, body, end, verbatim) == end);
    }
}

/// The components of a path are those between its separators, without empty ones.
pub proof fn the_components_of_a_path(path: Seq<char>, from: int, verbatim: bool, keep_dot: bool)
    requires
        0 <= from < path.len(),
    ensures
        ({
            let end = component_end(path, from, verbatim);
            let part = path.subrange(from, end);
            let rest = parts_from(path, end + 1, verbatim, verbatim);
            &&& part.len() == 0 ==> parts_from(path, from, verbatim, keep_dot) == rest
            &&& part.len() > 0 && part != seq!['.'] ==> parts_from(path, from, verbatim, keep_dot)
                == seq![part] + rest
            &&& part == seq!['.'] && keep_dot ==> parts_from(path, from, verbatim, keep_dot) == seq![
                part,
            ] + rest
            &&& part == seq!['.'] && !keep_dot ==> parts_from(path, from, verbatim, keep_dot) == rest
        }),
{
    let end = component_end(path, from, verbatim);
    let part = path.subrange(from, end);
    if part == seq!['.'] {
        assert(part.len() == 1);
    }
}

/// A part from the root below a verbatim path starts from where that starts, and
/// a part that leads back to the root ends there.
pub proof fn a_rooted_part_below_a_verbatim_path(base: Seq<char>, part: Seq<char>)
    requires
        prefix_is_verbatim(prefix_of(base)),
        part.len() > 0,
        prefix_of(part) is Bare,
    ensures
        ({
            let prefix = base.take(prefix_len(prefix_of(base)));
            let rooted = part[0] == '\\' || part[0] == '/';
            let reached = crate::paths::all_followed(
                if rooted {
                    Seq::empty()
                } else {
                    body_parts(base)
                },
                parts_from(
                    part,
                    if rooted {
                        1
                    } else {
                        0
                    },
                    false,
                    false,
                ),
            );
            &&& reached.len() > 0 ==> below(base, part) == spelled(prefix, reached)
            &&& reached.len() == 0 && rooted ==> below(base, part) == prefix.push('\\')
            &&& reached.len() == 0 && !rooted && body_start(base) > prefix.len() ==> below(
                base,
                part,
            ) == prefix.push('\\')
            &&& reached.len() == 0 && !rooted && body_start(base) <= prefix.len() ==> below(
                base,
                part,
            ) == prefix
        }),
{
}

/// The ordinary spelling of a path puts its components one below the other, and
/// leaves out those that say nothing.
pub proof fn the_ordinary_spelling_takes_components(path: Seq<char>, from: int, base: Seq<char>)
    requires
        0 <= from <= path.len(),
    ensures
        ({
            let end = component_end(path, from, true);
            let part = path.subrange(from, end);
            let spelling = crate::paths::plain_components(path, from, base);
            &&& from == path.len() ==> spelling == base
            &&& from < path.len() && (part.len() == 0 || part == seq!['.']) ==> spelling
                == crate::paths::plain_components(path, end + 1, base)
            &&& from < path.len() && part.len() > 0 && part != seq!['.'] ==> spelling
                == crate::paths::plain_components(path, end + 1, below(base, part))
        }),
{
}

/// A verbatim drive is spelled with its letter, and a verbatim share with its
/// server and its name.
pub proof fn what_an_ordinary_spelling_starts_with(path: Seq<char>)
    ensures
        prefix_of(path) is VerbatimDisk ==> ordinary(path) == crate::paths::plain_components(
            path,
            body_start(path),
            seq![prefix_of(path)->VerbatimDisk_drive, ':', '\\'],
        ),
        prefix_of(path) matches PathPrefix::VerbatimUnc { server_end, end } ==> (end > server_end
            ==> ordinary(path) == crate::paths::plain_components(
            path,
            body_start(path),
            below(
                below(seq!['\\', '\\'], path.subrange(8, server_end as int)),
                path.subrange(server_end + 1, end as int),
            ),
        )),
{
}

/// A component starts behind the separator before it.
pub proof fn where_a_component_starts(path: Seq<char>, body: int, end: int, verbatim: bool, i: int)
    requires
        0 <= body <= end <= path.len(),
    ensures
        ({
            let start = crate::paths::component_start(path, body, end, verbatim);
            &&& body <= start <= end
            &&& start <= i < end ==> !is_separator(path[i], verbatim)
            &&& start > body ==> is_separator(path[start - 1], verbatim)
        }),
    decreases end - body,
{
    if end > body && !is_separator(path[end - 1], verbatim) {
        where_a_component_starts(path, body, end - 1, verbatim, i);
    }
}

/// A component is left out where it is empty or a dot that says nothing, and the
/// path ends where one is kept.
pub proof fn what_is_left_out_at_the_end(
    path: Seq<char>,
    body: int,
    end: int,
    verbatim: bool,
    keep_dot: bool,
)
    requires
        0 <= body < end <= path.len(),
    ensures
        ({
            let start = crate::paths::component_start(path, body, end, verbatim);
            let kept = real_end(path, body, end, verbatim, keep_dot);
            &&& verbatim && start < end ==> kept == end
            &&& !verbatim && start < end && !(end == start + 1 && path[start] == '.') ==> kept == end
            &&& !verbatim && end == start + 1 && path[start] == '.' && keep_dot && start == body
                ==> kept == end
            &&& !verbatim && end == start + 1 && path[start] == '.' && !(keep_dot && start == body)
                && start > body ==> kept == real_end(path, body, start - 1, verbatim, keep_dot)
            &&& !verbatim && end == start + 1 && path[start] == '.' && !keep_dot && start == body
                ==> kept == body
        }),
{
    where_a_component_starts(path, body, end, verbatim, body);
}

/// A share reaches to the end of its second name, a device and a verbatim object
/// to the end of their first.
pub proof fn how_far_a_prefix_reaches(path: Seq<char>)
    requires
        path.len() <= usize::MAX,
    ensures
        prefix_of(path) is Unc ==> {
            let server_end = component_end(path, 2, false);
            let end = component_end(path, server_end + 1, false);
            prefix_len(prefix_of(path)) == end && 2 < server_end && server_end + 1 < end
        },
        prefix_of(path) is DeviceNamespace ==> prefix_len(prefix_of(path)) == component_end(
            path,
            4,
            false,
        ),
        prefix_of(path) is Verbatim ==> prefix_len(prefix_of(path)) == component_end(path, 4, true),
        prefix_of(path) is VerbatimDisk ==> prefix_len(prefix_of(path)) == 6,
        prefix_of(path) matches PathPrefix::VerbatimUnc { server_end, end } ==> server_end
            == component_end(path, 8, true) && end >= server_end,
{
    if path.len() >= 2 {
        where_a_component_ends(path, 2, false, 0);
        let server_end = component_end(path, 2, false);
        if server_end < path.len() {
            where_a_component_ends(path, server_end + 1, false, 0);
        }
    }
    if path.len() >= 4 {
        where_a_component_ends(path, 4, false, 0);
        where_a_component_ends(path, 4, true, 0);
    }
    if path.len() >= 8 {
        where_a_component_ends(path, 8, true, 0);
        let server_end = component_end(path, 8, true);
        if server_end < path.len() {
            where_a_component_ends(path, server_end + 1, true, 0);
        }
    }
}

/// A dot in front counts only of a path that starts from nowhere, and in a
/// verbatim one.
pub proof fn when_a_dot_in_front_counts(path: Seq<char>)
    ensures
        ({
            let from = body_start(path);
            let verbatim = prefix_is_verbatim(prefix_of(path));
            &&& verbatim ==> body_parts(path) == parts_from(path, from, true, true)
            &&& prefix_of(path) is Bare && !has_root(path) ==> body_parts(path) == parts_from(
                path,
                from,
                false,
                true,
            )
            &&& !verbatim && (has_root(path) || prefix_of(path) is Disk) ==> body_parts(path)
                == parts_from(path, from, false, false)
        }),
{
}

/// What two paths start from is one where it is named the same.
pub proof fn when_two_paths_start_alike(left: Seq<char>, right: Seq<char>)
    ensures
        prefix_of(left) is Bare && prefix_of(right) is Bare ==> same_prefix(left, right),
        prefix_of(left) is Unc && prefix_of(right) is Unc ==> (same_prefix(left, right)
            <==> crate::paths::prefix_names(left) == crate::paths::prefix_names(right)),
        prefix_of(left) is VerbatimDisk && prefix_of(right) is VerbatimDisk ==> (same_prefix(
            left,
            right,
        ) <==> prefix_of(left)->VerbatimDisk_drive == prefix_of(right)->VerbatimDisk_drive),
        prefix_of(left) is Unc && prefix_of(right) is VerbatimUnc ==> !same_prefix(left, right),
        prefix_of(left) is VerbatimDisk && prefix_of(right) is Disk ==> !same_prefix(left, right),
{
}

/// A file gets another extension behind its stem.
pub proof fn a_file_gets_another_extension(path: Seq<char>, extension: Seq<char>)
    ensures
        ({
            let tail = tail_of(path);
            names_a_file(path, tail) ==> with_extension_of(path, extension) == path.take(
                stem_end(path, tail.start, tail.end, tail.end - 1),
            ) + seq!['.'] + extension
        }),
{
    let tail = tail_of(path);
    let stem = path.take(stem_end(path, tail.start, tail.end, tail.end - 1));
    assert(stem.push('.') + extension =~= stem + seq!['.'] + extension);
}

} // verus!
