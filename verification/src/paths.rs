//! Windows paths as text: prefixes, components and the handful of operations
//! that the service needs on them.
use crate::text;
use vstd::prelude::*;

verus! {

/// Whether a character separates components. A verbatim path has one separator only.
pub open spec fn is_separator(character: char, verbatim: bool) -> bool {
    character == '\\' || (!verbatim && character == '/')
}

fn separator(character: char, verbatim: bool) -> (yes: bool)
    ensures
        yes == is_separator(character, verbatim),
{
    character == '\\' || (!verbatim && character == '/')
}

/// Where the component that starts at `from` ends.
pub open spec fn component_end(path: Seq<char>, from: int, verbatim: bool) -> int
    decreases path.len() - from,
{
    if from < 0 || from >= path.len() {
        path.len() as int
    } else if is_separator(path[from], verbatim) {
        from
    } else {
        component_end(path, from + 1, verbatim)
    }
}

proof fn lemma_component_end(path: Seq<char>, from: int, verbatim: bool)
    requires
        0 <= from <= path.len(),
    ensures
        from <= component_end(path, from, verbatim) <= path.len(),
        forall|i: int|
            from <= i < component_end(path, from, verbatim) ==> !is_separator(
                #[trigger] path[i],
                verbatim,
            ),
    decreases path.len() - from,
{
    if from < path.len() && !is_separator(path[from], verbatim) {
        lemma_component_end(path, from + 1, verbatim);
    }
}

fn find_component_end(chars: &Vec<char>, from: usize, verbatim: bool) -> (end: usize)
    requires
        from <= chars@.len(),
    ensures
        end == component_end(chars@, from as int, verbatim),
        from <= end <= chars@.len(),
{
    let mut end: usize = from;
    while end < chars.len() && !separator(chars[end], verbatim)
        invariant
            from <= end <= chars@.len(),
            component_end(chars@, from as int, verbatim) == component_end(
                chars@,
                end as int,
                verbatim,
            ),
        decreases chars@.len() - end,
    {
        end = end + 1;
    }
    end
}

/// What a path starts from.
#[derive(Debug, Clone, Copy, PartialEq, Eq, Structural)]
pub enum PathPrefix {
    /// A path that starts with no prefix.
    Bare,
    /// `C:`
    Disk { drive: char },
    /// `\\server\share`, which ends at `end`.
    Unc { end: usize },
    /// `\\.\device`, which ends at `end`.
    DeviceNamespace { end: usize },
    /// `\\?\name`, which ends at `end`.
    Verbatim { end: usize },
    /// `\\?\C:`
    VerbatimDisk { drive: char },
    /// `\\?\UNC\server\share`, with the server up to `server_end` and the share up to `end`.
    VerbatimUnc { server_end: usize, end: usize },
}

pub open spec fn upper_drive(letter: char) -> char {
    if 'a' <= letter <= 'z' {
        ((letter as u32) - 32) as char
    } else {
        letter
    }
}

fn to_upper_drive(letter: char) -> (upper: char)
    ensures
        upper == upper_drive(letter),
{
    if 'a' <= letter && letter <= 'z' {
        ((letter as u8) - 32) as char
    } else {
        letter
    }
}

/// Whether a drive letter and a colon stand at `at`.
pub open spec fn drive_at(path: Seq<char>, at: int) -> bool {
    &&& 0 <= at
    &&& at + 1 < path.len()
    &&& text::is_ascii_alphabetic(path[at])
    &&& path[at + 1] == ':'
}

/// Whether the path starts with two separators, of either kind.
pub open spec fn two_separators(path: Seq<char>) -> bool {
    path.len() >= 2 && is_separator(path[0], false) && is_separator(path[1], false)
}

/// Whether the path starts with `\\?\`, written with backslashes.
pub open spec fn is_verbatim(path: Seq<char>) -> bool {
    &&& path.len() >= 4
    &&& path[0] == '\\'
    &&& path[1] == '\\'
    &&& path[2] == '?'
    &&& path[3] == '\\'
}

/// Whether `UNC` and a separator, of either kind, follow a verbatim prefix.
pub open spec fn is_verbatim_unc(path: Seq<char>) -> bool {
    &&& path.len() >= 8
    &&& path[4] == 'U'
    &&& path[5] == 'N'
    &&& path[6] == 'C'
    &&& is_separator(path[7], false)
}

/// The end of the second of two components, the first of which ends at `first_end`.
pub open spec fn second_end(path: Seq<char>, first_end: int, verbatim: bool) -> int {
    if first_end >= path.len() {
        path.len() as int
    } else {
        let end = component_end(path, first_end + 1, verbatim);
        if end == first_end + 1 {
            first_end
        } else {
            end
        }
    }
}

/// The prefix of a path.
pub open spec fn prefix_of(path: Seq<char>) -> PathPrefix {
    if two_separators(path) {
        if is_verbatim(path) {
            if is_verbatim_unc(path) {
                let server_end = component_end(path, 8, true);
                PathPrefix::VerbatimUnc {
                    server_end: server_end as usize,
                    end: second_end(path, server_end, true) as usize,
                }
            } else if drive_at(path, 4) && (path.len() == 6 || is_separator(path[6], false)) {
                PathPrefix::VerbatimDisk { drive: upper_drive(path[4]) }
            } else {
                PathPrefix::Verbatim { end: component_end(path, 4, true) as usize }
            }
        } else if path.len() >= 4 && path[2] == '.' && is_separator(path[3], false) {
            PathPrefix::DeviceNamespace { end: component_end(path, 4, false) as usize }
        } else {
            let server_end = component_end(path, 2, false);
            let end = second_end(path, server_end, false);
            if 2 < server_end < end {
                PathPrefix::Unc { end: end as usize }
            } else {
                PathPrefix::Bare
            }
        }
    } else if drive_at(path, 0) {
        PathPrefix::Disk { drive: upper_drive(path[0]) }
    } else {
        PathPrefix::Bare
    }
}

/// How many characters of the path are its prefix.
pub open spec fn prefix_len(prefix: PathPrefix) -> int {
    match prefix {
        PathPrefix::Bare => 0,
        PathPrefix::Disk { .. } => 2,
        PathPrefix::Unc { end } => end as int,
        PathPrefix::DeviceNamespace { end } => end as int,
        PathPrefix::Verbatim { end } => end as int,
        PathPrefix::VerbatimDisk { .. } => 6,
        PathPrefix::VerbatimUnc { end, .. } => end as int,
    }
}

proof fn lemma_second_end(path: Seq<char>, first_end: int, verbatim: bool)
    requires
        0 <= first_end <= path.len(),
    ensures
        first_end <= second_end(path, first_end, verbatim) <= path.len(),
{
    if first_end < path.len() {
        lemma_component_end(path, first_end + 1, verbatim);
    }
}

proof fn lemma_prefix_len(path: Seq<char>)
    ensures
        0 <= prefix_len(prefix_of(path)) <= path.len(),
{
    if path.len() >= 8 {
        lemma_component_end(path, 8, true);
        lemma_second_end(path, component_end(path, 8, true), true);
    }
    if path.len() >= 4 {
        lemma_component_end(path, 4, true);
        lemma_component_end(path, 4, false);
    }
    if path.len() >= 2 {
        lemma_component_end(path, 2, false);
        lemma_second_end(path, component_end(path, 2, false), false);
    }
}

fn find_second_end(chars: &Vec<char>, first_end: usize, verbatim: bool) -> (end: usize)
    requires
        first_end <= chars@.len(),
    ensures
        end == second_end(chars@, first_end as int, verbatim),
        first_end <= end <= chars@.len(),
{
    if first_end >= chars.len() {
        return chars.len();
    }
    let end = find_component_end(chars, first_end + 1, verbatim);
    if end == first_end + 1 {
        first_end
    } else {
        end
    }
}

fn starts_verbatim(chars: &Vec<char>) -> (yes: bool)
    ensures
        yes == is_verbatim(chars@),
{
    chars.len() >= 4 && chars[0] == '\\' && chars[1] == '\\' && chars[2] == '?' && chars[3]
        == '\\'
}

fn has_drive_at(chars: &Vec<char>, at: usize) -> (yes: bool)
    requires
        at <= chars@.len(),
    ensures
        yes == drive_at(chars@, at as int),
{
    chars.len() - at >= 2 && text::ascii_alphabetic(chars[at]) && chars[at + 1] == ':'
}

fn parse_prefix(chars: &Vec<char>) -> (prefix: PathPrefix)
    ensures
        prefix == prefix_of(chars@),
        0 <= prefix_len(prefix) <= chars@.len(),
{
    let length: usize = chars.len();
    proof {
        assert(chars@.len() == length);
        lemma_prefix_len(chars@);
    }
    if chars.len() >= 2 && separator(chars[0], false) && separator(chars[1], false) {
        if starts_verbatim(chars) {
            if chars.len() >= 8 && chars[4] == 'U' && chars[5] == 'N' && chars[6] == 'C'
                && separator(chars[7], false) {
                let server_end = find_component_end(chars, 8, true);
                let end = find_second_end(chars, server_end, true);
                PathPrefix::VerbatimUnc { server_end, end }
            } else if has_drive_at(chars, 4) && (chars.len() == 6 || separator(chars[6], false)) {
                PathPrefix::VerbatimDisk { drive: to_upper_drive(chars[4]) }
            } else {
                PathPrefix::Verbatim { end: find_component_end(chars, 4, true) }
            }
        } else if chars.len() >= 4 && chars[2] == '.' && separator(chars[3], false) {
            PathPrefix::DeviceNamespace { end: find_component_end(chars, 4, false) }
        } else {
            let server_end = find_component_end(chars, 2, false);
            let end = find_second_end(chars, server_end, false);
            if 2 < server_end && server_end < end {
                PathPrefix::Unc { end }
            } else {
                PathPrefix::Bare
            }
        }
    } else if has_drive_at(chars, 0) {
        PathPrefix::Disk { drive: to_upper_drive(chars[0]) }
    } else {
        PathPrefix::Bare
    }
}

fn length_of(prefix: PathPrefix) -> (len: usize)
    requires
        0 <= prefix_len(prefix) <= usize::MAX,
    ensures
        len == prefix_len(prefix),
{
    match prefix {
        PathPrefix::Bare => 0,
        PathPrefix::Disk { .. } => 2,
        PathPrefix::Unc { end } => end,
        PathPrefix::DeviceNamespace { end } => end,
        PathPrefix::Verbatim { end } => end,
        PathPrefix::VerbatimDisk { .. } => 6,
        PathPrefix::VerbatimUnc { end, .. } => end,
    }
}

pub open spec fn prefix_is_verbatim(prefix: PathPrefix) -> bool {
    prefix is Verbatim || prefix is VerbatimDisk || prefix is VerbatimUnc
}

fn verbatim_prefix(prefix: PathPrefix) -> (yes: bool)
    ensures
        yes == prefix_is_verbatim(prefix),
{
    match prefix {
        PathPrefix::Verbatim { .. } | PathPrefix::VerbatimDisk { .. }
        | PathPrefix::VerbatimUnc { .. } => true,
        _ => false,
    }
}

/// Where the components of the path start: behind the prefix and the root,
/// which is a separator of either kind.
pub open spec fn body_start(path: Seq<char>) -> int {
    let prefix = prefix_of(path);
    let end = prefix_len(prefix);
    if end < path.len() && is_separator(path[end], false) {
        end + 1
    } else {
        end
    }
}

/// Whether the path starts at a root: behind a separator, or behind a prefix
/// other than a drive letter.
pub open spec fn has_root(path: Seq<char>) -> bool {
    let prefix = prefix_of(path);
    body_start(path) > prefix_len(prefix) || !(prefix is Bare || prefix is Disk)
}

/// Whether the path names a place without regard to any current directory.
pub open spec fn is_absolute_path(path: Seq<char>) -> bool {
    has_root(path) && !(prefix_of(path) is Bare)
}

pub fn is_absolute(path: &str) -> (absolute: bool)
    ensures
        absolute == is_absolute_path(path@),
{
    let chars = text::characters(path);
    let prefix = parse_prefix(&chars);
    proof {
        lemma_prefix_len(chars@);
    }
    let end = length_of(prefix);
    match prefix {
        PathPrefix::Bare => false,
        PathPrefix::Disk { .. } => end < chars.len() && separator(chars[end], false),
        _ => true,
    }
}

/// Where the component that ends at `end` starts.
pub open spec fn component_start(path: Seq<char>, body: int, end: int, verbatim: bool) -> int
    decreases end - body,
{
    if end > body && !is_separator(path[end - 1], verbatim) {
        component_start(path, body, end - 1, verbatim)
    } else {
        end
    }
}

/// Whether the component is empty, or a dot that stands for nothing. A leading
/// dot of a relative path counts, and so does every dot of a verbatim path.
pub open spec fn is_void(path: Seq<char>, body: int, start: int, end: int, keep_dot: bool) -> bool {
    ||| start == end
    ||| end == start + 1 && path[start] == '.' && !(keep_dot && start == body)
}

/// The end of the path without trailing separators and idle dots.
pub open spec fn real_end(
    path: Seq<char>,
    body: int,
    end: int,
    verbatim: bool,
    keep_dot: bool,
) -> int
    decreases end - body,
    via real_end_decreases
{
    if end <= body {
        body
    } else {
        let start = component_start(path, body, end, verbatim);
        if (verbatim && start == end) || (!verbatim && is_void(path, body, start, end, keep_dot)) {
            if start > body {
                real_end(path, body, start - 1, verbatim, keep_dot)
            } else {
                body
            }
        } else {
            end
        }
    }
}

#[via_fn]
proof fn real_end_decreases(path: Seq<char>, body: int, end: int, verbatim: bool, keep_dot: bool) {
    lemma_component_start(path, body, end, verbatim);
}

proof fn lemma_component_start(path: Seq<char>, body: int, end: int, verbatim: bool)
    ensures
        component_start(path, body, end, verbatim) <= end,
        end >= body ==> component_start(path, body, end, verbatim) >= body,
    decreases end - body,
{
    if end > body && !is_separator(path[end - 1], verbatim) {
        lemma_component_start(path, body, end - 1, verbatim);
    }
}

proof fn lemma_real_end(path: Seq<char>, body: int, end: int, verbatim: bool, keep_dot: bool)
    ensures
        real_end(path, body, end, verbatim, keep_dot) >= body,
        end >= body ==> real_end(path, body, end, verbatim, keep_dot) <= end,
        real_end(path, body, end, verbatim, keep_dot) > body ==> component_start(
            path,
            body,
            real_end(path, body, end, verbatim, keep_dot),
            verbatim,
        ) < real_end(path, body, end, verbatim, keep_dot),
    decreases end - body,
{
    lemma_component_start(path, body, end, verbatim);
    if end > body {
        let start = component_start(path, body, end, verbatim);
        if start > body {
            lemma_real_end(path, body, start - 1, verbatim, keep_dot);
        }
    }
}

/// A path taken apart at its last component.
pub ghost struct Tail {
    /// Where the components start.
    pub body: int,
    /// Where the last component starts.
    pub start: int,
    /// Where the last component ends; the same as `body` where there is none.
    pub end: int,
    /// Where the path without its last component ends.
    pub parent_end: int,
}

pub open spec fn tail_of(path: Seq<char>) -> Tail {
    let verbatim = prefix_is_verbatim(prefix_of(path));
    let body = body_start(path);
    let keep_dot = !has_root(path);
    let end = real_end(path, body, path.len() as int, verbatim, keep_dot);
    let start = component_start(path, body, end, verbatim);
    let parent_end = if start > body {
        real_end(path, body, start - 1, verbatim, keep_dot)
    } else {
        body
    };
    Tail { body, start, end, parent_end }
}

/// Whether the last component names a file, rather than a directory above.
pub open spec fn names_a_file(path: Seq<char>, tail: Tail) -> bool {
    &&& tail.end > tail.body
    &&& path.subrange(tail.start, tail.end) != seq!['.', '.']
    &&& path.subrange(tail.start, tail.end) != seq!['.']
}

/// Whether all that follows a drive is a dot, which names nothing.
pub open spec fn is_drive_dot(path: Seq<char>, tail: Tail) -> bool {
    &&& prefix_of(path) is Disk
    &&& !has_root(path)
    &&& tail.start == tail.body
    &&& path.subrange(tail.start, tail.end) == seq!['.']
}

/// The directory that holds the last component.
pub open spec fn parent_of(path: Seq<char>) -> Option<Seq<char>> {
    let tail = tail_of(path);
    if tail.end > tail.body && !is_drive_dot(path, tail) {
        Some(path.take(tail.parent_end))
    } else {
        None
    }
}

/// `part`, a relative path, behind `base` and a separator.
pub open spec fn appended(base: Seq<char>, part: Seq<char>) -> Seq<char> {
    if base.len() == 0 || is_separator(base.last(), false) || (prefix_of(base) is Disk && base.len()
        == 2) {
        base + part
    } else {
        base.push('\\') + part
    }
}

/// The components once one more was followed: a dot stays, two dots go up from
/// a name, and a name goes down.
pub open spec fn followed(parts: Seq<Seq<char>>, step: Seq<char>) -> Seq<Seq<char>> {
    if step == seq!['.'] {
        parts
    } else if step == seq!['.', '.'] {
        if parts.len() > 0 && parts.last() != seq!['.'] && parts.last() != seq!['.', '.'] {
            parts.drop_last()
        } else {
            parts
        }
    } else {
        parts.push(step)
    }
}

pub open spec fn all_followed(parts: Seq<Seq<char>>, steps: Seq<Seq<char>>) -> Seq<Seq<char>>
    decreases steps.len(),
{
    if steps.len() == 0 {
        parts
    } else {
        all_followed(followed(parts, steps[0]), steps.drop_first())
    }
}

/// `prefix` and the components, each behind a backslash.
pub open spec fn spelled(prefix: Seq<char>, parts: Seq<Seq<char>>) -> Seq<char>
    decreases parts.len(),
{
    if parts.len() == 0 {
        prefix
    } else {
        spelled(prefix, parts.drop_last()).push('\\') + parts.last()
    }
}

/// Whether a path without a prefix starts at a root.
pub open spec fn starts_rooted(part: Seq<char>) -> bool {
    part.len() > 0 && is_separator(part[0], false)
}

/// `part` below the verbatim path `base`. Such a path is spelled out anew, and
/// the dots of `part` are followed.
pub open spec fn resolved_below(base: Seq<char>, part: Seq<char>) -> Seq<char> {
    let prefix = base.take(prefix_len(prefix_of(base)));
    let from = if starts_rooted(part) {
        Seq::empty()
    } else {
        body_parts(base)
    };
    let steps = parts_from(
        part,
        if starts_rooted(part) {
            1
        } else {
            0
        },
        false,
        false,
    );
    let parts = all_followed(from, steps);
    if parts.len() == 0 && (starts_rooted(part) || body_start(base) > prefix.len()) {
        prefix.push('\\')
    } else {
        spelled(prefix, parts)
    }
}

/// `part` below `base`. A part with a prefix stands for itself, and a part that
/// starts at a root keeps the prefix of `base` only.
pub open spec fn below(base: Seq<char>, part: Seq<char>) -> Seq<char> {
    if !(prefix_of(part) is Bare) {
        part
    } else if prefix_is_verbatim(prefix_of(base)) && part.len() > 0 {
        resolved_below(base, part)
    } else if starts_rooted(part) {
        base.take(prefix_len(prefix_of(base))) + part
    } else {
        appended(base, part)
    }
}

proof fn lemma_spelled(prefix: Seq<char>, parts: Seq<Seq<char>>)
    ensures
        spelled(prefix, parts).len() >= prefix.len(),
    decreases parts.len(),
{
    if parts.len() > 0 {
        lemma_spelled(prefix, parts.drop_last());
    }
}

/// What stands below a path is named, where it has a name.
proof fn lemma_below_is_named(base: Seq<char>, part: Seq<char>)
    requires
        part.len() > 0,
        base.len() <= usize::MAX,
    ensures
        below(base, part).len() > 0,
{
    let prefix = base.take(prefix_len(prefix_of(base)));
    lemma_prefix_len(base);
    if prefix_is_verbatim(prefix_of(base)) {
        lemma_component_end(base, 4, true);
        if base.len() >= 8 {
            lemma_component_end(base, 8, true);
            lemma_second_end(base, component_end(base, 8, true), true);
        }
        assert(prefix.len() > 0);
        assert forall|parts: Seq<Seq<char>>| #[trigger] spelled(prefix, parts).len() > 0 by {
            lemma_spelled(prefix, parts);
        }
    }
}

/// `path` with its last component replaced by `name`; a path that names no file
/// gets `name` below it.
pub open spec fn beside(path: Seq<char>, name: Seq<char>) -> Seq<char> {
    let tail = tail_of(path);
    if names_a_file(path, tail) {
        below(path.take(tail.parent_end), name)
    } else {
        below(path, name)
    }
}

/// Where the name of the file ends without its extension. A dot that the name
/// starts with starts no extension.
pub open spec fn stem_end(path: Seq<char>, start: int, end: int, at: int) -> int
    decreases at - start,
{
    if at <= start {
        end
    } else if path[at] == '.' {
        at
    } else {
        stem_end(path, start, end, at - 1)
    }
}

/// `path` with `extension` in place of the extension of its file.
pub open spec fn with_extension_of(path: Seq<char>, extension: Seq<char>) -> Seq<char> {
    let tail = tail_of(path);
    if names_a_file(path, tail) {
        path.take(stem_end(path, tail.start, tail.end, tail.end - 1)).push('.') + extension
    } else {
        path
    }
}

fn find_component_start(chars: &Vec<char>, body: usize, end: usize, verbatim: bool) -> (start: usize)
    requires
        body <= end <= chars@.len(),
    ensures
        start == component_start(chars@, body as int, end as int, verbatim),
        body <= start <= end,
{
    let mut start: usize = end;
    while start > body && !separator(chars[start - 1], verbatim)
        invariant
            body <= start <= end <= chars@.len(),
            component_start(chars@, body as int, end as int, verbatim) == component_start(
                chars@,
                body as int,
                start as int,
                verbatim,
            ),
        decreases start,
    {
        start = start - 1;
    }
    start
}

fn find_real_end(chars: &Vec<char>, body: usize, from: usize, verbatim: bool, keep_dot: bool) -> (end:
    usize)
    requires
        body <= from <= chars@.len(),
    ensures
        end == real_end(chars@, body as int, from as int, verbatim, keep_dot),
        body <= end <= from,
    decreases from,
{
    if from == body {
        return body;
    }
    let start = find_component_start(chars, body, from, verbatim);
    let void = if verbatim {
        start == from
    } else {
        start == from || (from - start == 1 && chars[start] == '.' && !(keep_dot && start == body))
    };
    if void {
        if start > body {
            find_real_end(chars, body, start - 1, verbatim, keep_dot)
        } else {
            body
        }
    } else {
        from
    }
}

struct TailBounds {
    body: usize,
    start: usize,
    end: usize,
    parent_end: usize,
}

fn find_tail(chars: &Vec<char>) -> (tail: TailBounds)
    ensures
        tail_of(chars@) == (Tail {
            body: tail.body as int,
            start: tail.start as int,
            end: tail.end as int,
            parent_end: tail.parent_end as int,
        }),
        tail.body <= tail.parent_end <= tail.start <= tail.end <= chars@.len(),
        tail.end > tail.body ==> tail.start < tail.end,
{
    let prefix = parse_prefix(chars);
    let verbatim = verbatim_prefix(prefix);
    let prefix_end = length_of(prefix);
    let body = if prefix_end < chars.len() && separator(chars[prefix_end], false) {
        prefix_end + 1
    } else {
        prefix_end
    };
    let rooted = body > prefix_end || match prefix {
        PathPrefix::Bare | PathPrefix::Disk { .. } => false,
        _ => true,
    };
    let end = find_real_end(chars, body, chars.len(), verbatim, !rooted);
    let start = find_component_start(chars, body, end, verbatim);
    proof {
        lemma_real_end(chars@, body as int, chars@.len() as int, verbatim, !rooted);
    }
    let parent_end = if start > body {
        find_real_end(chars, body, start - 1, verbatim, !rooted)
    } else {
        body
    };
    TailBounds { body, start, end, parent_end }
}

fn tail_names_a_file(chars: &Vec<char>, tail: &TailBounds) -> (yes: bool)
    requires
        tail.body <= tail.start <= tail.end <= chars@.len(),
    ensures
        yes == names_a_file(
            chars@,
            Tail {
                body: tail.body as int,
                start: tail.start as int,
                end: tail.end as int,
                parent_end: tail.parent_end as int,
            },
        ),
{
    let ghost name = chars@.subrange(tail.start as int, tail.end as int);
    let length: usize = tail.end - tail.start;
    let dot = length == 1 && chars[tail.start] == '.';
    let dots = length == 2 && chars[tail.start] == '.' && chars[tail.start + 1] == '.';
    proof {
        assert(name.len() == length);
        if dot {
            assert(name =~= seq!['.']);
        }
        if dots {
            assert(name =~= seq!['.', '.']);
        }
        if name == seq!['.'] {
            assert(name[0] == '.');
        }
        if name == seq!['.', '.'] {
            assert(name[0] == '.' && name[1] == '.');
        }
    }
    tail.end > tail.body && !dot && !dots
}

/// The directory that holds the last component of `path`.
pub fn parent(path: &str) -> (directory: Option<String>)
    ensures
        crate::config::chars_of(directory) == parent_of(path@),
{
    let chars = text::characters(path);
    let tail = find_tail(&chars);
    let prefix = parse_prefix(&chars);
    let body = find_body(&chars, prefix);
    let drive = match prefix {
        PathPrefix::Disk { .. } => true,
        _ => false,
    };
    let ghost name = chars@.subrange(tail.start as int, tail.end as int);
    let length: usize = tail.end - tail.start;
    let dot = length == 1 && chars[tail.start] == '.';
    proof {
        assert(name.len() == length);
        if dot {
            assert(name =~= seq!['.']);
        }
        if name == seq!['.'] {
            assert(name[0] == '.');
        }
    }
    let drive_dot = drive && !body.1 && tail.start == tail.body && dot;
    proof {
        assert(drive_dot == is_drive_dot(path@, tail_of(path@)));
    }
    if tail.end > tail.body && !drive_dot {
        let directory = text::text_of(&chars, 0, tail.parent_end);
        proof {
            assert(chars@.subrange(0, tail.parent_end as int) == path@.take(tail.parent_end as int));
        }
        Some(directory)
    } else {
        None
    }
}

fn plain_step(step: &String) -> (kind: (bool, bool))
    ensures
        kind.0 == (step@ == seq!['.']),
        kind.1 == (step@ == seq!['.', '.']),
{
    let chars = text::characters(step.as_str());
    let dot = chars.len() == 1 && chars[0] == '.';
    let dots = chars.len() == 2 && chars[0] == '.' && chars[1] == '.';
    proof {
        if dot {
            assert(step@ =~= seq!['.']);
        }
        if dots {
            assert(step@ =~= seq!['.', '.']);
        }
        if step@ == seq!['.'] {
            assert(step@[0] == '.');
        }
        if step@ == seq!['.', '.'] {
            assert(step@[0] == '.' && step@[1] == '.');
        }
    }
    (dot, dots)
}

fn follow(parts: &mut Vec<String>, step: &String)
    ensures
        crate::config::texts_of(final(parts)@) == followed(
            crate::config::texts_of(old(parts)@),
            step@,
        ),
{
    let ghost before = parts@;
    let (dot, dots) = plain_step(step);
    if dot {
        return ;
    }
    if dots {
        if parts.len() > 0 {
            let (last_dot, last_dots) = plain_step(&parts[parts.len() - 1]);
            if !last_dot && !last_dots {
                let _ = parts.pop();
                proof {
                    assert(crate::config::texts_of(parts@) =~= crate::config::texts_of(
                        before,
                    ).drop_last());
                }
            }
        }
        return ;
    }
    parts.push(step.clone());
    proof {
        assert(crate::config::texts_of(parts@) =~= crate::config::texts_of(before).push(step@));
    }
}

fn spell(prefix: String, parts: &Vec<String>) -> (path: String)
    ensures
        path@ == spelled(prefix@, crate::config::texts_of(parts@)),
{
    let ghost start = prefix@;
    let ghost texts = crate::config::texts_of(parts@);
    let mut path = prefix;
    let mut i: usize = 0;
    proof {
        assert(texts.take(0) =~= Seq::<Seq<char>>::empty());
    }
    while i < parts.len()
        invariant
            i <= parts@.len(),
            texts == crate::config::texts_of(parts@),
            path@ == spelled(start, texts.take(i as int)),
        decreases parts@.len() - i,
    {
        path.push('\\');
        path.append(parts[i].as_str());
        proof {
            assert(texts.take(i + 1).drop_last() =~= texts.take(i as int));
            assert(texts.take(i + 1).last() == parts@[i as int]@);
        }
        i = i + 1;
    }
    proof {
        assert(texts.take(parts@.len() as int) =~= texts);
    }
    path
}

fn join_verbatim(base: &Vec<char>, prefix: PathPrefix, part: &Vec<char>) -> (joined: String)
    requires
        prefix == prefix_of(base@),
        prefix_is_verbatim(prefix),
    ensures
        joined@ == resolved_below(base@, part@),
{
    let prefix_end = length_of_prefix(base, prefix);
    let body = find_body(base, prefix);
    let rooted = part.len() > 0 && separator(part[0], false);
    let base_end: usize = base.len();
    let part_end: usize = part.len();
    proof {
        assert(base@.take(base_end as int) == base@);
        assert(part@.take(part_end as int) == part@);
        assert(crate::config::texts_of(Seq::<String>::empty()) =~= Seq::<Seq<char>>::empty());
    }
    let mut parts: Vec<String> = if rooted {
        Vec::new()
    } else {
        collect_parts(base, body.0, base_end, true, true)
    };
    let steps = if rooted {
        collect_parts(part, 1, part_end, false, false)
    } else {
        collect_parts(part, 0, part_end, false, false)
    };
    let ghost from = crate::config::texts_of(parts@);
    let ghost way = crate::config::texts_of(steps@);
    let mut i: usize = 0;
    proof {
        assert(way.skip(0) =~= way);
    }
    while i < steps.len()
        invariant
            i <= steps@.len(),
            way == crate::config::texts_of(steps@),
            all_followed(crate::config::texts_of(parts@), way.skip(i as int)) == all_followed(
                from,
                way,
            ),
        decreases steps@.len() - i,
    {
        proof {
            assert(way.skip(i as int)[0] == steps@[i as int]@);
            assert(way.skip(i as int).drop_first() =~= way.skip(i + 1));
        }
        follow(&mut parts, &steps[i]);
        i = i + 1;
    }
    let mut start = text::text_of(base, 0, prefix_end);
    proof {
        assert(base@.subrange(0, prefix_end as int) == base@.take(prefix_end as int));
        assert(crate::config::texts_of(parts@).len() == parts@.len());
    }
    if parts.len() == 0 && (rooted || body.0 > prefix_end) {
        start.push('\\');
        start
    } else {
        spell(start, &parts)
    }
}

fn length_of_prefix(chars: &Vec<char>, prefix: PathPrefix) -> (len: usize)
    requires
        prefix == prefix_of(chars@),
    ensures
        len == prefix_len(prefix),
        len <= chars@.len(),
{
    let total: usize = chars.len();
    proof {
        assert(chars@.len() == total);
        lemma_prefix_len(chars@);
    }
    length_of(prefix)
}

/// `part` below `base`.
pub fn join(base: &str, part: &str) -> (joined: String)
    ensures
        joined@ == below(base@, part@),
        part@.len() > 0 ==> joined@.len() > 0,
{
    let chars = text::characters(base);
    let part_chars = text::characters(part);
    let length: usize = chars.len();
    proof {
        assert(base@.len() == length);
        if part@.len() > 0 {
            lemma_below_is_named(base@, part@);
        }
    }
    match parse_prefix(&part_chars) {
        PathPrefix::Bare => {},
        _ => return part.to_owned(),
    }
    let prefix = parse_prefix(&chars);
    if verbatim_prefix(prefix) && part_chars.len() > 0 {
        return join_verbatim(&chars, prefix, &part_chars);
    }
    if part_chars.len() > 0 && separator(part_chars[0], false) {
        let end = length_of_prefix(&chars, prefix);
        let mut joined = text::text_of(&chars, 0, end);
        proof {
            assert(chars@.subrange(0, end as int) == chars@.take(end as int));
        }
        joined.append(part);
        return joined;
    }
    let drive_only = match prefix {
        PathPrefix::Disk { .. } => chars.len() == 2,
        _ => false,
    };
    let mut joined = base.to_owned();
    if chars.len() > 0 && !separator(chars[chars.len() - 1], false) && !drive_only {
        joined.push('\\');
    }
    joined.append(part);
    joined
}

/// `path` with its last component replaced by `name`.
pub fn with_file_name(path: &str, name: &str) -> (changed: String)
    ensures
        changed@ == beside(path@, name@),
{
    let chars = text::characters(path);
    let tail = find_tail(&chars);
    if tail_names_a_file(&chars, &tail) {
        let directory = text::text_of(&chars, 0, tail.parent_end);
        proof {
            assert(chars@.subrange(0, tail.parent_end as int) == path@.take(tail.parent_end as int));
        }
        join(directory.as_str(), name)
    } else {
        join(path, name)
    }
}

/// `path` with `extension` in place of the extension of its file.
pub fn with_extension(path: &str, extension: &str) -> (changed: String)
    ensures
        changed@ == with_extension_of(path@, extension@),
{
    let chars = text::characters(path);
    let tail = find_tail(&chars);
    if !tail_names_a_file(&chars, &tail) {
        return path.to_owned();
    }
    let mut at: usize = tail.end - 1;
    while at > tail.start && chars[at] != '.'
        invariant
            tail.start <= at < tail.end <= chars@.len(),
            stem_end(chars@, tail.start as int, tail.end as int, tail.end - 1) == stem_end(
                chars@,
                tail.start as int,
                tail.end as int,
                at as int,
            ),
        decreases at,
    {
        at = at - 1;
    }
    let stem = if at > tail.start {
        at
    } else {
        tail.end
    };
    let mut changed = text::text_of(&chars, 0, stem);
    proof {
        assert(chars@.subrange(0, stem as int) == path@.take(stem as int));
    }
    changed.push('.');
    changed.append(extension);
    changed
}

/// The file beside an SQLite database that its write-ahead log uses.
pub fn sqlite_sidecar_path(database: &str, suffix: &str) -> (path: String)
    ensures
        path@ == database@ + suffix@,
{
    text::joined(database, suffix)
}

/// Whether a source names a device, or a verbatim object that is no drive.
pub open spec fn unsupported_namespace(path: Seq<char>) -> bool {
    prefix_of(path) is DeviceNamespace || prefix_of(path) is Verbatim
}

pub fn source_uses_unsupported_local_namespace(path: &str) -> (yes: bool)
    ensures
        yes == unsupported_namespace(path@),
{
    match parse_prefix(&text::characters(path)) {
        PathPrefix::DeviceNamespace { .. } | PathPrefix::Verbatim { .. } => true,
        _ => false,
    }
}

/// Whether a source lies on the network, given whether its drive letter does.
pub open spec fn on_network(path: Seq<char>, drive_is_remote: bool) -> bool {
    match prefix_of(path) {
        PathPrefix::Unc { .. } | PathPrefix::VerbatimUnc { .. } => true,
        PathPrefix::Disk { .. } | PathPrefix::VerbatimDisk { .. } => drive_is_remote,
        _ => false,
    }
}

/// The drive letter whose type decides whether a source lies on the network.
pub fn source_drive(path: &str) -> (drive: Option<char>)
    ensures
        drive == (match prefix_of(path@) {
            PathPrefix::Disk { drive } => Some(drive),
            PathPrefix::VerbatimDisk { drive } => Some(drive),
            _ => None,
        }),
{
    match parse_prefix(&text::characters(path)) {
        PathPrefix::Disk { drive } => Some(drive),
        PathPrefix::VerbatimDisk { drive } => Some(drive),
        _ => None,
    }
}

pub fn source_is_network_path(path: &str, drive_is_remote: bool) -> (yes: bool)
    ensures
        yes == on_network(path@, drive_is_remote),
{
    match parse_prefix(&text::characters(path)) {
        PathPrefix::Unc { .. } | PathPrefix::VerbatimUnc { .. } => true,
        PathPrefix::Disk { .. } | PathPrefix::VerbatimDisk { .. } => drive_is_remote,
        _ => false,
    }
}

/// The components of a verbatim path from `from` on, one below the other. Empty
/// components and dots are left out.
pub open spec fn plain_components(path: Seq<char>, from: int, base: Seq<char>) -> Seq<char>
    decreases path.len() + 1 - from,
    via plain_components_decreases
{
    if from < 0 || from >= path.len() {
        base
    } else {
        let end = component_end(path, from, true);
        let part = path.subrange(from, end);
        plain_components(
            path,
            end + 1,
            if part.len() == 0 || part == seq!['.'] {
                base
            } else {
                below(base, part)
            },
        )
    }
}

#[via_fn]
proof fn plain_components_decreases(path: Seq<char>, from: int, base: Seq<char>) {
    if 0 <= from <= path.len() {
        lemma_component_end(path, from, true);
    }
}

/// The spelling of a path that ordinary programs use: verbatim drives and
/// shares lose their verbatim prefix, and every other path stays.
pub open spec fn ordinary(path: Seq<char>) -> Seq<char> {
    match prefix_of(path) {
        PathPrefix::VerbatimDisk { drive } => plain_components(
            path,
            body_start(path),
            seq![drive, ':', '\\'],
        ),
        PathPrefix::VerbatimUnc { server_end, end } => {
            let server = below(seq!['\\', '\\'], path.subrange(8, server_end as int));
            let share = if end > server_end {
                path.subrange(server_end + 1, end as int)
            } else {
                Seq::empty()
            };
            plain_components(path, body_start(path), below(server, share))
        },
        _ => path,
    }
}

fn append_components(chars: &Vec<char>, from: usize, base: String) -> (path: String)
    requires
        from <= chars@.len(),
    ensures
        path@ == plain_components(chars@, from as int, base@),
    decreases chars@.len() - from,
{
    if from >= chars.len() {
        return base;
    }
    let end = find_component_end(chars, from, true);
    let part = text::text_of(chars, from, end);
    let ghost name = chars@.subrange(from as int, end as int);
    let dot = end - from == 1 && chars[from] == '.';
    proof {
        if dot {
            assert(name =~= seq!['.']);
        }
        if name == seq!['.'] {
            assert(name[0] == '.');
        }
    }
    let next = if end == from || dot {
        base
    } else {
        join(base.as_str(), part.as_str())
    };
    if end >= chars.len() {
        proof {
            reveal_with_fuel(plain_components, 2);
        }
        next
    } else {
        append_components(chars, end + 1, next)
    }
}

pub fn ordinary_windows_path(path: &str) -> (plain: String)
    ensures
        plain@ == ordinary(path@),
{
    let chars = text::characters(path);
    let prefix = parse_prefix(&chars);
    let body = find_body(&chars, prefix);
    match prefix {
        PathPrefix::VerbatimDisk { drive } => {
            let mut base = String::new();
            base.push(drive);
            base.push(':');
            base.push('\\');
            proof {
                assert(base@ =~= seq![drive, ':', '\\']);
            }
            append_components(&chars, body.0, base)
        },
        PathPrefix::VerbatimUnc { server_end, end } => {
            proof {
                lemma_component_end(chars@, 8, true);
                lemma_second_end(chars@, server_end as int, true);
            }
            let mut base = String::new();
            base.push('\\');
            base.push('\\');
            proof {
                assert(base@ =~= seq!['\\', '\\']);
            }
            let server = text::text_of(&chars, 8, server_end);
            let share = if end > server_end {
                text::text_of(&chars, server_end + 1, end)
            } else {
                String::new()
            };
            let unc = join(base.as_str(), server.as_str());
            let root = join(unc.as_str(), share.as_str());
            append_components(&chars, body.0, root)
        },
        _ => path.to_owned(),
    }
}

proof fn lemma_plain_components_start(path: Seq<char>, from: int, base: Seq<char>)
    requires
        base.len() > 0,
        base[0] != '\\',
    ensures
        plain_components(path, from, base).len() > 0,
        plain_components(path, from, base)[0] != '\\',
    decreases path.len() + 1 - from,
{
    if 0 <= from < path.len() {
        lemma_component_end(path, from, true);
        let end = component_end(path, from, true);
        let part = path.subrange(from, end);
        let next = if part.len() == 0 || part == seq!['.'] {
            base
        } else {
            below(base, part)
        };
        if part.len() > 0 {
            assert(!is_separator(path[from], true));
            assert(part[0] == path[from]);
        }
        lemma_prefix_len(base);
        assert(!is_verbatim(base));
        assert(next.len() > 0 && next[0] != '\\');
        lemma_plain_components_start(path, end + 1, next);
    }
}

/// The components from `from` on. Empty ones stand for nothing, and so do the
/// dots of a path that is not verbatim, but for one in front that is kept.
pub open spec fn parts_from(path: Seq<char>, from: int, verbatim: bool, keep_dot: bool) -> Seq<
    Seq<char>,
>
    decreases path.len() + 1 - from,
    via parts_from_decreases
{
    if from < 0 || from >= path.len() {
        Seq::empty()
    } else {
        let end = component_end(path, from, verbatim);
        let part = path.subrange(from, end);
        let rest = parts_from(path, end + 1, verbatim, verbatim);
        if part.len() == 0 || (part == seq!['.'] && !keep_dot) {
            rest
        } else {
            seq![part] + rest
        }
    }
}

#[via_fn]
proof fn parts_from_decreases(path: Seq<char>, from: int, verbatim: bool, keep_dot: bool) {
    if 0 <= from <= path.len() {
        lemma_component_end(path, from, verbatim);
    }
}

/// What a prefix names: the server and the share, or the device.
pub open spec fn prefix_names(path: Seq<char>) -> (Seq<char>, Seq<char>) {
    let share_behind = |server_end: int, end: int|
        if end > server_end {
            path.subrange(server_end + 1, end)
        } else {
            Seq::<char>::empty()
        };
    match prefix_of(path) {
        PathPrefix::Unc { end } => {
            let server_end = component_end(path, 2, false);
            (path.subrange(2, server_end), share_behind(server_end, end as int))
        },
        PathPrefix::VerbatimUnc { server_end, end } => (
            path.subrange(8, server_end as int),
            share_behind(server_end as int, end as int),
        ),
        PathPrefix::DeviceNamespace { end } => (path.subrange(4, end as int), Seq::empty()),
        PathPrefix::Verbatim { end } => (path.subrange(4, end as int), Seq::empty()),
        _ => (Seq::empty(), Seq::empty()),
    }
}

/// Whether two paths start from the same place. Drive letters are compared
/// without their case, and other prefixes by what they name.
pub open spec fn same_prefix(left: Seq<char>, right: Seq<char>) -> bool {
    match (prefix_of(left), prefix_of(right)) {
        (PathPrefix::Bare, PathPrefix::Bare) => true,
        (PathPrefix::Disk { drive }, PathPrefix::Disk { drive: other }) => drive == other,
        (PathPrefix::VerbatimDisk { drive }, PathPrefix::VerbatimDisk { drive: other }) => drive
            == other,
        (PathPrefix::Unc { .. }, PathPrefix::Unc { .. })
        | (PathPrefix::DeviceNamespace { .. }, PathPrefix::DeviceNamespace { .. })
        | (PathPrefix::Verbatim { .. }, PathPrefix::Verbatim { .. })
        | (PathPrefix::VerbatimUnc { .. }, PathPrefix::VerbatimUnc { .. }) => prefix_names(left)
            == prefix_names(right),
        _ => false,
    }
}

/// Whether the root is a component of the path: a verbatim path has to spell it.
pub open spec fn root_is_named(path: Seq<char>) -> bool {
    let prefix = prefix_of(path);
    body_start(path) > prefix_len(prefix) || (has_root(path) && !prefix_is_verbatim(prefix))
}

/// The components behind the prefix and the root.
pub open spec fn body_parts(path: Seq<char>) -> Seq<Seq<char>> {
    let verbatim = prefix_is_verbatim(prefix_of(path));
    parts_from(
        path,
        body_start(path),
        verbatim,
        verbatim || (prefix_of(path) is Bare && !has_root(path)),
    )
}

/// Whether two paths are one, apart from the spelling of their separators.
pub open spec fn is_same_path(left: Seq<char>, right: Seq<char>) -> bool {
    &&& same_prefix(left, right)
    &&& root_is_named(left) == root_is_named(right)
    &&& body_parts(left) == body_parts(right)
}

fn collect_parts(chars: &Vec<char>, from: usize, to: usize, verbatim: bool, keep_dot: bool) -> (parts:
    Vec<String>)
    requires
        from <= to <= chars@.len(),
    ensures
        crate::config::texts_of(parts@) == parts_from(
            chars@.take(to as int),
            from as int,
            verbatim,
            keep_dot,
        ),
{
    let bounded = text::characters(text::text_of(chars, 0, to).as_str());
    let ghost path = chars@.take(to as int);
    proof {
        assert(chars@.subrange(0, to as int) == path);
    }
    let mut parts: Vec<String> = Vec::new();
    let mut at: usize = from;
    let mut keep = keep_dot;
    let total: usize = bounded.len();
    proof {
        assert(crate::config::texts_of(parts@) =~= Seq::<Seq<char>>::empty());
        assert(crate::config::texts_of(parts@) + parts_from(path, at as int, verbatim, keep)
            == parts_from(path, at as int, verbatim, keep));
    }
    while at < total
        invariant
            bounded@ == path,
            total == path.len(),
            at <= total,
            crate::config::texts_of(parts@) + parts_from(path, at as int, verbatim, keep)
                == parts_from(path, from as int, verbatim, keep_dot),
        decreases total - at,
    {
        let end = find_component_end(&bounded, at, verbatim);
        let ghost part = path.subrange(at as int, end as int);
        let ghost rest = parts_from(path, end + 1, verbatim, verbatim);
        let ghost before = parts@;
        let dot = end - at == 1 && bounded[at] == '.';
        proof {
            if dot {
                assert(part =~= seq!['.']);
            }
            if part == seq!['.'] {
                assert(part[0] == '.');
            }
            assert(parts_from(path, at as int, verbatim, keep) == if end == at || (dot && !keep) {
                rest
            } else {
                seq![part] + rest
            });
        }
        if end != at && !(dot && !keep) {
            parts.push(text::text_of(&bounded, at, end));
            proof {
                assert(crate::config::texts_of(parts@) =~= crate::config::texts_of(before).push(
                    part,
                ));
                assert(crate::config::texts_of(before) + (seq![part] + rest)
                    == crate::config::texts_of(parts@) + rest);
            }
        }
        keep = verbatim;
        if end >= total {
            proof {
                assert(rest =~= parts_from(path, total as int, verbatim, verbatim));
            }
            at = total;
        } else {
            at = end + 1;
        }
    }
    proof {
        assert(crate::config::texts_of(parts@) + Seq::<Seq<char>>::empty()
            == crate::config::texts_of(parts@));
    }
    parts
}

fn same_texts(left: &Vec<String>, right: &Vec<String>) -> (same: bool)
    ensures
        same == (crate::config::texts_of(left@) == crate::config::texts_of(right@)),
{
    let ghost lefts = crate::config::texts_of(left@);
    let ghost rights = crate::config::texts_of(right@);
    if left.len() != right.len() {
        proof {
            assert(lefts.len() != rights.len());
        }
        return false;
    }
    let mut i: usize = 0;
    while i < left.len()
        invariant
            i <= left@.len(),
            left@.len() == right@.len(),
            lefts == crate::config::texts_of(left@),
            rights == crate::config::texts_of(right@),
            forall|j: int| 0 <= j < i ==> #[trigger] lefts[j] == rights[j],
        decreases left@.len() - i,
    {
        if !text::same_text(left[i].as_str(), right[i].as_str()) {
            proof {
                assert(lefts[i as int] != rights[i as int]);
            }
            return false;
        }
        i = i + 1;
    }
    proof {
        assert(lefts =~= rights);
    }
    true
}

fn find_names(chars: &Vec<char>, prefix: PathPrefix) -> (names: (String, String))
    requires
        prefix == prefix_of(chars@),
    ensures
        (names.0@, names.1@) == prefix_names(chars@),
{
    let total: usize = chars.len();
    proof {
        assert(chars@.len() == total);
        lemma_prefix_len(chars@);
    }
    match prefix {
        PathPrefix::Unc { end } => {
            let server_end = find_component_end(chars, 2, false);
            proof {
                lemma_second_end(chars@, server_end as int, false);
            }
            (text::text_of(chars, 2, server_end), text::text_of(chars, server_end + 1, end))
        },
        PathPrefix::VerbatimUnc { server_end, end } => {
            proof {
                lemma_component_end(chars@, 8, true);
                lemma_second_end(chars@, server_end as int, true);
            }
            let share = if end > server_end {
                text::text_of(chars, server_end + 1, end)
            } else {
                String::new()
            };
            (text::text_of(chars, 8, server_end), share)
        },
        PathPrefix::DeviceNamespace { end } => {
            proof {
                lemma_component_end(chars@, 4, false);
            }
            (text::text_of(chars, 4, end), String::new())
        },
        PathPrefix::Verbatim { end } => {
            proof {
                lemma_component_end(chars@, 4, true);
            }
            (text::text_of(chars, 4, end), String::new())
        },
        _ => (String::new(), String::new()),
    }
}

pub fn same_path(left: &str, right: &str) -> (same: bool)
    ensures
        same == is_same_path(left@, right@),
{
    let lefts = text::characters(left);
    let rights = text::characters(right);
    let left_end: usize = lefts.len();
    let right_end: usize = rights.len();
    let prefix = parse_prefix(&lefts);
    let other_prefix = parse_prefix(&rights);
    let verbatim = verbatim_prefix(prefix);
    let from_one_place = match (prefix, other_prefix) {
        (PathPrefix::Bare, PathPrefix::Bare) => true,
        (PathPrefix::Disk { drive }, PathPrefix::Disk { drive: other }) => drive == other,
        (PathPrefix::VerbatimDisk { drive }, PathPrefix::VerbatimDisk { drive: other }) => drive
            == other,
        (PathPrefix::Unc { .. }, PathPrefix::Unc { .. })
        | (PathPrefix::DeviceNamespace { .. }, PathPrefix::DeviceNamespace { .. })
        | (PathPrefix::Verbatim { .. }, PathPrefix::Verbatim { .. })
        | (PathPrefix::VerbatimUnc { .. }, PathPrefix::VerbatimUnc { .. }) => {
            let names = find_names(&lefts, prefix);
            let others = find_names(&rights, other_prefix);
            names.0 == others.0 && names.1 == others.1
        },
        _ => false,
    };
    if !from_one_place {
        return false;
    }
    let left_body = find_body(&lefts, prefix);
    let right_body = find_body(&rights, other_prefix);
    let left_root = left_body.0 > length_of_prefix(&lefts, prefix) || (left_body.1 && !verbatim);
    let right_root = right_body.0 > length_of_prefix(&rights, other_prefix) || (right_body.1
        && !verbatim);
    if left_root != right_root {
        return false;
    }
    let bare = match prefix {
        PathPrefix::Bare => true,
        _ => false,
    };
    let keep = verbatim || (bare && !left_body.1);
    proof {
        assert(lefts@.take(lefts@.len() as int) == lefts@);
        assert(rights@.take(rights@.len() as int) == rights@);
    }
    same_texts(
        &collect_parts(&lefts, left_body.0, left_end, verbatim, keep),
        &collect_parts(&rights, right_body.0, right_end, verbatim, keep),
    )
}

/// Where the components start, and whether the path has a root.
fn find_body(chars: &Vec<char>, prefix: PathPrefix) -> (body: (usize, bool))
    requires
        prefix == prefix_of(chars@),
    ensures
        body.0 == body_start(chars@),
        body.0 <= chars@.len(),
        body.1 == has_root(chars@),
{
    let total: usize = chars.len();
    proof {
        lemma_prefix_len(chars@);
    }
    let end = length_of(prefix);
    if end < total && separator(chars[end], false) {
        (end + 1, true)
    } else {
        let rooted = match prefix {
            PathPrefix::Bare | PathPrefix::Disk { .. } => false,
            _ => true,
        };
        (end, rooted)
    }
}

/// The ordinary spelling of a path on a drive is its own ordinary spelling.
pub proof fn the_ordinary_spelling_on_a_drive_is_final(path: Seq<char>)
    requires
        !(prefix_of(path) is VerbatimUnc),
    ensures
        ordinary(ordinary(path)) == ordinary(path),
{
    if let PathPrefix::VerbatimDisk { drive } = prefix_of(path) {
        let base = seq![drive, ':', '\\'];
        lemma_plain_components_start(path, body_start(path), base);
        assert(!is_verbatim(ordinary(path)));
    }
}

} // verus!
