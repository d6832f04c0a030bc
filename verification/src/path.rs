//! Paths as text: their separators, the prefixes of Windows, and file names.
use vstd::prelude::*;

use crate::text::{chars_of, found_at, same, slice_of};

verus! {

/// Which characters separate the components of a path.
#[derive(Debug, Clone, Copy, PartialEq, Eq, Structural)]
pub enum Separators {
    /// The slash, as on Unix.
    Slash,
    /// The slash and the backslash, as on Windows.
    Both,
    /// The backslash, as in a verbatim path of Windows.
    Backslash,
}

/// `c` separates the components of a path.
pub open spec fn separates(c: char, by: Separators) -> bool {
    match by {
        Separators::Slash => c == '/',
        Separators::Both => c == '/' || c == '\\',
        Separators::Backslash => c == '\\',
    }
}

/// Where the component of `path` that starts at `from` ends.
pub open spec fn component_end(path: Seq<char>, from: nat, by: Separators) -> nat
    decreases path.len() - from,
{
    if from >= path.len() {
        path.len()
    } else if separates(path[from as int], by) {
        from
    } else {
        component_end(path, from + 1, by)
    }
}

/// Where the component behind the one that ends at `end` ends.
pub open spec fn next_end(path: Seq<char>, end: nat, by: Separators) -> nat {
    component_end(path, end + 1, by)
}

/// `path` holds a drive at position `at`: a letter and a colon.
pub open spec fn drive_at(path: Seq<char>, at: int) -> bool {
    &&& at + 1 < path.len()
    &&& ('a' <= path[at] <= 'z' || 'A' <= path[at] <= 'Z')
    &&& path[at + 1] == ':'
}

/// The prefix of a path, which stands before its components.
pub struct PrefixView {
    /// How long it is. A path need not have one.
    pub len: nat,
    /// What separates the components behind it.
    pub by: Separators,
}

/// The prefix of a Windows path: a drive (`C:`), a server's share (`\\server\share`), a
/// device (`\\.\COM42`), or the verbatim form of one (`\\?\C:`, `\\?\UNC\server\share`,
/// `\\?\name`), which is written with backslashes only.
pub open spec fn windows_prefix(path: Seq<char>) -> PrefixView {
    if "\\\\?\\UNC\\"@.is_prefix_of(path) {
        let server = component_end(path, 8, Separators::Backslash);
        PrefixView {
            len: next_end(path, server, Separators::Backslash),
            by: Separators::Backslash,
        }
    } else if "\\\\?\\"@.is_prefix_of(path) {
        if drive_at(path, 4) && (path.len() == 6 || separates(path[6], Separators::Both)) {
            PrefixView { len: 6, by: Separators::Backslash }
        } else {
            PrefixView {
                len: component_end(path, 4, Separators::Backslash),
                by: Separators::Backslash,
            }
        }
    } else if path.len() >= 2 && separates(path[0], Separators::Both) && separates(
        path[1],
        Separators::Both,
    ) {
        if path.len() >= 4 && path[2] == '.' && separates(path[3], Separators::Both) {
            PrefixView { len: component_end(path, 4, Separators::Both), by: Separators::Both }
        } else {
            let server = component_end(path, 2, Separators::Both);
            let share = next_end(path, server, Separators::Both);
            PrefixView {
                len: if server > 2 && share > server + 1 {
                    share
                } else {
                    0
                },
                by: Separators::Both,
            }
        }
    } else if drive_at(path, 0) {
        PrefixView { len: 2, by: Separators::Both }
    } else {
        PrefixView { len: 0, by: Separators::Both }
    }
}

/// The prefix of a path on a platform. There is none but on Windows.
pub open spec fn prefix_of(path: Seq<char>, windows: bool) -> PrefixView {
    if windows {
        windows_prefix(path)
    } else {
        PrefixView { len: 0, by: Separators::Slash }
    }
}

/// Where the last component of `path` starts.
pub open spec fn component_start(path: Seq<char>, by: Separators) -> nat
    decreases path.len(),
{
    if path.len() == 0 || separates(path.last(), by) {
        path.len()
    } else {
        component_start(path.drop_last(), by)
    }
}

/// The last component starts within the path.
pub proof fn component_start_in_path(path: Seq<char>, by: Separators)
    ensures
        component_start(path, by) <= path.len(),
    decreases path.len(),
{
    if path.len() > 0 && !separates(path.last(), by) {
        component_start_in_path(path.drop_last(), by);
    }
}

/// The last component of `path`, where it is the name of a file. Empty components at the
/// end are passed over, and so is `.`, but for a verbatim path; a path that is made of them
/// alone, or that ends in `..`, names no file.
pub open spec fn last_name(path: Seq<char>, by: Separators) -> Option<Seq<char>>
    decreases path.len(),
{
    let start = component_start(path, by) as int;
    let component = path.skip(start);
    if component.len() == 0 || (component == "."@ && !(by is Backslash)) {
        if start == 0 {
            None
        } else {
            proof {
                component_start_in_path(path, by);
            }
            last_name(path.take(start - 1), by)
        }
    } else if component == "."@ || component == ".."@ {
        None
    } else {
        Some(component)
    }
}

/// The name of the file that a path leads to on a platform. It stands behind the prefix of
/// the path; a bare prefix leads to no file.
pub open spec fn file_name(path: Seq<char>, windows: bool) -> Option<Seq<char>> {
    let prefix = prefix_of(path, windows);
    last_name(path.skip(prefix.len as int), prefix.by)
}

/// Tells whether a character separates the components of a path.
fn is_separating(c: char, by: Separators) -> (yes: bool)
    ensures
        yes == separates(c, by),
{
    match by {
        Separators::Slash => c == '/',
        Separators::Both => c == '/' || c == '\\',
        Separators::Backslash => c == '\\',
    }
}

/// Finds where the component that starts at `from` ends.
fn end_of_component(path: &[char], from: usize, by: Separators) -> (end: usize)
    ensures
        end == component_end(path@, from as nat, by),
        end <= path@.len(),
        from <= path@.len() ==> from <= end,
{
    let mut end: usize = from;
    while end < path.len() && !is_separating(path[end], by)
        invariant
            from <= end,
            from <= path@.len() ==> end <= path@.len(),
            component_end(path@, end as nat, by) == component_end(path@, from as nat, by),
        decreases path@.len() - end,
    {
        end = end + 1;
    }
    if end < path.len() {
        end
    } else {
        path.len()
    }
}

/// Finds where the component behind the one that ends at `end` ends.
fn end_of_next(path: &[char], end: usize, by: Separators) -> (next: usize)
    requires
        end <= path@.len(),
    ensures
        next == next_end(path@, end as nat, by),
        end <= next <= path@.len(),
{
    if end < path.len() {
        end_of_component(path, end + 1, by)
    } else {
        end
    }
}

/// Tells whether a path holds a drive at a position.
fn has_drive(path: &[char], at: usize) -> (yes: bool)
    requires
        at <= 4,
    ensures
        yes == drive_at(path@, at as int),
{
    if path.len() < at + 2 {
        return false;
    }
    let letter = path[at];
    (('a' <= letter && letter <= 'z') || ('A' <= letter && letter <= 'Z')) && path[at + 1] == ':'
}

/// The prefix of a path, as length and separators.
fn find_prefix(path: &[char], windows: bool) -> (prefix: (usize, Separators))
    ensures
        prefix.0 == prefix_of(path@, windows).len,
        prefix.1 == prefix_of(path@, windows).by,
        prefix.0 <= path@.len(),
{
    if !windows {
        return (0, Separators::Slash);
    }
    let verbatim = chars_of("\\\\?\\");
    let verbatim_unc = chars_of("\\\\?\\UNC\\");
    proof {
        reveal_strlit("\\\\?\\");
        reveal_strlit("\\\\?\\UNC\\");
    }
    if found_at(path, verbatim_unc.as_slice(), 0) {
        let server = end_of_component(path, 8, Separators::Backslash);
        (end_of_next(path, server, Separators::Backslash), Separators::Backslash)
    } else if found_at(path, verbatim.as_slice(), 0) {
        if has_drive(path, 4) && (path.len() == 6 || is_separating(path[6], Separators::Both)) {
            (6, Separators::Backslash)
        } else {
            (end_of_component(path, 4, Separators::Backslash), Separators::Backslash)
        }
    } else if path.len() >= 2 && is_separating(path[0], Separators::Both) && is_separating(
        path[1],
        Separators::Both,
    ) {
        if path.len() >= 4 && path[2] == '.' && is_separating(path[3], Separators::Both) {
            (end_of_component(path, 4, Separators::Both), Separators::Both)
        } else {
            let server = end_of_component(path, 2, Separators::Both);
            let share = end_of_next(path, server, Separators::Both);
            if server > 2 && share - server > 1 {
                (share, Separators::Both)
            } else {
                (0, Separators::Both)
            }
        }
    } else if has_drive(path, 0) {
        (2, Separators::Both)
    } else {
        (0, Separators::Both)
    }
}

/// Finds the last component of a path, where it is the name of a file.
fn find_last_name(path: &[char], by: Separators) -> (name: Option<Vec<char>>)
    ensures
        name matches Some(n) ==> last_name(path@, by) == Some(n@),
        name is None ==> last_name(path@, by) is None,
{
    let here = chars_of(".");
    let parent = chars_of("..");
    let verbatim = match by {
        Separators::Backslash => true,
        _ => false,
    };
    let mut end: usize = path.len();
    assert(path@.take(path@.len() as int) == path@);
    loop
        invariant
            end <= path@.len(),
            here@ == "."@,
            parent@ == ".."@,
            verbatim == (by is Backslash),
            last_name(path@.take(end as int), by) == last_name(path@, by),
        decreases end,
    {
        let ghost rest = path@.take(end as int);
        let mut start: usize = end;
        while start > 0 && !is_separating(path[start - 1], by)
            invariant
                start <= end <= path@.len(),
                rest == path@.take(end as int),
                component_start(path@.take(start as int), by) == component_start(rest, by),
            decreases start,
        {
            assert(path@.take(start as int).drop_last() == path@.take(start - 1));
            start = start - 1;
        }
        assert(component_start(rest, by) == start);
        let component = slice_of(path, start, end);
        assert(component@ == rest.skip(start as int));
        let is_here = same(component.as_slice(), here.as_slice());
        if component.len() == 0 || (is_here && !verbatim) {
            if start == 0 {
                return None;
            }
            assert(rest.take(start - 1) == path@.take(start - 1));
            end = start - 1;
        } else if is_here || same(component.as_slice(), parent.as_slice()) {
            return None;
        } else {
            return Some(component);
        }
    }
}

/// The name of the file that a path leads to on a platform.
pub fn name_of(path: &[char], windows: bool) -> (name: Option<Vec<char>>)
    ensures
        name matches Some(n) ==> file_name(path@, windows) == Some(n@),
        name is None ==> file_name(path@, windows) is None,
{
    let (from, by) = find_prefix(path, windows);
    let end: usize = path.len();
    let rest = slice_of(path, from, end);
    assert(rest@ == path@.skip(from as int));
    find_last_name(rest.as_slice(), by)
}

/// A component without separators starts where the path before it ends.
proof fn component_starts_behind(dir: Seq<char>, name: Seq<char>, by: Separators)
    requires
        forall|i: int| 0 <= i < name.len() ==> !separates(#[trigger] name[i], by),
        dir.len() == 0 || separates(dir.last(), by),
    ensures
        component_start(dir + name, by) == dir.len(),
    decreases name.len(),
{
    if name.len() == 0 {
        assert(dir + name == dir);
    } else {
        let init = name.drop_last();
        assert((dir + name).last() == name[name.len() - 1]);
        assert((dir + name).drop_last() == dir + init);
        assert forall|i: int| 0 <= i < init.len() implies !separates(#[trigger] init[i], by) by {
            assert(init[i] == name[i]);
        }
        component_starts_behind(dir, init, by);
    }
}

/// The name of a file is what stands behind the last separator of its path, or behind the
/// prefix where no separator follows it.
pub proof fn file_name_is_last_component(dir: Seq<char>, name: Seq<char>, windows: bool)
    requires
        ({
            let prefix = prefix_of(dir + name, windows);
            &&& prefix.len == dir.len() || (prefix.len < dir.len() && separates(
                dir.last(),
                prefix.by,
            ))
            &&& forall|i: int|
                0 <= i < name.len() ==> !separates(#[trigger] name[i], prefix.by)
        }),
        name.len() > 0,
        name != "."@,
        name != ".."@,
    ensures
        file_name(dir + name, windows) == Some(name),
{
    let prefix = prefix_of(dir + name, windows);
    let within = dir.skip(prefix.len as int);
    assert((dir + name).skip(prefix.len as int) == within + name);
    if prefix.len < dir.len() {
        assert(within.last() == dir.last());
    }
    component_starts_behind(within, name, prefix.by);
    assert((within + name).skip(within.len() as int) == name);
}

/// On Windows a drive is no part of a file name, and alone leads to no file.
pub proof fn drives_are_no_part_of_names(drive: Seq<char>, name: Seq<char>)
    requires
        drive.len() == 2,
        drive_at(drive, 0),
        name != "."@,
        name != ".."@,
        forall|i: int| 0 <= i < name.len() ==> !separates(#[trigger] name[i], Separators::Both),
    ensures
        file_name(drive + name, true) == if name.len() == 0 {
            None
        } else {
            Some(name)
        },
{
    reveal_strlit("\\\\?\\");
    reveal_strlit("\\\\?\\UNC\\");
    let path = drive + name;
    assert(path[0] == drive[0] && path[1] == drive[1]);
    assert(!"\\\\?\\"@.is_prefix_of(path)) by {
        if "\\\\?\\"@.is_prefix_of(path) {
            assert(path.subrange(0, 4)[0] == path[0]);
        }
    }
    assert(!"\\\\?\\UNC\\"@.is_prefix_of(path)) by {
        if "\\\\?\\UNC\\"@.is_prefix_of(path) {
            assert(path.subrange(0, 8)[0] == path[0]);
        }
    }
    assert(drive_at(path, 0));
    if name.len() == 0 {
        assert(path.skip(2).len() == 0);
    } else {
        file_name_is_last_component(drive, name, true);
    }
}

/// Without backslashes the last component starts at the same place everywhere.
proof fn component_starts_alike(path: Seq<char>)
    requires
        !path.contains('\\'),
    ensures
        component_start(path, Separators::Both) == component_start(path, Separators::Slash),
    decreases path.len(),
{
    if path.len() > 0 {
        assert(path[path.len() - 1] == path.last());
        if path.last() != '/' {
            assert(!path.drop_last().contains('\\')) by {
                if path.drop_last().contains('\\') {
                    let i = choose|i: int|
                        0 <= i < path.drop_last().len() && path.drop_last()[i] == '\\';
                    assert(path[i] == '\\');
                }
            }
            component_starts_alike(path.drop_last());
        }
    }
}

/// Without backslashes the last name is the same everywhere.
proof fn last_names_are_alike(path: Seq<char>)
    requires
        !path.contains('\\'),
    ensures
        last_name(path, Separators::Both) == last_name(path, Separators::Slash),
    decreases path.len(),
{
    component_starts_alike(path);
    component_start_in_path(path, Separators::Both);
    let start = component_start(path, Separators::Both) as int;
    if start > 0 {
        let before = path.take(start - 1);
        assert(!before.contains('\\')) by {
            if before.contains('\\') {
                let i = choose|i: int| 0 <= i < before.len() && before[i] == '\\';
                assert(path[i] == '\\');
            }
        }
        last_names_are_alike(before);
    }
}

/// A relative path without backslashes and without a drive leads to the same file name
/// everywhere.
pub proof fn file_names_are_alike(path: Seq<char>)
    requires
        !path.contains('\\'),
        !drive_at(path, 0),
        path.len() > 0 ==> path.first() != '/',
    ensures
        file_name(path, true) == file_name(path, false),
{
    reveal_strlit("\\\\?\\");
    reveal_strlit("\\\\?\\UNC\\");
    assert(path.len() > 0 ==> path[0] != '\\');
    assert(!"\\\\?\\"@.is_prefix_of(path)) by {
        if "\\\\?\\"@.is_prefix_of(path) {
            assert(path.subrange(0, 4)[0] == path[0]);
        }
    }
    assert(!"\\\\?\\UNC\\"@.is_prefix_of(path)) by {
        if "\\\\?\\UNC\\"@.is_prefix_of(path) {
            assert(path.subrange(0, 8)[0] == path[0]);
        }
    }
    assert(path.skip(0) == path);
    last_names_are_alike(path);
}

/// A last component without separators is the last name, where it is neither `.` nor `..`;
/// `..` is none.
proof fn last_component_counts(dir: Seq<char>, name: Seq<char>, by: Separators)
    requires
        dir.len() == 0 || separates(dir.last(), by),
        forall|i: int| 0 <= i < name.len() ==> !separates(#[trigger] name[i], by),
        name.len() > 0,
    ensures
        name != seq!['.'] && name != seq!['.', '.'] ==> last_name(dir + name, by) == Some(name),
        name == seq!['.', '.'] ==> last_name(dir + name, by) is None,
{
    reveal_strlit(".");
    reveal_strlit("..");
    assert("."@ =~= seq!['.']);
    assert(".."@ =~= seq!['.', '.']);
    assert("."@.len() != ".."@.len());
    component_starts_behind(dir, name, by);
    assert((dir + name).skip(dir.len() as int) =~= name);
}

/// A separator at the end is passed over.
proof fn separator_at_the_end(path: Seq<char>, c: char, by: Separators)
    requires
        separates(c, by),
    ensures
        last_name(path + seq![c], by) == last_name(path, by),
{
    let whole = path + seq![c];
    assert(whole.last() == c);
    assert(whole.skip(whole.len() as int).len() == 0);
    assert(whole.take(whole.len() - 1) =~= path);
}

/// `.` behind a slash is passed over.
proof fn dot_at_the_end(path: Seq<char>)
    ensures
        last_name(path + seq!['/', '.'], Separators::Slash) == last_name(path, Separators::Slash),
{
    let by = Separators::Slash;
    reveal_strlit(".");
    assert("."@ =~= seq!['.']);
    let slashed = path + seq!['/'];
    let here = seq!['.'];
    assert(slashed.last() == '/');
    let whole = path + seq!['/', '.'];
    assert(whole =~= slashed + here);
    component_starts_behind(slashed, here, by);
    assert(whole.skip(slashed.len() as int) =~= here);
    assert(whole.take(slashed.len() - 1) =~= path);
}

/// Nothing, and `.` alone, lead to no file.
proof fn nothing_has_no_name()
    ensures
        last_name(Seq::<char>::empty(), Separators::Slash) is None,
        last_name(seq!['.'], Separators::Slash) is None,
{
    let by = Separators::Slash;
    reveal_strlit(".");
    assert("."@ =~= seq!['.']);
    let none = Seq::<char>::empty();
    assert(none.skip(0) =~= none);
    let here = seq!['.'];
    component_starts_behind(none, here, by);
    assert(none + here =~= here);
    assert(here.skip(0) =~= here);
}

/// On Unix the file name is what stands behind the last slash, whatever else the path holds.
/// Slashes and `.` behind it are passed over, and a path that ends in `..` has none.
pub proof fn names_on_unix(dir: Seq<char>, name: Seq<char>, path: Seq<char>)
    requires
        dir.len() == 0 || dir.last() == '/',
        !name.contains('/'),
    ensures
        name.len() > 0 && name != seq!['.'] && name != seq!['.', '.'] ==> file_name(
            dir + name,
            false,
        ) == Some(name),
        file_name(dir + seq!['.', '.'], false) is None,
        file_name(path + seq!['/'], false) == file_name(path, false),
        file_name(path + seq!['/', '.'], false) == file_name(path, false),
        file_name(seq![], false) is None,
        file_name(seq!['.'], false) is None,
{
    let by = Separators::Slash;
    let parent = seq!['.', '.'];
    if name.len() > 0 {
        assert forall|i: int| 0 <= i < name.len() implies !separates(#[trigger] name[i], by) by {
            assert(name.contains(name[i]));
        }
        last_component_counts(dir, name, by);
    }
    last_component_counts(dir, parent, by);
    separator_at_the_end(path, '/', by);
    dot_at_the_end(path);
    nothing_has_no_name();
    assert((dir + name).skip(0) =~= dir + name);
    assert((dir + parent).skip(0) =~= dir + parent);
    assert((path + seq!['/']).skip(0) =~= path + seq!['/']);
    assert((path + seq!['/', '.']).skip(0) =~= path + seq!['/', '.']);
    assert(path.skip(0) =~= path);
    assert(Seq::<char>::empty().skip(0) =~= Seq::<char>::empty());
    assert(seq!['.'].skip(0) =~= seq!['.']);
}

/// Neither separator stands at the start of the path twice over, so it names no server.
proof fn no_server_named(path: Seq<char>)
    requires
        path.len() >= 2 ==> !((path[0] == '/' || path[0] == '\\') && (path[1] == '/' || path[1]
            == '\\')),
    ensures
        !"\\\\?\\"@.is_prefix_of(path),
        !"\\\\?\\UNC\\"@.is_prefix_of(path),
{
    reveal_strlit("\\\\?\\");
    reveal_strlit("\\\\?\\UNC\\");
    if "\\\\?\\"@.is_prefix_of(path) {
        assert(path.subrange(0, 4)[0] == path[0] && path.subrange(0, 4)[1] == path[1]);
    }
    if "\\\\?\\UNC\\"@.is_prefix_of(path) {
        assert(path.subrange(0, 8)[0] == path[0] && path.subrange(0, 8)[1] == path[1]);
    }
}

/// On Windows the file name is what stands behind the last slash or backslash, where the
/// path starts with neither a drive nor a server; and behind a drive it is the same.
pub proof fn names_on_windows(letter: char, dir: Seq<char>, name: Seq<char>)
    requires
        dir.len() == 0 || dir.last() == '/' || dir.last() == '\\',
        !name.contains('/'),
        !name.contains('\\'),
        name.len() > 0,
        name != seq!['.'],
        name != seq!['.', '.'],
    ensures
        (dir + name).len() >= 2 ==> (dir + name)[1] != ':' && !(((dir + name)[0] == '/' || (dir
            + name)[0] == '\\') && ((dir + name)[1] == '/' || (dir + name)[1] == '\\'))
            ==> file_name(dir + name, true) == Some(name),
        (dir + name).len() < 2 ==> file_name(dir + name, true) == Some(name),
        'a' <= letter <= 'z' || 'A' <= letter <= 'Z' ==> file_name(
            seq![letter, ':'] + dir + name,
            true,
        ) == Some(name) && file_name(seq![letter, ':'], true) is None,
{
    let by = Separators::Both;
    assert forall|i: int| 0 <= i < name.len() implies !separates(#[trigger] name[i], by) by {
        assert(name.contains(name[i]));
    }
    let path = dir + name;
    last_component_counts(dir, name, by);
    assert(path.skip(0) =~= path);
    if path.len() < 2 || (path[1] != ':' && !((path[0] == '/' || path[0] == '\\') && (path[1] == '/'
        || path[1] == '\\'))) {
        no_server_named(path);
        assert(windows_prefix(path) == (PrefixView { len: 0, by }));
    }
    if 'a' <= letter <= 'z' || 'A' <= letter <= 'Z' {
        drive_is_prefix(letter, path);
        drive_is_prefix(letter, seq![]);
        assert(seq![letter, ':'] + dir + name =~= seq![letter, ':'] + path);
        assert((seq![letter, ':'] + path).skip(2) =~= path);
        let bare = seq![letter, ':'];
        assert(bare + Seq::<char>::empty() =~= bare);
        assert(bare.skip(2).len() == 0);
    }
}

/// A drive is the prefix of a path.
proof fn drive_is_prefix(letter: char, rest: Seq<char>)
    requires
        'a' <= letter <= 'z' || 'A' <= letter <= 'Z',
    ensures
        windows_prefix(seq![letter, ':'] + rest) == (PrefixView { len: 2, by: Separators::Both }),
{
    let path = seq![letter, ':'] + rest;
    assert(path[0] == letter && path[1] == ':');
    no_server_named(path);
    assert(drive_at(path, 0));
}

/// A component ends at the first separator behind its start.
proof fn component_ends_at(path: Seq<char>, from: nat, to: nat, by: Separators)
    requires
        from <= to <= path.len(),
        forall|i: int| from <= i < to ==> !separates(#[trigger] path[i], by),
        to < path.len() ==> separates(path[to as int], by),
    ensures
        component_end(path, from, by) == to,
    decreases to - from,
{
    if from < to {
        component_ends_at(path, from + 1, to, by);
    }
}

/// On Windows a server and its share are no part of the file name.
pub proof fn names_behind_a_share(
    server: Seq<char>,
    share: Seq<char>,
    dir: Seq<char>,
    name: Seq<char>,
)
    requires
        server.len() > 0,
        server[0] != '.',
        server[0] != '?',
        !server.contains('/'),
        !server.contains('\\'),
        share.len() > 0,
        !share.contains('/'),
        !share.contains('\\'),
        dir.len() > 0,
        dir.first() == '\\',
        dir.last() == '/' || dir.last() == '\\',
        !name.contains('/'),
        !name.contains('\\'),
        name.len() > 0,
        name != seq!['.'],
        name != seq!['.', '.'],
    ensures
        file_name(seq!['\\', '\\'] + server + seq!['\\'] + share + dir + name, true) == Some(name),
        file_name(seq!['\\', '\\'] + server + seq!['\\'] + share, true) is None,
{
    let by = Separators::Both;
    let bare = seq!['\\', '\\'] + server + seq!['\\'] + share;
    let rest = dir + name;
    let whole = seq!['\\', '\\'] + server + seq!['\\'] + share + dir + name;
    assert(whole =~= bare + rest);
    share_is_prefix(server, share, rest);
    share_is_prefix(server, share, seq![]);
    assert(bare + Seq::<char>::empty() =~= bare);
    assert(bare.skip(bare.len() as int).len() == 0);
    assert(whole.skip(bare.len() as int) =~= rest);
    assert forall|i: int| 0 <= i < name.len() implies !separates(#[trigger] name[i], by) by {
        assert(name.contains(name[i]));
    }
    last_component_counts(dir, name, by);
}

/// A server and its share are the prefix of a path.
proof fn share_is_prefix(server: Seq<char>, share: Seq<char>, rest: Seq<char>)
    requires
        server.len() > 0,
        server[0] != '.',
        server[0] != '?',
        !server.contains('/'),
        !server.contains('\\'),
        share.len() > 0,
        !share.contains('/'),
        !share.contains('\\'),
        rest.len() == 0 || rest.first() == '\\',
    ensures
        windows_prefix(seq!['\\', '\\'] + server + seq!['\\'] + share + rest) == (PrefixView {
            len: server.len() + share.len() + 3,
            by: Separators::Both,
        }),
{
    let by = Separators::Both;
    reveal_strlit("\\\\?\\");
    reveal_strlit("\\\\?\\UNC\\");
    let path = seq!['\\', '\\'] + server + seq!['\\'] + share + rest;
    assert(path[2] == server[0]);
    if "\\\\?\\"@.is_prefix_of(path) {
        assert(path.subrange(0, 4)[2] == path[2]);
    }
    if "\\\\?\\UNC\\"@.is_prefix_of(path) {
        assert(path.subrange(0, 8)[2] == path[2]);
    }
    let a = 2 + server.len();
    let b = a + 1 + share.len();
    assert forall|i: int| 2 <= i < a implies !separates(#[trigger] path[i], by) by {
        assert(path[i] == server[i - 2]);
        assert(server.contains(server[i - 2]));
    }
    component_ends_at(path, 2, a, by);
    assert forall|i: int| a + 1 <= i < b implies !separates(#[trigger] path[i], by) by {
        assert(path[i] == share[i - a - 1]);
        assert(share.contains(share[i - a - 1]));
    }
    if rest.len() > 0 {
        assert(path[b as int] == rest[0]);
    }
    component_ends_at(path, a + 1, b, by);
}

/// The verbatim prefixes of Windows, and those of devices: what follows them is cut at
/// backslashes, and behind a device at slashes too.
pub proof fn names_behind_verbatim_prefixes(
    letter: char,
    first: Seq<char>,
    second: Seq<char>,
    dir: Seq<char>,
    name: Seq<char>,
)
    requires
        'a' <= letter <= 'z' || 'A' <= letter <= 'Z',
        first.len() > 2,
        first != seq!['U', 'N', 'C'],
        !first.contains('\\'),
        !first.contains('/'),
        second.len() > 0,
        !second.contains('\\'),
        !second.contains('/'),
        dir.len() > 0,
        dir.first() == '\\',
        dir.last() == '\\',
        !name.contains('\\'),
        name.len() > 0,
        name != seq!['.'],
        name != seq!['.', '.'],
    ensures
        file_name(seq!['\\', '\\', '?', '\\', letter, ':'] + (dir + name), true) == Some(name),
        file_name(seq!['\\', '\\', '?', '\\'] + first + (dir + name), true) == Some(name),
        file_name(
            seq!['\\', '\\', '?', '\\', 'U', 'N', 'C', '\\'] + first + seq!['\\'] + second + (dir
                + name),
            true,
        ) == Some(name),
        !name.contains('/') ==> file_name(
            seq!['\\', '\\', '.', '\\'] + first + (dir + name),
            true,
        ) == Some(name),
{
    let rest = dir + name;
    assert(rest.first() == '\\');
    assert forall|i: int| 0 <= i < name.len() implies !separates(
        #[trigger] name[i],
        Separators::Backslash,
    ) by {
        assert(name.contains(name[i]));
    }
    last_component_counts(dir, name, Separators::Backslash);
    verbatim_drive(letter, rest);
    verbatim_name(first, rest);
    verbatim_share(first, second, rest);
    device(first, rest);
    let a = seq!['\\', '\\', '?', '\\', letter, ':'];
    let b = seq!['\\', '\\', '?', '\\'] + first;
    let c = seq!['\\', '\\', '?', '\\', 'U', 'N', 'C', '\\'] + first + seq!['\\'] + second;
    let d = seq!['\\', '\\', '.', '\\'] + first;
    stands_behind_prefix(a, rest, Separators::Backslash);
    stands_behind_prefix(b, rest, Separators::Backslash);
    stands_behind_prefix(c, rest, Separators::Backslash);
    stands_behind_prefix(d, rest, Separators::Both);
    if !name.contains('/') {
        assert forall|i: int| 0 <= i < name.len() implies !separates(
            #[trigger] name[i],
            Separators::Both,
        ) by {
            assert(name.contains(name[i]));
        }
        last_component_counts(dir, name, Separators::Both);
    }
}

/// The file name is looked for behind the prefix.
proof fn stands_behind_prefix(prefix: Seq<char>, rest: Seq<char>, by: Separators)
    requires
        windows_prefix(prefix + rest).len == prefix.len(),
        windows_prefix(prefix + rest).by == by,
    ensures
        file_name(prefix + rest, true) == last_name(rest, by),
{
    assert((prefix + rest).skip(prefix.len() as int) =~= rest);
}

/// The prefix of a verbatim path with a drive.
proof fn verbatim_drive(letter: char, rest: Seq<char>)
    requires
        'a' <= letter <= 'z' || 'A' <= letter <= 'Z',
        rest.len() > 0,
        rest.first() == '\\',
    ensures
        windows_prefix(seq!['\\', '\\', '?', '\\', letter, ':'] + rest) == (PrefixView {
            len: 6,
            by: Separators::Backslash,
        }),
{
    reveal_strlit("\\\\?\\");
    reveal_strlit("\\\\?\\UNC\\");
    let path = seq!['\\', '\\', '?', '\\', letter, ':'] + rest;
    assert(path.subrange(0, 4) =~= "\\\\?\\"@);
    if "\\\\?\\UNC\\"@.is_prefix_of(path) {
        assert(path.subrange(0, 8)[5] == path[5]);
    }
    assert(path[4] == letter && path[5] == ':' && path[6] == rest[0]);
    assert(drive_at(path, 4));
}

/// The prefix of a verbatim path with a name.
proof fn verbatim_name(first: Seq<char>, rest: Seq<char>)
    requires
        first.len() > 2,
        first != seq!['U', 'N', 'C'],
        !first.contains('\\'),
        !first.contains('/'),
        rest.len() > 0,
        rest.first() == '\\',
    ensures
        windows_prefix(seq!['\\', '\\', '?', '\\'] + first + rest) == (PrefixView {
            len: first.len() + 4,
            by: Separators::Backslash,
        }),
{
    reveal_strlit("\\\\?\\");
    reveal_strlit("\\\\?\\UNC\\");
    let path = seq!['\\', '\\', '?', '\\'] + first + rest;
    assert(path.subrange(0, 4) =~= "\\\\?\\"@);
    assert forall|i: int| 4 <= i < 4 + first.len() implies path[i] != '\\' && path[i] != '/' by {
        assert(path[i] == first[i - 4]);
        assert(first.contains(first[i - 4]));
    }
    if "\\\\?\\UNC\\"@.is_prefix_of(path) {
        let start = path.subrange(0, 8);
        assert(start[4] == path[4] && start[5] == path[5] && start[6] == path[6] && start[7]
            == path[7]);
        assert(first[0] == 'U' && first[1] == 'N' && first[2] == 'C');
        assert(path[7] == '\\');
        assert(first.len() == 3);
        assert(first =~= seq!['U', 'N', 'C']);
    }
    assert(path[6] == first[2]);
    assert(path[4 + first.len() as int] == rest[0]);
    component_ends_at(path, 4, 4 + first.len(), Separators::Backslash);
}

/// The prefix of a verbatim path with a server and its share.
proof fn verbatim_share(server: Seq<char>, share: Seq<char>, rest: Seq<char>)
    requires
        !server.contains('\\'),
        !share.contains('\\'),
        rest.len() > 0,
        rest.first() == '\\',
    ensures
        windows_prefix(
            seq!['\\', '\\', '?', '\\', 'U', 'N', 'C', '\\'] + server + seq!['\\'] + share + rest,
        ) == (PrefixView {
            len: server.len() + share.len() + 9,
            by: Separators::Backslash,
        }),
{
    let by = Separators::Backslash;
    reveal_strlit("\\\\?\\UNC\\");
    let path = seq!['\\', '\\', '?', '\\', 'U', 'N', 'C', '\\'] + server + seq!['\\'] + share + rest;
    assert(path.subrange(0, 8) =~= "\\\\?\\UNC\\"@);
    let a = 8 + server.len();
    let b = a + 1 + share.len();
    assert forall|i: int| 8 <= i < a implies !separates(#[trigger] path[i], by) by {
        assert(path[i] == server[i - 8]);
        assert(server.contains(server[i - 8]));
    }
    component_ends_at(path, 8, a, by);
    assert forall|i: int| a + 1 <= i < b implies !separates(#[trigger] path[i], by) by {
        assert(path[i] == share[i - a - 1]);
        assert(share.contains(share[i - a - 1]));
    }
    assert(path[b as int] == rest[0]);
    component_ends_at(path, a + 1, b, by);
}

/// The prefix of a path to a device.
proof fn device(first: Seq<char>, rest: Seq<char>)
    requires
        !first.contains('\\'),
        !first.contains('/'),
        rest.len() > 0,
        rest.first() == '\\',
    ensures
        windows_prefix(seq!['\\', '\\', '.', '\\'] + first + rest) == (PrefixView {
            len: first.len() + 4,
            by: Separators::Both,
        }),
{
    let by = Separators::Both;
    reveal_strlit("\\\\?\\");
    reveal_strlit("\\\\?\\UNC\\");
    let path = seq!['\\', '\\', '.', '\\'] + first + rest;
    if "\\\\?\\"@.is_prefix_of(path) {
        assert(path.subrange(0, 4)[2] == path[2]);
    }
    if "\\\\?\\UNC\\"@.is_prefix_of(path) {
        assert(path.subrange(0, 8)[2] == path[2]);
    }
    assert forall|i: int| 4 <= i < 4 + first.len() implies !separates(#[trigger] path[i], by) by {
        assert(path[i] == first[i - 4]);
        assert(first.contains(first[i - 4]));
    }
    assert(path[4 + first.len() as int] == rest[0]);
    component_ends_at(path, 4, 4 + first.len(), by);
}

} // verus!
