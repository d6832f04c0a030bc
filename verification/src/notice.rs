//! The log lines of a bisync job, and the conflicts that they report.
use vstd::prelude::*;
use vstd::string::*;

use crate::path::name_of;
use crate::text::{
    behind_first, behind_last, chars_of, includes, lines_of, slice_of, starts_with, text_of,
    trimmed, without_leading, without_suffix,
};

verus! {

/// A conflict detected by bisync.
#[derive(Debug, Clone)]
pub struct SyncConflict {
    /// The relative path of the file that conflicted.
    pub path: String,
    /// Filename of the path1-side version (`.conflict1` suffix).
    pub conflict1: String,
    /// Filename of the path2-side version (`.conflict2` suffix).
    pub conflict2: String,
}

/// A [`SyncConflict`] with its texts as character sequences.
pub struct ConflictView {
    pub path: Seq<char>,
    pub conflict1: Seq<char>,
    pub conflict2: Seq<char>,
}

impl View for SyncConflict {
    type V = ConflictView;

    open spec fn view(&self) -> ConflictView {
        ConflictView { path: self.path@, conflict1: self.conflict1@, conflict2: self.conflict2@ }
    }
}

/// The views of a list of conflicts.
pub open spec fn conflicts_view(list: Seq<SyncConflict>) -> Seq<ConflictView> {
    Seq::new(list.len(), |i: int| list[i]@)
}

/// The escape character.
pub const ESC: char = '\u{1b}';

/// `c` ends a control sequence.
pub open spec fn ends_sequence(c: char) -> bool {
    '\u{40}' <= c <= '\u{7e}'
}

/// What follows a control sequence whose parameters start at the head of `s`.
pub open spec fn after_sequence(s: Seq<char>) -> Seq<char>
    decreases s.len(),
{
    if s.len() == 0 {
        s
    } else if ends_sequence(s.first()) {
        s.drop_first()
    } else {
        after_sequence(s.drop_first())
    }
}

/// What follows a control sequence is no longer than the text it stands in.
pub proof fn after_sequence_shrinks(s: Seq<char>)
    ensures
        after_sequence(s).len() <= s.len(),
    decreases s.len(),
{
    if s.len() > 0 && !ends_sequence(s.first()) {
        after_sequence_shrinks(s.drop_first());
    }
}

/// `s` without its terminal control sequences: an escape character followed by
/// `[` goes with everything up to the character that ends the sequence, any other
/// escape character goes alone.
pub open spec fn plain(s: Seq<char>) -> Seq<char>
    decreases s.len(),
{
    if s.len() == 0 {
        s
    } else if s.first() != ESC {
        seq![s.first()] + plain(s.drop_first())
    } else if s.len() > 1 && s[1] == '[' {
        proof {
            after_sequence_shrinks(s.skip(2));
        }
        plain(after_sequence(s.skip(2)))
    } else {
        plain(s.drop_first())
    }
}

/// The path that a notice names: what follows its last ` - `.
pub open spec fn notice_path(line: Seq<char>) -> Option<Seq<char>> {
    match crate::text::after_last(line, " - "@) {
        Some(rest) => Some(crate::text::trim(rest)),
        None => None,
    }
}

/// The path to which the notice of a renaming says that the path1-side copy was renamed:
/// what follows the first ` - ` behind the phrase, whatever the path itself holds.
pub open spec fn renamed_path(line: Seq<char>) -> Option<Seq<char>> {
    match crate::text::after_first(line, "Renaming Path1 copy"@) {
        Some(rest) => match crate::text::after_first(rest, " - "@) {
            Some(path) => Some(crate::text::trim(path)),
            None => notice_path(line),
        },
        None => notice_path(line),
    }
}

/// `path` relative to `root`: without `root` at its start, where it stands there,
/// and without leading slashes.
pub open spec fn relative(path: Seq<char>, root: Seq<char>) -> Seq<char> {
    crate::text::trim_start_char(
        if root.is_prefix_of(path) {
            path.skip(root.len() as int)
        } else {
            path
        },
        '/',
    )
}

/// The name by which a conflict calls the file at `path`: its file name, or the whole path
/// where it has none.
pub open spec fn called(path: Seq<char>, windows: bool) -> Seq<char> {
    match crate::path::file_name(path, windows) {
        Some(name) => name,
        None => path,
    }
}

/// The conflict over the file at the relative path `path`.
pub open spec fn conflict_at(path: Seq<char>, windows: bool) -> ConflictView {
    ConflictView {
        path,
        conflict1: called(path, windows) + ".conflict1"@,
        conflict2: called(path, windows) + ".conflict2"@,
    }
}

/// The conflict over the file whose path1-side copy was renamed to `renamed`. The suffix
/// of the renaming goes once: what stands before it is the file's own name.
pub open spec fn conflict_over(
    renamed: Seq<char>,
    root: Seq<char>,
    windows: bool,
) -> ConflictView {
    conflict_at(relative(crate::text::strip_suffix(renamed, ".conflict1"@), root), windows)
}

/// The conflict that one log line reports, if it does.
pub open spec fn conflict_on(line: Seq<char>, root: Seq<char>, windows: bool) -> Option<
    ConflictView,
> {
    let line = plain(line);
    if crate::text::contains(line, "conflict1"@) && crate::text::contains(
        line,
        "Renaming Path1 copy"@,
    ) {
        match renamed_path(line) {
            Some(renamed) => Some(conflict_over(renamed, root, windows)),
            None => None,
        }
    } else {
        None
    }
}

/// The conflicts that a list of log lines reports, in the order of the lines.
pub open spec fn conflicts_on(lines: Seq<Seq<char>>, root: Seq<char>, windows: bool) -> Seq<
    ConflictView,
>
    decreases lines.len(),
{
    if lines.len() == 0 {
        seq![]
    } else {
        let earlier = conflicts_on(lines.drop_last(), root, windows);
        match conflict_on(lines.last(), root, windows) {
            Some(conflict) => earlier.push(conflict),
            None => earlier,
        }
    }
}

/// The conflicts that the output of a bisync job reports.
pub open spec fn conflicts_in(output: Seq<char>, root: Seq<char>, windows: bool) -> Seq<
    ConflictView,
> {
    conflicts_on(crate::text::lines(output), root, windows)
}

/// Removes terminal control sequences from a run of characters.
fn plain_chars(s: &[char]) -> (out: Vec<char>)
    ensures
        out@ == plain(s@),
{
    let mut out: Vec<char> = Vec::new();
    let mut i: usize = 0;
    assert(s@.skip(0) == s@);
    assert(out@ + plain(s@) == plain(s@));
    while i < s.len()
        invariant
            i <= s@.len(),
            out@ + plain(s@.skip(i as int)) == plain(s@),
        decreases s@.len() - i,
    {
        let ghost rest = s@.skip(i as int);
        let ghost done = out@;
        if s[i] == ESC {
            i = i + 1;
            assert(rest.drop_first() == s@.skip(i as int));
            if i < s.len() && s[i] == '[' {
                i = i + 1;
                assert(rest.skip(2) == s@.skip(i as int));
                let ghost from = s@.skip(i as int);
                while i < s.len() && !('\u{40}' <= s[i] && s[i] <= '\u{7e}')
                    invariant
                        i <= s@.len(),
                        s@.len() - i < rest.len(),
                        after_sequence(s@.skip(i as int)) == after_sequence(from),
                    decreases s@.len() - i,
                {
                    assert(s@.skip(i as int).drop_first() == s@.skip(i + 1));
                    i = i + 1;
                }
                if i < s.len() {
                    assert(s@.skip(i as int).drop_first() == s@.skip(i + 1));
                    i = i + 1;
                }
                assert(s@.skip(i as int) == after_sequence(from));
            }
            assert(plain(rest) == plain(s@.skip(i as int)));
        } else {
            out.push(s[i]);
            assert(rest.drop_first() == s@.skip(i + 1));
            i = i + 1;
            assert(out@ + plain(s@.skip(i as int)) == done + plain(rest));
        }
    }
    assert(out@ + plain(s@.skip(i as int)) == out@);
    out
}

/// Removes ANSI escape sequences (`\x1b[...m`) from a string. rcd colorizes its
/// log/NOTICE output, which would otherwise corrupt parsed paths.
pub fn strip_ansi(s: &str) -> (text: String)
    ensures
        text@ == plain(s@),
{
    let chars = chars_of(s);
    let out = plain_chars(chars.as_slice());
    text_of(out.as_slice())
}

/// The path in a notice, as characters.
fn path_in_notice(line: &[char]) -> (path: Option<Vec<char>>)
    ensures
        path matches Some(p) ==> notice_path(line@) == Some(p@),
        path is None ==> notice_path(line@) is None,
{
    let marker = chars_of(" - ");
    match behind_last(line, marker.as_slice()) {
        Some(rest) => Some(trimmed(rest.as_slice())),
        None => None,
    }
}

/// The path in a notice.
///
/// Lines look like `"- Path1    Renaming Path1 copy       - /abs/path/file.conflict1"`:
/// the path is what follows the last `" - "`.
pub fn extract_path_from_notice(line: &str) -> (path: Option<String>)
    ensures
        path matches Some(p) ==> notice_path(line@) == Some(p@),
        path is None ==> notice_path(line@) is None,
{
    let chars = chars_of(line);
    match path_in_notice(chars.as_slice()) {
        Some(p) => Some(text_of(p.as_slice())),
        None => None,
    }
}

/// The path in the notice of a renaming, as characters.
fn path_in_renaming(line: &[char]) -> (path: Option<Vec<char>>)
    ensures
        path matches Some(p) ==> renamed_path(line@) == Some(p@),
        path is None ==> renamed_path(line@) is None,
{
    let phrase = chars_of("Renaming Path1 copy");
    let marker = chars_of(" - ");
    if let Some(rest) = behind_first(line, phrase.as_slice()) {
        if let Some(path) = behind_first(rest.as_slice(), marker.as_slice()) {
            return Some(trimmed(path.as_slice()));
        }
    }
    path_in_notice(line)
}

/// The conflict over a renamed file.
fn conflict_about(renamed: &[char], root: &[char], windows: bool) -> (conflict: SyncConflict)
    ensures
        conflict@ == conflict_over(renamed@, root@, windows),
{
    let suffix = chars_of(".conflict1");
    let base = without_suffix(renamed, suffix.as_slice());
    let below = if starts_with(base.as_slice(), root) {
        assert(base@.subrange(root@.len() as int, base@.len() as int) == base@.skip(
            root@.len() as int,
        ));
        slice_of(base.as_slice(), root.len(), base.len())
    } else {
        base
    };
    let path = without_leading(below.as_slice(), '/');
    let name = match name_of(path.as_slice(), windows) {
        Some(n) => text_of(n.as_slice()),
        None => text_of(path.as_slice()),
    };
    let conflict1 = name.clone().concat(".conflict1");
    let conflict2 = name.concat(".conflict2");
    SyncConflict { path: text_of(path.as_slice()), conflict1, conflict2 }
}

/// The conflicts that the output of a bisync job reports, on a platform.
pub fn conflicts_of(output: &str, path1_root: &str, windows: bool) -> (list: Vec<SyncConflict>)
    ensures
        conflicts_view(list@) == conflicts_in(output@, path1_root@, windows),
{
    let chars = chars_of(output);
    let root = chars_of(path1_root);
    let raw_lines = lines_of(chars.as_slice());
    let tag = chars_of("conflict1");
    let verb = chars_of("Renaming Path1 copy");
    let ghost lines = crate::text::lines(output@);
    let mut list: Vec<SyncConflict> = Vec::new();
    let mut i: usize = 0;
    while i < raw_lines.len()
        invariant
            i <= raw_lines@.len(),
            lines == crate::text::lines_view(raw_lines@),
            root@ == path1_root@,
            tag@ == "conflict1"@,
            verb@ == "Renaming Path1 copy"@,
            conflicts_view(list@) == conflicts_on(lines.take(i as int), root@, windows),
        decreases raw_lines@.len() - i,
    {
        let ghost before = conflicts_view(list@);
        let line = plain_chars(raw_lines[i].as_slice());
        proof {
            assert(lines.take(i + 1).drop_last() == lines.take(i as int));
            assert(lines.take(i + 1).last() == raw_lines@[i as int]@);
        }
        if includes(line.as_slice(), tag.as_slice()) && includes(line.as_slice(), verb.as_slice()) {
            if let Some(renamed) = path_in_renaming(line.as_slice()) {
                let conflict = conflict_about(renamed.as_slice(), root.as_slice(), windows);
                let ghost found = conflict@;
                list.push(conflict);
                assert(conflicts_view(list@) == before.push(found));
            }
        }
        i = i + 1;
    }
    assert(lines.take(i as int) == lines);
    list
}

/// Stripped text holds no escape character.
pub proof fn plain_has_no_escape(s: Seq<char>)
    ensures
        !plain(s).contains(ESC),
    decreases s.len(),
{
    if s.len() == 0 {
    } else if s.first() != ESC {
        plain_has_no_escape(s.drop_first());
        let rest = plain(s.drop_first());
        assert forall|i: int| 0 <= i < plain(s).len() implies plain(s)[i] != ESC by {
            if i > 0 {
                assert(plain(s)[i] == rest[i - 1]);
            }
        }
    } else if s.len() > 1 && s[1] == '[' {
        after_sequence_shrinks(s.skip(2));
        plain_has_no_escape(after_sequence(s.skip(2)));
    } else {
        plain_has_no_escape(s.drop_first());
    }
}

/// Stripping keeps text before the first escape character as it is.
pub proof fn plain_keeps_start(text: Seq<char>, rest: Seq<char>)
    requires
        !text.contains(ESC),
    ensures
        plain(text + rest) == text + plain(rest),
    decreases text.len(),
{
    if text.len() == 0 {
        assert(text + rest == rest);
        assert(text + plain(rest) == plain(rest));
    } else {
        assert(text[0] != ESC);
        let tail = text.drop_first();
        assert(!tail.contains(ESC)) by {
            if tail.contains(ESC) {
                let i = choose|i: int| 0 <= i < tail.len() && tail[i] == ESC;
                assert(text[i + 1] == ESC);
            }
        }
        assert((text + rest).drop_first() == tail + rest);
        plain_keeps_start(tail, rest);
        assert(seq![text.first()] + (tail + plain(rest)) == text + plain(rest));
    }
}

/// Text without escape characters is left as it is.
pub proof fn plain_keeps_plain_text(text: Seq<char>)
    requires
        !text.contains(ESC),
    ensures
        plain(text) == text,
{
    plain_keeps_start(text, seq![]);
    assert(text + Seq::<char>::empty() == text);
}

/// Stripping twice is stripping once.
pub proof fn plain_is_final(s: Seq<char>)
    ensures
        plain(plain(s)) == plain(s),
{
    plain_has_no_escape(s);
    plain_keeps_plain_text(plain(s));
}

/// What follows a control sequence stands behind the character that ends it.
proof fn sequence_ends(params: Seq<char>, end: char, rest: Seq<char>)
    requires
        forall|i: int| 0 <= i < params.len() ==> !ends_sequence(#[trigger] params[i]),
        ends_sequence(end),
    ensures
        after_sequence(params + seq![end] + rest) == rest,
    decreases params.len(),
{
    let s = params + seq![end] + rest;
    if params.len() == 0 {
        assert(s.first() == end);
        assert(s.drop_first() == rest);
    } else {
        assert(s.first() == params[0]);
        assert(s.drop_first() == params.drop_first() + seq![end] + rest);
        assert forall|i: int| 0 <= i < params.drop_first().len() implies !ends_sequence(
            #[trigger] params.drop_first()[i],
        ) by {
            assert(params.drop_first()[i] == params[i + 1]);
        }
        sequence_ends(params.drop_first(), end, rest);
    }
}

/// A colour code vanishes: what stands before it is kept, what stands behind it is
/// read as if the code were not there.
pub proof fn colour_code_vanishes(
    before: Seq<char>,
    params: Seq<char>,
    end: char,
    behind: Seq<char>,
)
    requires
        !before.contains(ESC),
        forall|i: int| 0 <= i < params.len() ==> !ends_sequence(#[trigger] params[i]),
        ends_sequence(end),
    ensures
        plain(before + (seq![ESC, '['] + params + seq![end] + behind)) == before + plain(behind),
{
    let code = seq![ESC, '['] + params + seq![end] + behind;
    plain_keeps_start(before, code);
    assert(code.first() == ESC && code[1] == '[');
    assert(code.skip(2) == params + seq![end] + behind);
    sequence_ends(params, end, behind);
}

/// Colour does not matter: a line reports what it reports without its control
/// sequences.
pub proof fn colour_does_not_matter(line: Seq<char>, root: Seq<char>, windows: bool)
    ensures
        conflict_on(line, root, windows) == conflict_on(plain(line), root, windows),
{
    plain_is_final(line);
}

/// The conflicts on two lists of lines together are those on the first, then those on
/// the second.
pub proof fn conflicts_on_joined_lines(a: Seq<Seq<char>>, b: Seq<Seq<char>>, root: Seq<char>, windows: bool)
    ensures
        conflicts_on(a + b, root, windows) == conflicts_on(a, root, windows) + conflicts_on(b, root, windows),
    decreases b.len(),
{
    if b.len() == 0 {
        assert(a + b == a);
        assert(conflicts_on(a, root, windows) + conflicts_on(b, root, windows) == conflicts_on(a, root, windows));
    } else {
        assert((a + b).drop_last() == a + b.drop_last());
        assert((a + b).last() == b.last());
        conflicts_on_joined_lines(a, b.drop_last(), root, windows);
    }
}

/// Output can be parsed piece by piece, where a piece ends at a line ending: the
/// conflicts of the pieces, in order, are those of the whole.
pub proof fn conflicts_of_pieces(a: Seq<char>, b: Seq<char>, root: Seq<char>, windows: bool)
    requires
        a.len() == 0 || a.last() == '\n',
    ensures
        conflicts_in(a + b, root, windows) == conflicts_in(a, root, windows) + conflicts_in(b, root, windows),
{
    crate::text::lines_of_whole(a, b);
    conflicts_on_joined_lines(crate::text::lines(a), crate::text::lines(b), root, windows);
}

/// There are no more conflicts than lines, and each comes from a line that reports it.
pub proof fn conflicts_come_from_lines(lines: Seq<Seq<char>>, root: Seq<char>, windows: bool)
    ensures
        conflicts_on(lines, root, windows).len() <= lines.len(),
        forall|k: int|
            0 <= k < conflicts_on(lines, root, windows).len() ==> exists|i: int|
                0 <= i < lines.len() && conflict_on(#[trigger] lines[i], root, windows) == Some(
                    #[trigger] conflicts_on(lines, root, windows)[k],
                ),
    decreases lines.len(),
{
    if lines.len() > 0 {
        let earlier = lines.drop_last();
        conflicts_come_from_lines(earlier, root, windows);
        let found = conflicts_on(lines, root, windows);
        assert forall|k: int| 0 <= k < found.len() implies exists|i: int|
            0 <= i < lines.len() && conflict_on(#[trigger] lines[i], root, windows) == Some(
                #[trigger] found[k],
            ) by {
            if k < conflicts_on(earlier, root, windows).len() {
                assert(found[k] == conflicts_on(earlier, root, windows)[k]);
                let i = choose|i: int|
                    0 <= i < earlier.len() && conflict_on(#[trigger] earlier[i], root, windows) == Some(
                        conflicts_on(earlier, root, windows)[k],
                    );
                assert(lines[i] == earlier[i]);
            } else {
                assert(conflict_on(lines[lines.len() - 1], root, windows) == Some(found[k]));
            }
        }
    }
}

/// Leading copies of a character are gone after trimming them.
proof fn no_leading_char(s: Seq<char>, c: char)
    ensures
        crate::text::trim_start_char(s, c).len() <= s.len(),
        crate::text::trim_start_char(s, c) == s.skip(
            s.len() - crate::text::trim_start_char(s, c).len(),
        ),
        crate::text::trim_start_char(s, c).len() > 0 ==> crate::text::trim_start_char(s, c).first()
            != c,
    decreases s.len(),
{
    if s.len() > 0 && s.first() == c {
        no_leading_char(s.drop_first(), c);
    }
}

/// The path of a conflict is relative and is that of the file itself: it does not start
/// with a slash, and bisync has renamed the file by putting `.conflict1` behind it. The two
/// versions are the same name with one suffix each.
pub proof fn conflict_names_the_file(renamed: Seq<char>, root: Seq<char>, windows: bool)
    ensures
        ({
            let conflict = conflict_over(renamed, root, windows);
            &&& conflict.path.len() > 0 ==> conflict.path.first() != '/'
            &&& ".conflict1"@.is_suffix_of(renamed) ==> (conflict.path
                + ".conflict1"@).is_suffix_of(renamed)
            &&& conflict.conflict1 == called(conflict.path, windows) + ".conflict1"@
            &&& conflict.conflict2 == called(conflict.path, windows) + ".conflict2"@
        }),
{
    let suffix = ".conflict1"@;
    let base = crate::text::strip_suffix(renamed, suffix);
    let below = if root.is_prefix_of(base) {
        base.skip(root.len() as int)
    } else {
        base
    };
    no_leading_char(below, '/');
    let path = relative(base, root);
    if suffix.is_suffix_of(renamed) {
        assert(renamed == base + suffix);
        let whole = path + suffix;
        assert(path == base.skip(base.len() - path.len()));
        assert(renamed.subrange(renamed.len() - whole.len(), renamed.len() as int) == whole);
    }
}

/// The platform matters for backslashes and drives only: the path of a conflict is the same
/// everywhere, and the whole conflict is where the path holds neither.
pub proof fn platform_matters_for_windows_paths_only(renamed: Seq<char>, root: Seq<char>)
    ensures
        conflict_over(renamed, root, true).path == conflict_over(renamed, root, false).path,
        ({
            let path = conflict_over(renamed, root, true).path;
            !path.contains('\\') && !crate::path::drive_at(path, 0)
        }) ==> conflict_over(renamed, root, true) == conflict_over(renamed, root, false),
{
    let path = conflict_over(renamed, root, true).path;
    conflict_names_the_file(renamed, root, true);
    if !path.contains('\\') && !crate::path::drive_at(path, 0) {
        crate::path::file_names_are_alike(path);
    }
}

/// The line by which bisync says that it has renamed the path1-side copy of `path`
/// below `root`.
pub open spec fn rename_notice(
    head: Seq<char>,
    gap: Seq<char>,
    root: Seq<char>,
    path: Seq<char>,
) -> Seq<char> {
    head + "Renaming Path1 copy"@ + gap + " - "@ + (root + "/"@ + path + ".conflict1"@)
}

/// What follows the phrase of a rename notice, where nothing before it holds the phrase.
proof fn phrase_is_found(head: Seq<char>, rest: Seq<char>)
    requires
        !crate::text::contains(head, "Renaming Path1 copy"@),
    ensures
        crate::text::contains(head + "Renaming Path1 copy"@ + rest, "Renaming Path1 copy"@),
        crate::text::after_first(head + "Renaming Path1 copy"@ + rest, "Renaming Path1 copy"@)
            == Some(rest),
{
    reveal_strlit("Renaming Path1 copy");
    let phrase = "Renaming Path1 copy"@;
    let text = head + phrase + rest;
    assert forall|earlier: int| 0 <= earlier < head.len() implies !crate::text::occurs_at(
        text,
        phrase,
        earlier,
    ) by {
        if crate::text::occurs_at(text, phrase, earlier) {
            let found = text.subrange(earlier, earlier + phrase.len());
            if earlier + phrase.len() <= head.len() {
                assert(head.subrange(earlier, earlier + phrase.len()) == found);
                assert(crate::text::occurs_at(head, phrase, earlier));
            } else {
                // The phrase holds its first letter once, so no two copies of it overlap.
                let i = head.len() - earlier;
                assert(found[i] == text[head.len() as int]);
                assert(phrase[0] == 'R');
                assert(phrase[i] != 'R');
            }
        }
    }
    crate::text::after_first_marker(head, phrase, rest);
}

/// What follows the separator of a rename notice, where the gap before it holds none.
proof fn separator_is_found(gap: Seq<char>, rest: Seq<char>)
    requires
        !crate::text::contains(gap + " "@, " - "@),
    ensures
        crate::text::after_first(gap + " - "@ + rest, " - "@) == Some(rest),
{
    reveal_strlit(" - ");
    reveal_strlit(" ");
    let marker = " - "@;
    let text = gap + marker + rest;
    assert forall|earlier: int| 0 <= earlier < gap.len() implies !crate::text::occurs_at(
        text,
        marker,
        earlier,
    ) by {
        if crate::text::occurs_at(text, marker, earlier) {
            let found = text.subrange(earlier, earlier + marker.len());
            assert(found[1] == text[earlier + 1]);
            assert(text[gap.len() as int] == ' ');
            assert((gap + " "@).subrange(earlier, earlier + marker.len()) == found);
            assert(crate::text::occurs_at(gap + " "@, marker, earlier));
        }
    }
    crate::text::after_first_marker(gap, marker, rest);
}

/// The conflict over a file that was renamed below the root is at its path.
proof fn renamed_below_root(root: Seq<char>, path: Seq<char>, windows: bool)
    requires
        path.len() > 0 ==> path.first() != '/',
    ensures
        conflict_over(root + "/"@ + path + ".conflict1"@, root, windows) == conflict_at(
            path,
            windows,
        ),
{
    reveal_strlit("/");
    let suffix = ".conflict1"@;
    let base = root + "/"@ + path;
    let renamed = base + suffix;
    assert(renamed.subrange(base.len() as int, renamed.len() as int) == suffix);
    assert(renamed.take(renamed.len() - suffix.len()) == base);
    assert(base.subrange(0, root.len() as int) == root);
    let below = base.skip(root.len() as int);
    assert(below == "/"@ + path);
    assert(below.drop_first() == path);
    assert(crate::text::trim_start_char(path, '/') == path);
    assert(relative(base, root) == path);
}

/// A rename notice, in colour or not, is read back: the conflict is over the very path
/// that bisync renamed, whatever the path holds. The phrase stands in the notice once
/// before the path, and so does the separator behind the phrase; the root does not start
/// blank, and the path is relative.
pub proof fn rename_notice_is_read_back(
    line: Seq<char>,
    head: Seq<char>,
    gap: Seq<char>,
    root: Seq<char>,
    path: Seq<char>,
    windows: bool,
)
    requires
        plain(line) == rename_notice(head, gap, root, path),
        !crate::text::contains(head, "Renaming Path1 copy"@),
        !crate::text::contains(gap + " "@, " - "@),
        root.len() > 0 ==> !crate::text::is_white_space(root.first()),
        path.len() > 0 ==> path.first() != '/',
    ensures
        conflict_on(line, root, windows) == Some(conflict_at(path, windows)),
{
    let text = plain(line);
    let renamed = root + "/"@ + path + ".conflict1"@;
    let rest = gap + " - "@ + renamed;
    assert(text == head + "Renaming Path1 copy"@ + rest);
    phrase_is_found(head, rest);
    separator_is_found(gap, renamed);
    assert(crate::text::trim(renamed) == renamed) by {
        reveal_strlit("/");
        reveal_strlit(".conflict1");
        assert(!crate::text::is_white_space(renamed.first()));
        assert(renamed.last() == '1');
    }
    assert(renamed_path(text) == Some(renamed));
    assert(crate::text::contains(text, "conflict1"@)) by {
        reveal_strlit(".conflict1");
        reveal_strlit("conflict1");
        assert(text.subrange(text.len() - 9, text.len() as int) == "conflict1"@);
        assert(crate::text::occurs_at(text, "conflict1"@, text.len() - 9));
    }
    renamed_below_root(root, path, windows);
}

/// Stripping, stated on the text itself: an escape character, `[`, and all behind it up to
/// and with the first character from `@` to `~` go, or all the rest where there is none; any
/// other escape character goes alone; everything else stays.
pub proof fn control_sequences_go(
    before: Seq<char>,
    params: Seq<char>,
    end: char,
    behind: Seq<char>,
)
    requires
        !before.contains('\u{1b}'),
        forall|i: int|
            0 <= i < params.len() ==> !('\u{40}' <= #[trigger] params[i] <= '\u{7e}'),
    ensures
        plain(before) == before,
        '\u{40}' <= end <= '\u{7e}' ==> plain(
            before + (seq!['\u{1b}', '['] + params + seq![end] + behind),
        ) == before + plain(behind),
        plain(before + (seq!['\u{1b}', '['] + params)) == before,
        behind.len() == 0 || behind.first() != '[' ==> plain(
            before + (seq!['\u{1b}'] + behind),
        ) == before + plain(behind),
{
    plain_keeps_plain_text(before);
    if '\u{40}' <= end <= '\u{7e}' {
        colour_code_vanishes(before, params, end, behind);
    }
    let open = seq!['\u{1b}', '['] + params;
    plain_keeps_start(before, open);
    assert(open.first() == ESC && open[1] == '[');
    assert(open.skip(2) =~= params);
    open_sequence_takes_all(params);
    assert(plain(open) == plain(Seq::<char>::empty()));
    assert(plain(Seq::<char>::empty()) == Seq::<char>::empty());
    assert(before + Seq::<char>::empty() =~= before);
    if behind.len() == 0 || behind.first() != '[' {
        let lone = seq!['\u{1b}'] + behind;
        plain_keeps_start(before, lone);
        assert(lone.first() == ESC);
        assert(lone.drop_first() =~= behind);
        if lone.len() > 1 {
            assert(lone[1] == behind[0]);
        }
    }
}

/// A control sequence that is not ended takes the rest with it.
proof fn open_sequence_takes_all(params: Seq<char>)
    requires
        forall|i: int| 0 <= i < params.len() ==> !ends_sequence(#[trigger] params[i]),
    ensures
        after_sequence(params) == Seq::<char>::empty(),
    decreases params.len(),
{
    if params.len() > 0 {
        assert(params.first() == params[0]);
        assert forall|i: int| 0 <= i < params.drop_first().len() implies !ends_sequence(
            #[trigger] params.drop_first()[i],
        ) by {
            assert(params.drop_first()[i] == params[i + 1]);
        }
        open_sequence_takes_all(params.drop_first());
    } else {
        assert(params =~= Seq::<char>::empty());
    }
}

/// The conflict over a file that was renamed below the root: its path is the one below the
/// root, and its two versions are called by what stands behind the last separator of it,
/// whatever directory it is in.
pub proof fn versions_are_called_by_the_file(
    root: Seq<char>,
    dir: Seq<char>,
    name: Seq<char>,
    windows: bool,
)
    requires
        (dir + name).first() != '/',
        name.len() > 0,
        name != seq!['.'],
        name != seq!['.', '.'],
        !name.contains('/'),
        dir.len() == 0 || dir.last() == '/' || (windows && dir.last() == '\\'),
        windows ==> !name.contains('\\'),
        windows && (dir + name).len() >= 2 ==> (dir + name)[1] != ':' && !((dir + name)[0] == '\\'
            && ((dir + name)[1] == '/' || (dir + name)[1] == '\\')),
    ensures
        conflict_over(root + "/"@ + (dir + name) + ".conflict1"@, root, windows) == (ConflictView {
            path: dir + name,
            conflict1: name + ".conflict1"@,
            conflict2: name + ".conflict2"@,
        }),
{
    renamed_below_root(root, dir + name, windows);
    if windows {
        crate::path::names_on_windows('c', dir, name);
    } else {
        crate::path::names_on_unix(dir, name, seq![]);
    }
}

/// A renamed path that is not below the root keeps its directories, but for slashes at its
/// start. Where the path has no file name, the versions are called by the path.
pub proof fn paths_outside_the_root_are_kept(
    slashes: Seq<char>,
    dir: Seq<char>,
    name: Seq<char>,
    root: Seq<char>,
)
    requires
        forall|i: int| 0 <= i < slashes.len() ==> #[trigger] slashes[i] == '/',
        dir.len() == 0 || dir.last() == '/',
        !name.contains('/'),
        name.len() > 0,
        (dir + name).first() != '/',
        forall|rest: Seq<char>| slashes + (dir + name) != #[trigger] (root + rest),
    ensures
        conflict_over(slashes + (dir + name) + ".conflict1"@, root, false).path == dir + name,
        conflict_over(slashes + (dir + name), root, false).path == dir + name || exists|
            base: Seq<char>,
        |
            slashes + (dir + name) == #[trigger] (base + ".conflict1"@),
        name != seq!['.'] && name != seq!['.', '.'] ==> {
            let conflict = conflict_over(
                slashes + (dir + name) + ".conflict1"@,
                root,
                false,
            );
            conflict.conflict1 == name + ".conflict1"@ && conflict.conflict2 == name
                + ".conflict2"@
        },
        name == seq!['.', '.'] ==> {
            let conflict = conflict_over(
                slashes + (dir + name) + ".conflict1"@,
                root,
                false,
            );
            conflict.conflict1 == dir + name + ".conflict1"@ && conflict.conflict2 == dir + name
                + ".conflict2"@
        },
{
    let path = dir + name;
    let base = slashes + path;
    assert(!root.is_prefix_of(base)) by {
        if root.is_prefix_of(base) {
            let rest = base.skip(root.len() as int);
            assert(base.subrange(0, root.len() as int) =~= root);
            assert(base =~= root + rest) by {
                assert(base.take(root.len() as int) =~= root);
            }
        }
    }
    crate::text::one_suffix_is_taken_off(base, ".conflict1"@);
    crate::text::leading_copies_are_taken_off(slashes, path, '/');
    crate::path::names_on_unix(dir, name, seq![]);
}

/// A rename notice reports the conflict over the renamed file, stated on what bisync
/// prints: a head without the phrase, the phrase, a gap without the separator, the
/// separator, and the renamed path.
pub proof fn rename_notice_reports_the_file(
    line: Seq<char>,
    head: Seq<char>,
    gap: Seq<char>,
    root: Seq<char>,
    dir: Seq<char>,
    name: Seq<char>,
    windows: bool,
)
    requires
        plain(line) == head + "Renaming Path1 copy"@ + gap + " - "@ + (root + "/"@ + (dir + name)
            + ".conflict1"@),
        forall|x: Seq<char>, y: Seq<char>| head != #[trigger] (x + "Renaming Path1 copy"@ + y),
        forall|x: Seq<char>, y: Seq<char>| gap + " "@ != #[trigger] (x + " - "@ + y),
        root.len() > 0 ==> !crate::text::is_white_space(root.first()),
        (dir + name).first() != '/',
        name.len() > 0,
        name != seq!['.'],
        name != seq!['.', '.'],
        !name.contains('/'),
        dir.len() == 0 || dir.last() == '/' || (windows && dir.last() == '\\'),
        windows ==> !name.contains('\\'),
        windows && (dir + name).len() >= 2 ==> (dir + name)[1] != ':' && !((dir + name)[0] == '\\'
            && ((dir + name)[1] == '/' || (dir + name)[1] == '\\')),
    ensures
        conflict_on(line, root, windows) == Some(
            ConflictView {
                path: dir + name,
                conflict1: name + ".conflict1"@,
                conflict2: name + ".conflict2"@,
            },
        ),
{
    crate::text::contained_text_has_two_sides(head, "Renaming Path1 copy"@);
    crate::text::contained_text_has_two_sides(gap + " "@, " - "@);
    rename_notice_is_read_back(line, head, gap, root, dir + name, windows);
    renamed_below_root(root, dir + name, windows);
    versions_are_called_by_the_file(root, dir, name, windows);
}

/// No other line reports a conflict: not one without the phrase, nor one without the suffix
/// of the renaming, nor one without a separator.
pub proof fn other_lines_report_nothing(line: Seq<char>, root: Seq<char>, windows: bool)
    requires
        (forall|x: Seq<char>, y: Seq<char>|
            plain(line) != #[trigger] (x + "Renaming Path1 copy"@ + y)) || (forall|
            x: Seq<char>,
            y: Seq<char>,
        |
            plain(line) != #[trigger] (x + "conflict1"@ + y)) || (forall|
            x: Seq<char>,
            y: Seq<char>,
        |
            plain(line) != #[trigger] (x + " - "@ + y)),
    ensures
        conflict_on(line, root, windows) is None,
{
    let text = plain(line);
    crate::text::contained_text_has_two_sides(text, "Renaming Path1 copy"@);
    crate::text::contained_text_has_two_sides(text, "conflict1"@);
    crate::text::contained_text_has_two_sides(text, " - "@);
    if !crate::text::contains(text, " - "@) && crate::text::contains(
        text,
        "Renaming Path1 copy"@,
    ) {
        let phrase = "Renaming Path1 copy"@;
        let at = first_occurrence(text, phrase);
        let chosen = choose|at: int| crate::text::is_first_occurrence(text, phrase, at);
        let rest = text.skip(chosen + phrase.len());
        if crate::text::contains(rest, " - "@) {
            let k = choose|k: int| crate::text::occurs_at(rest, " - "@, k);
            let from = chosen + phrase.len() + k;
            assert(text.subrange(from, from + " - "@.len()) =~= rest.subrange(
                k,
                k + " - "@.len(),
            ));
            assert(crate::text::occurs_at(text, " - "@, from));
        }
    }
}

/// A text that occurs occurs a first time.
proof fn first_occurrence(s: Seq<char>, pattern: Seq<char>) -> (at: int)
    requires
        crate::text::contains(s, pattern),
    ensures
        crate::text::is_first_occurrence(s, pattern, at),
{
    let some = choose|at: int| crate::text::occurs_at(s, pattern, at);
    first_up_to(s, pattern, some)
}

/// A text that occurs at a position occurs a first time there or before.
proof fn first_up_to(s: Seq<char>, pattern: Seq<char>, known: int) -> (at: int)
    requires
        crate::text::occurs_at(s, pattern, known),
    ensures
        crate::text::is_first_occurrence(s, pattern, at),
    decreases known,
{
    if exists|k: int| k < known && crate::text::occurs_at(s, pattern, k) {
        let k = choose|k: int| k < known && crate::text::occurs_at(s, pattern, k);
        first_up_to(s, pattern, k)
    } else {
        known
    }
}

/// Output is read line by line: the conflicts of the first line, if any, then those of the
/// rest. A carriage return at the end of the line does not belong to it.
pub proof fn output_is_read_line_by_line(
    line: Seq<char>,
    rest: Seq<char>,
    root: Seq<char>,
    windows: bool,
)
    requires
        !line.contains('\n'),
        line.len() > 0 ==> line.last() != '\r',
    ensures
        conflicts_in(seq![], root, windows) == Seq::<ConflictView>::empty(),
        conflict_on(line, root, windows) matches Some(conflict) ==> {
            &&& conflicts_in(line + seq!['\n'] + rest, root, windows) == seq![conflict]
                + conflicts_in(rest, root, windows)
            &&& conflicts_in(line + seq!['\r'] + seq!['\n'] + rest, root, windows) == seq![conflict]
                + conflicts_in(rest, root, windows)
            &&& line.len() > 0 ==> conflicts_in(line, root, windows) == seq![conflict]
        },
        conflict_on(line, root, windows) is None ==> {
            &&& conflicts_in(line + seq!['\n'] + rest, root, windows) == conflicts_in(
                rest,
                root,
                windows,
            )
            &&& conflicts_in(line + seq!['\r'] + seq!['\n'] + rest, root, windows)
                == conflicts_in(rest, root, windows)
            &&& conflicts_in(line, root, windows) == Seq::<ConflictView>::empty()
        },
{
    let returned = line + seq!['\r'];
    assert(!returned.contains('\n')) by {
        if returned.contains('\n') {
            let i = choose|i: int| 0 <= i < returned.len() && returned[i] == '\n';
            if i < line.len() {
                assert(line[i] == '\n');
            }
        }
    }
    assert(returned.last() == '\r');
    assert(returned.drop_last() =~= line);
    crate::text::lines_are_split_off(line, rest);
    crate::text::lines_are_split_off(returned, rest);
    let one = seq![line];
    conflicts_on_joined_lines(one, crate::text::lines(rest), root, windows);
    assert(one.drop_last() =~= Seq::<Seq<char>>::empty());
    assert(one.last() == line);
    assert(conflicts_on(Seq::<Seq<char>>::empty(), root, windows) =~= Seq::<ConflictView>::empty());
    if let Some(conflict) = conflict_on(line, root, windows) {
        assert(conflicts_on(one, root, windows) =~= seq![conflict]);
    } else {
        assert(conflicts_on(one, root, windows) =~= Seq::<ConflictView>::empty());
        assert(Seq::<ConflictView>::empty() + conflicts_in(rest, root, windows) =~= conflicts_in(
            rest,
            root,
            windows,
        ));
    }
    if line.len() == 0 {
        assert(line =~= Seq::<char>::empty());
    }
}

/// The path in a notice is what stands behind its last separator, without blanks around it.
/// In a notice of a renaming it is what stands behind the first separator that follows the
/// phrase, where one does.
pub proof fn notices_name_a_path(
    head: Seq<char>,
    blank: Seq<char>,
    path: Seq<char>,
    after: Seq<char>,
)
    requires
        forall|i: int| 0 <= i < blank.len() ==> crate::text::is_white_space(#[trigger] blank[i]),
        forall|i: int| 0 <= i < after.len() ==> crate::text::is_white_space(#[trigger] after[i]),
        path.len() > 0 ==> !crate::text::is_white_space(path.first())
            && !crate::text::is_white_space(path.last()),
        forall|x: Seq<char>, y: Seq<char>|
            "- "@ + (blank + path + after) != #[trigger] (x + " - "@ + y),
    ensures
        notice_path(head + " - "@ + (blank + path + after)) == Some(path),
        (forall|x: Seq<char>, y: Seq<char>|
            head + " - "@ + (blank + path + after) != #[trigger] (x + "Renaming Path1 copy"@ + y))
            ==> renamed_path(head + " - "@ + (blank + path + after)) == Some(path),
{
    reveal_strlit(" - ");
    reveal_strlit("- ");
    assert(" - "@.drop_first() =~= "- "@);
    let rest = blank + path + after;
    let line = head + " - "@ + rest;
    crate::text::text_behind_markers(head, " - "@, rest);
    crate::text::trimming_keeps_the_core(blank, path, after);
    crate::text::contained_text_has_two_sides(line, "Renaming Path1 copy"@);
}

/// The view of a list of conflicts has each of them, with its three texts.
pub proof fn conflicts_are_viewed_whole(list: Seq<SyncConflict>, i: int)
    ensures
        conflicts_view(list).len() == list.len(),
        0 <= i < list.len() ==> conflicts_view(list)[i] == (ConflictView {
            path: list[i].path@,
            conflict1: list[i].conflict1@,
            conflict2: list[i].conflict2@,
        }),
{
}

/// Where no separator follows the phrase of a renaming, the path is the one behind the last
/// separator of the line.
pub proof fn renamings_without_separator(head: Seq<char>, rest: Seq<char>)
    requires
        forall|x: Seq<char>, y: Seq<char>| head != #[trigger] (x + "Renaming Path1 copy"@ + y),
        forall|x: Seq<char>, y: Seq<char>| rest != #[trigger] (x + " - "@ + y),
    ensures
        renamed_path(head + "Renaming Path1 copy"@ + rest) == notice_path(
            head + "Renaming Path1 copy"@ + rest,
        ),
{
    crate::text::contained_text_has_two_sides(head, "Renaming Path1 copy"@);
    phrase_is_found(head, rest);
    crate::text::missing_markers_have_nothing_behind(rest, " - "@);
}

/// A path below the root is what follows the root, without the slashes between; another path
/// only loses its leading slashes.
pub proof fn paths_are_taken_below_the_root(root: Seq<char>, slashes: Seq<char>, rest: Seq<char>)
    requires
        forall|i: int| 0 <= i < slashes.len() ==> #[trigger] slashes[i] == '/',
        rest.len() > 0 ==> rest.first() != '/',
    ensures
        relative(root + (slashes + rest), root) == rest,
        (forall|x: Seq<char>| slashes + rest != #[trigger] (root + x)) ==> relative(
            slashes + rest,
            root,
        ) == rest,
{
    let path = root + (slashes + rest);
    assert(path.subrange(0, root.len() as int) =~= root);
    assert(path.skip(root.len() as int) =~= slashes + rest);
    crate::text::leading_copies_are_taken_off(slashes, rest, '/');
    let outside = slashes + rest;
    if root.is_prefix_of(outside) {
        let x = outside.skip(root.len() as int);
        assert(outside.subrange(0, root.len() as int) =~= root);
        assert(outside =~= root + x) by {
            assert(outside.take(root.len() as int) =~= root);
        }
    }
}

/// A conflict is over the renamed path without its suffix, taken below the root; its versions
/// are called by the file name of that, or by the whole where there is none. A line with the
/// phrase, the suffix and a path reports it.
pub proof fn conflicts_are_over_the_renamed_file(
    line: Seq<char>,
    renamed: Seq<char>,
    root: Seq<char>,
    windows: bool,
)
    ensures
        ({
            let conflict = conflict_over(renamed, root, windows);
            let path = relative(crate::text::strip_suffix(renamed, ".conflict1"@), root);
            let name = match crate::path::file_name(path, windows) {
                Some(name) => name,
                None => path,
            };
            conflict.path == path && conflict.conflict1 == name + ".conflict1"@
                && conflict.conflict2 == name + ".conflict2"@
        }),
        (exists|x: Seq<char>, y: Seq<char>|
            plain(line) == #[trigger] (x + "Renaming Path1 copy"@ + y)) && (exists|
            x: Seq<char>,
            y: Seq<char>,
        |
            plain(line) == #[trigger] (x + "conflict1"@ + y)) && renamed_path(plain(line)) == Some(
            renamed,
        ) ==> conflict_on(line, root, windows) == Some(conflict_over(renamed, root, windows)),
{
    crate::text::contained_text_has_two_sides(plain(line), "Renaming Path1 copy"@);
    crate::text::contained_text_has_two_sides(plain(line), "conflict1"@);
}

} // verus!
