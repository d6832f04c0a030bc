//! Text as a sequence of characters: what the parsers and message builders of
//! this crate need of it, each operation stated on `Seq<char>`.
use vstd::prelude::*;
use vstd::string::*;

verus! {

/// `String::push` appends one character to the end of the text.
pub assume_specification[ String::push ](text: &mut String, c: char)
    ensures
        final(text)@ == old(text)@.push(c),
;

/// `char::is_whitespace` tells whether a character has the Unicode property
/// `White_Space`. The contract lists the characters that have it.
pub assume_specification[ char::is_whitespace ](c: char) -> (blank: bool)
    ensures
        blank == is_white_space(c),
;

/// The characters with the Unicode property `White_Space`.
pub open spec fn is_white_space(c: char) -> bool {
    ||| '\u{9}' <= c <= '\u{d}'
    ||| c == '\u{20}'
    ||| c == '\u{85}'
    ||| c == '\u{a0}'
    ||| c == '\u{1680}'
    ||| '\u{2000}' <= c <= '\u{200a}'
    ||| c == '\u{2028}'
    ||| c == '\u{2029}'
    ||| c == '\u{202f}'
    ||| c == '\u{205f}'
    ||| c == '\u{3000}'
}

/// `s` without its leading white space.
pub open spec fn trim_start(s: Seq<char>) -> Seq<char>
    decreases s.len(),
{
    if s.len() > 0 && is_white_space(s.first()) {
        trim_start(s.drop_first())
    } else {
        s
    }
}

/// `s` without its trailing white space.
pub open spec fn trim_end(s: Seq<char>) -> Seq<char>
    decreases s.len(),
{
    if s.len() > 0 && is_white_space(s.last()) {
        trim_end(s.drop_last())
    } else {
        s
    }
}

/// `s` without the white space at either end.
pub open spec fn trim(s: Seq<char>) -> Seq<char> {
    trim_end(trim_start(s))
}

/// `pattern` stands in `s` at position `at`.
pub open spec fn occurs_at(s: Seq<char>, pattern: Seq<char>, at: int) -> bool {
    &&& 0 <= at
    &&& at + pattern.len() <= s.len()
    &&& s.subrange(at, at + pattern.len()) == pattern
}

/// `pattern` stands somewhere in `s`.
pub open spec fn contains(s: Seq<char>, pattern: Seq<char>) -> bool {
    exists|at: int| occurs_at(s, pattern, at)
}

/// `at` is the last position at which `pattern` stands in `s`.
pub open spec fn is_last_occurrence(s: Seq<char>, pattern: Seq<char>, at: int) -> bool {
    &&& occurs_at(s, pattern, at)
    &&& forall|later: int| later > at ==> !occurs_at(s, pattern, later)
}

/// What follows the last occurrence of `marker` in `s`, if it occurs.
pub open spec fn after_last(s: Seq<char>, marker: Seq<char>) -> Option<Seq<char>> {
    if contains(s, marker) {
        let at = choose|at: int| is_last_occurrence(s, marker, at);
        Some(s.skip(at + marker.len()))
    } else {
        None
    }
}

/// `at` is the first position at which `pattern` stands in `s`.
pub open spec fn is_first_occurrence(s: Seq<char>, pattern: Seq<char>, at: int) -> bool {
    &&& occurs_at(s, pattern, at)
    &&& forall|earlier: int| earlier < at ==> !occurs_at(s, pattern, earlier)
}

/// What follows the first occurrence of `marker` in `s`, if it occurs.
pub open spec fn after_first(s: Seq<char>, marker: Seq<char>) -> Option<Seq<char>> {
    if contains(s, marker) {
        let at = choose|at: int| is_first_occurrence(s, marker, at);
        Some(s.skip(at + marker.len()))
    } else {
        None
    }
}

/// `s` without `suffix` at its end, where it stands there.
pub open spec fn strip_suffix(s: Seq<char>, suffix: Seq<char>) -> Seq<char> {
    if suffix.is_suffix_of(s) {
        s.take(s.len() - suffix.len())
    } else {
        s
    }
}

/// `s` without as many copies of `c` as stand at its start.
pub open spec fn trim_start_char(s: Seq<char>, c: char) -> Seq<char>
    decreases s.len(),
{
    if s.len() > 0 && s.first() == c {
        trim_start_char(s.drop_first(), c)
    } else {
        s
    }
}

/// The length of the first line of `s`, its line feed not counted.
pub open spec fn line_length(s: Seq<char>) -> nat
    decreases s.len(),
{
    if s.len() == 0 || s.first() == '\n' {
        0
    } else {
        1 + line_length(s.drop_first())
    }
}

/// A line without the carriage return that belonged to its line ending.
pub open spec fn without_return(line: Seq<char>) -> Seq<char> {
    if line.len() > 0 && line.last() == '\r' {
        line.drop_last()
    } else {
        line
    }
}

/// The lines of `s`. A line ends at a line feed, with or without a carriage
/// return before it; after the last line ending no empty line is counted.
pub open spec fn lines(s: Seq<char>) -> Seq<Seq<char>>
    decreases s.len(),
{
    if s.len() == 0 {
        seq![]
    } else if line_length(s) < s.len() {
        seq![without_return(s.take(line_length(s) as int))] + lines(
            s.skip(line_length(s) + 1int),
        )
    } else {
        seq![s]
    }
}

/// The decimal digit `d`.
pub open spec fn digit(d: nat) -> char {
    (48 + d) as char
}

/// `n` in decimal notation, without leading zeros.
pub open spec fn decimal(n: nat) -> Seq<char>
    decreases n,
{
    if n < 10 {
        seq![digit(n)]
    } else {
        decimal(n / 10).push(digit(n % 10))
    }
}

/// The texts of a list of strings.
pub open spec fn texts_view(list: Seq<String>) -> Seq<Seq<char>> {
    Seq::new(list.len(), |i: int| list[i]@)
}

/// The characters of a string slice.
pub fn chars_of(s: &str) -> (chars: Vec<char>)
    ensures
        chars@ == s@,
{
    let mut chars: Vec<char> = Vec::new();
    for c in it: s.chars()
        invariant
            chars@ == it.seq().take(it.index()),
            it.seq() == s@,
    {
        chars.push(c);
    }
    chars
}

/// The string made of a run of characters.
pub fn text_of(chars: &[char]) -> (text: String)
    ensures
        text@ == chars@,
{
    let mut text = String::new();
    let mut i: usize = 0;
    while i < chars.len()
        invariant
            i <= chars@.len(),
            text@ == chars@.take(i as int),
        decreases chars@.len() - i,
    {
        text.push(chars[i]);
        i = i + 1;
    }
    text
}

/// The characters from `from` up to `to`.
pub fn slice_of(s: &[char], from: usize, to: usize) -> (part: Vec<char>)
    requires
        from <= to <= s@.len(),
    ensures
        part@ == s@.subrange(from as int, to as int),
{
    let mut part: Vec<char> = Vec::new();
    let mut i = from;
    while i < to
        invariant
            from <= i <= to <= s@.len(),
            part@ == s@.subrange(from as int, i as int),
        decreases to - i,
    {
        part.push(s[i]);
        i = i + 1;
    }
    part
}

/// Removes the white space at either end.
pub fn trimmed(s: &[char]) -> (rest: Vec<char>)
    ensures
        rest@ == trim(s@),
{
    let mut from: usize = 0;
    assert(s@.skip(0) == s@);
    while from < s.len() && s[from].is_whitespace()
        invariant
            from <= s@.len(),
            trim_start(s@.skip(from as int)) == trim_start(s@),
        decreases s@.len() - from,
    {
        assert(s@.skip(from as int).drop_first() == s@.skip(from + 1));
        from = from + 1;
    }
    let mut to: usize = s.len();
    assert(s@.subrange(from as int, to as int) == s@.skip(from as int));
    while to > from && s[to - 1].is_whitespace()
        invariant
            from <= to <= s@.len(),
            trim_end(s@.subrange(from as int, to as int)) == trim(s@),
        decreases to,
    {
        assert(s@.subrange(from as int, to as int).drop_last() == s@.subrange(from as int, to - 1));
        to = to - 1;
    }
    slice_of(s, from, to)
}

/// Tells whether `pattern` stands in `s` at position `at`.
pub fn found_at(s: &[char], pattern: &[char], at: usize) -> (found: bool)
    ensures
        found == occurs_at(s@, pattern@, at as int),
{
    if pattern.len() > s.len() || at > s.len() - pattern.len() {
        return false;
    }
    let end: usize = at + pattern.len();
    let mut i: usize = 0;
    while i < pattern.len()
        invariant
            i <= pattern@.len(),
            at + pattern@.len() == end <= s@.len(),
            forall|j: int| 0 <= j < i ==> s@[at + j] == pattern@[j],
        decreases pattern@.len() - i,
    {
        if s[at + i] != pattern[i] {
            assert(s@.subrange(at as int, at + pattern@.len())[i as int] != pattern@[i as int]);
            return false;
        }
        i = i + 1;
    }
    assert(s@.subrange(at as int, at + pattern@.len()) == pattern@);
    true
}

/// Tells whether two runs of characters are the same.
pub fn same(a: &[char], b: &[char]) -> (yes: bool)
    ensures
        yes == (a@ == b@),
{
    let yes = a.len() == b.len() && found_at(a, b, 0);
    proof {
        if a@.len() == b@.len() {
            assert(a@.subrange(0, b@.len() as int) == a@);
        }
    }
    yes
}

/// Tells whether `s` starts with `prefix`.
pub fn starts_with(s: &[char], prefix: &[char]) -> (yes: bool)
    ensures
        yes == prefix@.is_prefix_of(s@),
{
    found_at(s, prefix, 0)
}

/// Tells whether `s` ends with `suffix`.
pub fn ends_with(s: &[char], suffix: &[char]) -> (yes: bool)
    ensures
        yes == suffix@.is_suffix_of(s@),
{
    if suffix.len() > s.len() {
        return false;
    }
    found_at(s, suffix, s.len() - suffix.len())
}

/// The last position at which `pattern` stands in `s`.
pub fn last_position(s: &[char], pattern: &[char]) -> (at: Option<usize>)
    ensures
        match at {
            Some(k) => is_last_occurrence(s@, pattern@, k as int),
            None => !contains(s@, pattern@),
        },
{
    if pattern.len() > s.len() {
        return None;
    }
    let mut k: usize = s.len() - pattern.len();
    loop
        invariant
            k + pattern@.len() <= s@.len(),
            forall|later: int| later > k ==> !occurs_at(s@, pattern@, later),
        decreases k,
    {
        if found_at(s, pattern, k) {
            return Some(k);
        }
        if k == 0 {
            return None;
        }
        k = k - 1;
    }
}

/// Tells whether `pattern` stands somewhere in `s`.
pub fn includes(s: &[char], pattern: &[char]) -> (yes: bool)
    ensures
        yes == contains(s@, pattern@),
{
    last_position(s, pattern).is_some()
}

/// What follows the last occurrence of `marker`.
pub fn behind_last(s: &[char], marker: &[char]) -> (rest: Option<Vec<char>>)
    ensures
        rest matches Some(r) ==> after_last(s@, marker@) == Some(r@),
        rest is None ==> after_last(s@, marker@) is None,
{
    match last_position(s, marker) {
        None => None,
        Some(k) => {
            proof {
                let at = choose|at: int| is_last_occurrence(s@, marker@, at);
                assert(is_last_occurrence(s@, marker@, k as int));
                assert(at == k) by {
                    if at < k {
                        assert(!occurs_at(s@, marker@, k as int));
                    }
                }
            }
            let end: usize = s.len();
            let from: usize = k + marker.len();
            assert(s@.subrange(from as int, s@.len() as int) == s@.skip(from as int));
            Some(slice_of(s, from, end))
        },
    }
}

/// The first position at which `pattern` stands in `s`.
pub fn first_position(s: &[char], pattern: &[char]) -> (at: Option<usize>)
    ensures
        match at {
            Some(k) => is_first_occurrence(s@, pattern@, k as int),
            None => !contains(s@, pattern@),
        },
{
    if pattern.len() > s.len() {
        return None;
    }
    let end: usize = s.len() - pattern.len();
    let mut k: usize = 0;
    loop
        invariant
            k <= end,
            end + pattern@.len() == s@.len(),
            forall|earlier: int| earlier < k ==> !occurs_at(s@, pattern@, earlier),
        decreases end - k,
    {
        if found_at(s, pattern, k) {
            return Some(k);
        }
        if k == end {
            return None;
        }
        k = k + 1;
    }
}

/// What follows the first occurrence of `marker`.
pub fn behind_first(s: &[char], marker: &[char]) -> (rest: Option<Vec<char>>)
    ensures
        rest matches Some(r) ==> after_first(s@, marker@) == Some(r@),
        rest is None ==> after_first(s@, marker@) is None,
{
    match first_position(s, marker) {
        None => None,
        Some(k) => {
            proof {
                let at = choose|at: int| is_first_occurrence(s@, marker@, at);
                assert(is_first_occurrence(s@, marker@, k as int));
                assert(at == k) by {
                    if k < at {
                        assert(!occurs_at(s@, marker@, k as int));
                    }
                }
            }
            let end: usize = s.len();
            let from: usize = k + marker.len();
            assert(s@.subrange(from as int, s@.len() as int) == s@.skip(from as int));
            Some(slice_of(s, from, end))
        },
    }
}

/// Removes `suffix` at the end.
pub fn without_suffix(s: &[char], suffix: &[char]) -> (rest: Vec<char>)
    ensures
        rest@ == strip_suffix(s@, suffix@),
{
    if ends_with(s, suffix) {
        let keep: usize = s.len() - suffix.len();
        assert(s@.subrange(0, keep as int) == s@.take(keep as int));
        slice_of(s, 0, keep)
    } else {
        assert(s@.subrange(0, s@.len() as int) == s@);
        slice_of(s, 0, s.len())
    }
}

/// Removes as many copies of `c` as stand at the start.
pub fn without_leading(s: &[char], c: char) -> (rest: Vec<char>)
    ensures
        rest@ == trim_start_char(s@, c),
{
    let mut from: usize = 0;
    assert(s@.skip(0) == s@);
    while from < s.len() && s[from] == c
        invariant
            from <= s@.len(),
            trim_start_char(s@.skip(from as int), c) == trim_start_char(s@, c),
        decreases s@.len() - from,
    {
        assert(s@.skip(from as int).drop_first() == s@.skip(from + 1));
        from = from + 1;
    }
    assert(s@.subrange(from as int, s@.len() as int) == s@.skip(from as int));
    slice_of(s, from, s.len())
}

/// The view of a list of lines.
pub open spec fn lines_view(list: Seq<Vec<char>>) -> Seq<Seq<char>> {
    Seq::new(list.len(), |i: int| list[i]@)
}

/// Splits text into its lines.
pub fn lines_of(s: &[char]) -> (list: Vec<Vec<char>>)
    ensures
        lines_view(list@) == lines(s@),
{
    let mut list: Vec<Vec<char>> = Vec::new();
    let mut from: usize = 0;
    assert(s@.skip(0) == s@);
    assert(lines_view(list@) + lines(s@) == lines(s@));
    while from < s.len()
        invariant
            from <= s@.len(),
            lines_view(list@) + lines(s@.skip(from as int)) == lines(s@),
        decreases s@.len() - from,
    {
        let ghost tail = s@.skip(from as int);
        let ghost before = lines_view(list@);
        let mut to: usize = from;
        while to < s.len() && s[to] != '\n'
            invariant
                from <= to <= s@.len(),
                tail == s@.skip(from as int),
                line_length(tail) == (to - from) + line_length(s@.skip(to as int)),
            decreases s@.len() - to,
        {
            assert(s@.skip(to as int).drop_first() == s@.skip(to + 1));
            to = to + 1;
        }
        assert(line_length(tail) == to - from);
        if to < s.len() {
            let mut end: usize = to;
            if end > from && s[end - 1] == '\r' {
                end = end - 1;
            }
            let line = slice_of(s, from, end);
            assert(line@ == without_return(tail.take(to - from)));
            assert(tail.skip(to - from + 1) == s@.skip(to + 1));
            list.push(line);
            assert(lines_view(list@) == before.push(line@));
            from = to + 1;
            assert(lines_view(list@) + lines(s@.skip(from as int)) == before + lines(tail));
        } else {
            let line = slice_of(s, from, to);
            assert(line@ == tail);
            list.push(line);
            assert(lines_view(list@) == before.push(line@));
            from = to;
            assert(lines(s@.skip(from as int)) == Seq::<Seq<char>>::empty());
            assert(lines_view(list@) + lines(s@.skip(from as int)) == before + lines(tail));
        }
    }
    assert(lines(s@.skip(from as int)) == Seq::<Seq<char>>::empty());
    assert(lines_view(list@) + Seq::<Seq<char>>::empty() == lines_view(list@));
    list
}

/// The decimal notation of a number.
pub fn decimal_text(n: u64) -> (text: String)
    ensures
        text@ == decimal(n as nat),
    decreases n,
{
    let low: char = (48u8 + (n % 10) as u8) as char;
    if n < 10 {
        let mut text = String::new();
        text.push(low);
        text
    } else {
        let mut text = decimal_text(n / 10);
        text.push(low);
        text
    }
}

/// Trimming the start leaves an end of the text that does not start blank.
pub proof fn trim_start_shape(s: Seq<char>)
    ensures
        trim_start(s).len() <= s.len(),
        trim_start(s) == s.skip(s.len() - trim_start(s).len()),
        trim_start(s).len() > 0 ==> !is_white_space(trim_start(s).first()),
    decreases s.len(),
{
    if s.len() > 0 && is_white_space(s.first()) {
        trim_start_shape(s.drop_first());
    }
}

/// Trimming the end leaves a start of the text that does not end blank.
pub proof fn trim_end_shape(s: Seq<char>)
    ensures
        trim_end(s).len() <= s.len(),
        trim_end(s) == s.take(trim_end(s).len() as int),
        trim_end(s).len() > 0 ==> !is_white_space(trim_end(s).last()),
    decreases s.len(),
{
    if s.len() > 0 && is_white_space(s.last()) {
        trim_end_shape(s.drop_last());
    }
}

/// Trimmed text neither starts nor ends blank, and trimming it again changes nothing.
pub proof fn trim_is_final(s: Seq<char>)
    ensures
        trim(s).len() > 0 ==> !is_white_space(trim(s).first()) && !is_white_space(trim(s).last()),
        trim(trim(s)) == trim(s),
{
    trim_start_shape(s);
    trim_end_shape(trim_start(s));
}

/// Text that does not end blank is more than blanks, and trimming keeps its end.
pub proof fn trim_keeps_end(s: Seq<char>)
    requires
        s.len() > 0,
        !is_white_space(s.last()),
    ensures
        trim(s).len() > 0,
        trim(s).last() == s.last(),
    decreases s.len(),
{
    if is_white_space(s.first()) {
        assert(s.drop_first().last() == s.last());
        trim_keeps_end(s.drop_first());
    }
}

/// What follows a marker that does not occur before.
pub proof fn after_first_marker(head: Seq<char>, marker: Seq<char>, tail: Seq<char>)
    requires
        forall|earlier: int|
            0 <= earlier < head.len() ==> !occurs_at(head + marker + tail, marker, earlier),
    ensures
        contains(head + marker + tail, marker),
        after_first(head + marker + tail, marker) == Some(tail),
{
    let s = head + marker + tail;
    let here = head.len() as int;
    assert(s.subrange(here, here + marker.len()) == marker);
    assert(occurs_at(s, marker, here));
    assert(is_first_occurrence(s, marker, here));
    let at = choose|at: int| is_first_occurrence(s, marker, at);
    assert(at == here) by {
        if here < at {
            assert(!occurs_at(s, marker, here));
        }
    }
    assert(s.skip(here + marker.len()) == tail);
}

/// A first line that is ended has the same length whatever follows.
proof fn line_length_of_start(a: Seq<char>, b: Seq<char>)
    requires
        line_length(a) < a.len(),
    ensures
        line_length(a + b) == line_length(a),
    decreases a.len(),
{
    assert((a + b).first() == a.first());
    if a.first() != '\n' {
        assert((a + b).drop_first() == a.drop_first() + b);
        line_length_of_start(a.drop_first(), b);
    }
}

/// The first line of text that ends in a line feed is ended.
proof fn first_line_is_ended(s: Seq<char>)
    requires
        s.len() > 0,
        s.last() == '\n',
    ensures
        line_length(s) < s.len(),
    decreases s.len(),
{
    if s.first() != '\n' {
        assert(s.drop_first().last() == s.last());
        first_line_is_ended(s.drop_first());
    }
}

/// Text that ends at a line ending can be split off: its lines and the lines of what
/// follows are the lines of the whole.
pub proof fn lines_of_whole(a: Seq<char>, b: Seq<char>)
    requires
        a.len() == 0 || a.last() == '\n',
    ensures
        lines(a + b) == lines(a) + lines(b),
    decreases a.len(),
{
    if a.len() == 0 {
        assert(a + b == b);
        assert(lines(a) + lines(b) == lines(b));
    } else {
        first_line_is_ended(a);
        line_length_of_start(a, b);
        let n = line_length(a) as int;
        let rest = a.skip(n + 1);
        assert((a + b).take(n) == a.take(n));
        assert((a + b).skip(n + 1) == rest + b);
        assert(rest.len() > 0 ==> rest.last() == a.last());
        lines_of_whole(rest, b);
        let first = seq![without_return(a.take(n))];
        assert(first + (lines(rest) + lines(b)) == (first + lines(rest)) + lines(b));
    }
}

/// A text stands in another just where that is something, the text, and something more.
pub proof fn contained_text_has_two_sides(s: Seq<char>, pattern: Seq<char>)
    ensures
        contains(s, pattern) <==> exists|a: Seq<char>, b: Seq<char>|
            s == #[trigger] (a + pattern + b),
{
    if contains(s, pattern) {
        let at = choose|at: int| occurs_at(s, pattern, at);
        let a = s.take(at);
        let b = s.skip(at + pattern.len());
        assert(s =~= a + pattern + b) by {
            assert forall|i: int| 0 <= i < s.len() implies s[i] == (a + pattern + b)[i] by {
                if at <= i < at + pattern.len() {
                    assert(s.subrange(at, at + pattern.len())[i - at] == s[i]);
                }
            }
        }
    }
    if exists|a: Seq<char>, b: Seq<char>| s == #[trigger] (a + pattern + b) {
        let (a, b) = choose|a: Seq<char>, b: Seq<char>| s == #[trigger] (a + pattern + b);
        let at = a.len() as int;
        assert(s.subrange(at, at + pattern.len()) =~= pattern);
        assert(occurs_at(s, pattern, at));
    }
}

/// What follows the first marker is all that stands behind it, where no marker starts
/// before; what follows the last is, where none starts behind.
pub proof fn text_behind_markers(a: Seq<char>, marker: Seq<char>, b: Seq<char>)
    requires
        marker.len() > 0,
    ensures
        (forall|x: Seq<char>, y: Seq<char>|
            a + marker.drop_last() != #[trigger] (x + marker + y)) ==> after_first(
            a + marker + b,
            marker,
        ) == Some(b),
        (forall|x: Seq<char>, y: Seq<char>|
            marker.drop_first() + b != #[trigger] (x + marker + y)) ==> after_last(
            a + marker + b,
            marker,
        ) == Some(b),
{
    let s = a + marker + b;
    let here = a.len() as int;
    assert(s.subrange(here, here + marker.len()) =~= marker);
    assert(occurs_at(s, marker, here));
    contained_text_has_two_sides(a + marker.drop_last(), marker);
    contained_text_has_two_sides(marker.drop_first() + b, marker);
    if !contains(a + marker.drop_last(), marker) {
        let start = a + marker.drop_last();
        assert forall|earlier: int| 0 <= earlier < a.len() implies !occurs_at(
            a + marker + b,
            marker,
            earlier,
        ) by {
            if occurs_at(s, marker, earlier) {
                assert(start.subrange(earlier, earlier + marker.len()) =~= s.subrange(
                    earlier,
                    earlier + marker.len(),
                ));
                assert(occurs_at(start, marker, earlier));
            }
        }
        after_first_marker(a, marker, b);
    }
    if !contains(marker.drop_first() + b, marker) {
        let end = marker.drop_first() + b;
        assert forall|later: int| later > here implies !occurs_at(s, marker, later) by {
            if occurs_at(s, marker, later) {
                let at = later - here - 1;
                assert(end.subrange(at, at + marker.len()) =~= s.subrange(
                    later,
                    later + marker.len(),
                ));
                assert(occurs_at(end, marker, at));
            }
        }
        assert(is_last_occurrence(s, marker, here));
        let at = choose|at: int| is_last_occurrence(s, marker, at);
        assert(at == here) by {
            if at < here {
                assert(!occurs_at(s, marker, here));
            }
        }
        assert(s.skip(here + marker.len()) =~= b);
    }
}

/// Nothing follows a marker that is not there.
pub proof fn missing_markers_have_nothing_behind(s: Seq<char>, marker: Seq<char>)
    requires
        forall|x: Seq<char>, y: Seq<char>| s != #[trigger] (x + marker + y),
    ensures
        after_first(s, marker) is None,
        after_last(s, marker) is None,
{
    contained_text_has_two_sides(s, marker);
}

/// Leading white space goes.
proof fn blank_start_goes(blank: Seq<char>, rest: Seq<char>)
    requires
        forall|i: int| 0 <= i < blank.len() ==> is_white_space(#[trigger] blank[i]),
    ensures
        trim_start(blank + rest) == trim_start(rest),
    decreases blank.len(),
{
    if blank.len() == 0 {
        assert(blank + rest =~= rest);
    } else {
        assert((blank + rest).first() == blank[0]);
        assert((blank + rest).drop_first() =~= blank.drop_first() + rest);
        assert forall|i: int| 0 <= i < blank.drop_first().len() implies is_white_space(
            #[trigger] blank.drop_first()[i],
        ) by {
            assert(blank.drop_first()[i] == blank[i + 1]);
        }
        blank_start_goes(blank.drop_first(), rest);
    }
}

/// Trailing white space goes.
proof fn blank_end_goes(rest: Seq<char>, blank: Seq<char>)
    requires
        forall|i: int| 0 <= i < blank.len() ==> is_white_space(#[trigger] blank[i]),
    ensures
        trim_end(rest + blank) == trim_end(rest),
    decreases blank.len(),
{
    if blank.len() == 0 {
        assert(rest + blank =~= rest);
    } else {
        assert((rest + blank).last() == blank[blank.len() - 1]);
        assert((rest + blank).drop_last() =~= rest + blank.drop_last());
        blank_end_goes(rest, blank.drop_last());
    }
}

/// Trimming takes off the white space at either end, all of it and nothing else.
pub proof fn trimming_keeps_the_core(before: Seq<char>, core: Seq<char>, behind: Seq<char>)
    requires
        forall|i: int| 0 <= i < before.len() ==> is_white_space(#[trigger] before[i]),
        forall|i: int| 0 <= i < behind.len() ==> is_white_space(#[trigger] behind[i]),
        core.len() > 0 ==> !is_white_space(core.first()) && !is_white_space(core.last()),
    ensures
        trim(before + core + behind) == core,
{
    assert(before + core + behind =~= before + (core + behind));
    blank_start_goes(before, core + behind);
    if core.len() == 0 {
        assert(core + behind =~= behind);
        assert(behind + Seq::<char>::empty() =~= behind);
        blank_start_goes(behind, Seq::<char>::empty());
        assert(trim(before + core + behind) =~= core);
    } else {
        assert((core + behind).first() == core.first());
        blank_end_goes(core, behind);
    }
}

/// The white space that logs and filter lines hold is white space, and no visible ASCII
/// character is.
pub proof fn white_space_is_blank(c: char)
    ensures
        c == ' ' || c == '\t' || c == '\n' || c == '\r' ==> is_white_space(c),
        '!' <= c <= '~' ==> !is_white_space(c),
{
}

/// A first line without a line feed has no line feed counted.
proof fn whole_line_length(line: Seq<char>, rest: Seq<char>)
    requires
        !line.contains('\n'),
        rest.len() == 0 || rest.first() == '\n',
    ensures
        line_length(line + rest) == line.len(),
    decreases line.len(),
{
    if line.len() == 0 {
        assert(line + rest =~= rest);
    } else {
        assert(line[0] != '\n');
        assert((line + rest).first() == line[0]);
        assert((line + rest).drop_first() =~= line.drop_first() + rest);
        assert(!line.drop_first().contains('\n')) by {
            if line.drop_first().contains('\n') {
                let i = choose|i: int|
                    0 <= i < line.drop_first().len() && line.drop_first()[i] == '\n';
                assert(line[i + 1] == '\n');
            }
        }
        whole_line_length(line.drop_first(), rest);
    }
}

/// Text falls into lines at its line feeds: what stands before the first is the first line,
/// without a carriage return at its end, and the rest is split in turn. Text without a line
/// feed is one line, as it is, and no text is no line.
pub proof fn lines_are_split_off(line: Seq<char>, rest: Seq<char>)
    requires
        !line.contains('\n'),
    ensures
        lines(Seq::<char>::empty()) == Seq::<Seq<char>>::empty(),
        line.len() > 0 ==> lines(line) == seq![line],
        line.len() > 0 && line.last() == '\r' ==> lines(line + seq!['\n'] + rest) == seq![
            line.drop_last(),
        ] + lines(rest),
        !(line.len() > 0 && line.last() == '\r') ==> lines(line + seq!['\n'] + rest) == seq![line]
            + lines(rest),
{
    let end = seq!['\n'] + rest;
    let whole = line + seq!['\n'] + rest;
    assert(whole =~= line + end);
    assert(end.first() == '\n');
    whole_line_length(line, end);
    whole_line_length(line, seq![]);
    assert(line + Seq::<char>::empty() =~= line);
    assert(whole.take(line.len() as int) =~= line);
    assert(whole.skip(line.len() + 1int) =~= rest);
}

/// A number is written digit by digit: one below ten as its digit, any other as the number
/// of its tens, then its last digit.
pub proof fn numbers_are_written_in_decimal(n: nat, d: nat)
    requires
        d < 10,
    ensures
        decimal(d) == seq![(48 + d) as char],
        n > 0 ==> decimal(10 * n + d) == decimal(n).push((48 + d) as char),
{
    if n > 0 {
        assert((10 * n + d) / 10 == n);
        assert((10 * n + d) % 10 == d);
    }
}

/// One suffix is taken off, and text without it is kept.
pub proof fn one_suffix_is_taken_off(base: Seq<char>, suffix: Seq<char>)
    ensures
        strip_suffix(base + suffix, suffix) == base,
        (forall|x: Seq<char>| base != #[trigger] (x + suffix)) ==> strip_suffix(base, suffix)
            == base,
{
    let s = base + suffix;
    assert(s.subrange(s.len() - suffix.len(), s.len() as int) =~= suffix);
    assert(s.take(s.len() - suffix.len()) =~= base);
    if suffix.is_suffix_of(base) {
        let x = base.take(base.len() - suffix.len());
        assert(base =~= x + suffix) by {
            assert(base.subrange(base.len() - suffix.len(), base.len() as int) =~= suffix);
            assert(base.skip(base.len() - suffix.len()) =~= suffix);
        }
    }
}

/// All leading copies of a character are taken off, and nothing else.
pub proof fn leading_copies_are_taken_off(copies: Seq<char>, rest: Seq<char>, c: char)
    requires
        forall|i: int| 0 <= i < copies.len() ==> #[trigger] copies[i] == c,
        rest.len() > 0 ==> rest.first() != c,
    ensures
        trim_start_char(copies + rest, c) == rest,
    decreases copies.len(),
{
    if copies.len() == 0 {
        assert(copies + rest =~= rest);
    } else {
        assert((copies + rest).first() == copies[0]);
        assert((copies + rest).drop_first() =~= copies.drop_first() + rest);
        assert forall|i: int| 0 <= i < copies.drop_first().len() implies #[trigger] copies.drop_first()[i]
            == c by {
            assert(copies.drop_first()[i] == copies[i + 1]);
        }
        leading_copies_are_taken_off(copies.drop_first(), rest, c);
    }
}

/// The view of a list of texts has each of them, in its place.
pub proof fn lists_are_viewed_whole(texts: Seq<String>, lines: Seq<Vec<char>>, i: int)
    ensures
        texts_view(texts).len() == texts.len(),
        lines_view(lines).len() == lines.len(),
        0 <= i < texts.len() ==> texts_view(texts)[i] == texts[i]@,
        0 <= i < lines.len() ==> lines_view(lines)[i] == lines[i]@,
{
}

} // verus!
