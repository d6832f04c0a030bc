//! The filter rules of a copy or bisync job.
use vstd::prelude::*;

use crate::text::{chars_of, slice_of, starts_with, text_of, trimmed};

verus! {

/// rclone rc filter object. The rc API expects filters under the `_filter` key as
/// structured include/exclude rule lists, not as a top-level `filter` array of
/// `"- pattern"` strings, which rclone silently ignores.
#[derive(Debug)]
pub struct RcFilter {
    pub include_rule: Vec<String>,
    pub exclude_rule: Vec<String>,
}

/// An [`RcFilter`] with its patterns as character sequences.
#[verifier::ext_equal]
pub struct FilterView {
    pub include_rule: Seq<Seq<char>>,
    pub exclude_rule: Seq<Seq<char>>,
}

impl View for RcFilter {
    type V = FilterView;

    open spec fn view(&self) -> FilterView {
        FilterView {
            include_rule: crate::text::texts_view(self.include_rule@),
            exclude_rule: crate::text::texts_view(self.exclude_rule@),
        }
    }
}

/// What one filter line asks for.
pub enum Rule {
    Include(Seq<char>),
    Exclude(Seq<char>),
    Nothing,
}

/// The rule on a filter line: `+ pattern` includes, `- pattern` excludes, any other
/// text that is not blank is a pattern to exclude.
pub open spec fn rule_on(line: Seq<char>) -> Rule {
    let line = crate::text::trim(line);
    if "+ "@.is_prefix_of(line) {
        Rule::Include(crate::text::trim(line.skip(2)))
    } else if "- "@.is_prefix_of(line) {
        Rule::Exclude(crate::text::trim(line.skip(2)))
    } else if line.len() > 0 {
        Rule::Exclude(line)
    } else {
        Rule::Nothing
    }
}

/// The filter with no rules.
pub open spec fn no_rules() -> FilterView {
    FilterView { include_rule: seq![], exclude_rule: seq![] }
}

/// `filter` with one more rule at the end of its list.
pub open spec fn with_rule(filter: FilterView, rule: Rule) -> FilterView {
    match rule {
        Rule::Include(pattern) => FilterView {
            include_rule: filter.include_rule.push(pattern),
            ..filter
        },
        Rule::Exclude(pattern) => FilterView {
            exclude_rule: filter.exclude_rule.push(pattern),
            ..filter
        },
        Rule::Nothing => filter,
    }
}

/// The filter that a list of lines asks for, the rules in the order of the lines.
pub open spec fn filter_of(lines: Seq<Seq<char>>) -> FilterView
    decreases lines.len(),
{
    if lines.len() == 0 {
        no_rules()
    } else {
        with_rule(filter_of(lines.drop_last()), rule_on(lines.last()))
    }
}

impl RcFilter {
    /// Convert rclone filter-string syntax (`"- pattern"`, `"+ pattern"`) into the
    /// rc `_filter` shape. Lines without a recognised `+ `/`- ` prefix are treated
    /// as excludes.
    pub fn from_lines(lines: &[String]) -> (filter: Self)
        ensures
            filter@ == filter_of(crate::text::texts_view(lines@)),
    {
        let plus = chars_of("+ ");
        let minus = chars_of("- ");
        let ghost all = crate::text::texts_view(lines@);
        let mut filter = RcFilter { include_rule: Vec::new(), exclude_rule: Vec::new() };
        assert(filter@ =~= no_rules());
        let mut i: usize = 0;
        while i < lines.len()
            invariant
                i <= lines@.len(),
                all == crate::text::texts_view(lines@),
                plus@ == "+ "@,
                minus@ == "- "@,
                filter@ == filter_of(all.take(i as int)),
            decreases lines@.len() - i,
        {
            let ghost before = filter@;
            proof {
                reveal_strlit("+ ");
                reveal_strlit("- ");
                assert(all.take(i + 1).drop_last() == all.take(i as int));
                assert(all.take(i + 1).last() == lines@[i as int]@);
            }
            let chars = chars_of(lines[i].as_str());
            let line = trimmed(chars.as_slice());
            if starts_with(line.as_slice(), plus.as_slice()) {
                assert(line@.subrange(2, line@.len() as int) == line@.skip(2));
                let rest = slice_of(line.as_slice(), 2, line.len());
                let pattern = text_of(trimmed(rest.as_slice()).as_slice());
                filter.include_rule.push(pattern);
                assert(filter@ =~= with_rule(before, rule_on(all[i as int])));
            } else if starts_with(line.as_slice(), minus.as_slice()) {
                assert(line@.subrange(2, line@.len() as int) == line@.skip(2));
                let rest = slice_of(line.as_slice(), 2, line.len());
                let pattern = text_of(trimmed(rest.as_slice()).as_slice());
                filter.exclude_rule.push(pattern);
                assert(filter@ =~= with_rule(before, rule_on(all[i as int])));
            } else if line.len() > 0 {
                filter.exclude_rule.push(text_of(line.as_slice()));
                assert(filter@ =~= with_rule(before, rule_on(all[i as int])));
            }
            i = i + 1;
        }
        assert(all.take(i as int) == all);
        filter
    }

    /// Tells whether the filter has no rules.
    pub fn is_empty(&self) -> (empty: bool)
        ensures
            empty == (self@ == no_rules()),
    {
        let empty = self.include_rule.len() == 0 && self.exclude_rule.len() == 0;
        assert(self@.include_rule.len() == self.include_rule@.len());
        assert(self@.exclude_rule.len() == self.exclude_rule@.len());
        assert(empty ==> self@ =~= no_rules());
        empty
    }
}

/// Filter lines can be given in pieces: the rules of the pieces, in order, are those of
/// the whole.
pub proof fn filter_of_pieces(a: Seq<Seq<char>>, b: Seq<Seq<char>>)
    ensures
        filter_of(a + b).include_rule == filter_of(a).include_rule + filter_of(b).include_rule,
        filter_of(a + b).exclude_rule == filter_of(a).exclude_rule + filter_of(b).exclude_rule,
    decreases b.len(),
{
    if b.len() == 0 {
        assert(a + b == a);
    } else {
        assert((a + b).drop_last() == a + b.drop_last());
        assert((a + b).last() == b.last());
        filter_of_pieces(a, b.drop_last());
    }
}

/// The number of lines that are not blank.
pub open spec fn lines_with_text(lines: Seq<Seq<char>>) -> nat
    decreases lines.len(),
{
    if lines.len() == 0 {
        0
    } else {
        lines_with_text(lines.drop_last()) + if crate::text::trim(lines.last()).len() > 0 {
            1nat
        } else {
            0nat
        }
    }
}

/// No line is lost and none counts twice: there are as many rules as lines with text.
pub proof fn every_line_counts_once(lines: Seq<Seq<char>>)
    ensures
        filter_of(lines).include_rule.len() + filter_of(lines).exclude_rule.len()
            == lines_with_text(lines),
    decreases lines.len(),
{
    if lines.len() > 0 {
        reveal_strlit("+ ");
        reveal_strlit("- ");
        every_line_counts_once(lines.drop_last());
    }
}

/// There is no line with text just where every line is blank.
proof fn no_text_means_blank(lines: Seq<Seq<char>>)
    ensures
        lines_with_text(lines) == 0 <==> (forall|i: int|
            0 <= i < lines.len() ==> crate::text::trim(#[trigger] lines[i]).len() == 0),
    decreases lines.len(),
{
    if lines.len() > 0 {
        let init = lines.drop_last();
        no_text_means_blank(init);
        assert(forall|i: int| 0 <= i < init.len() ==> #[trigger] init[i] == lines[i]);
        assert(lines[lines.len() - 1] == lines.last());
        if lines_with_text(lines) == 0 {
            assert forall|i: int| 0 <= i < lines.len() implies crate::text::trim(
                #[trigger] lines[i],
            ).len() == 0 by {
                if i < init.len() {
                    assert(crate::text::trim(init[i]).len() == 0);
                }
            }
        }
    }
}

/// A filter is empty just where every line is blank.
pub proof fn filter_is_empty_without_text(lines: Seq<Seq<char>>)
    ensures
        (filter_of(lines) == no_rules()) <==> (forall|i: int|
            0 <= i < lines.len() ==> crate::text::trim(#[trigger] lines[i]).len() == 0),
{
    every_line_counts_once(lines);
    no_text_means_blank(lines);
    if lines_with_text(lines) == 0 {
        assert(filter_of(lines) =~= no_rules());
    }
}

/// The pattern is not blank at either end, and not empty.
pub open spec fn is_clean(pattern: Seq<char>) -> bool {
    pattern.len() > 0 && crate::text::trim(pattern) == pattern
}

/// The pattern of a rule is clean.
pub proof fn rule_is_clean(line: Seq<char>)
    ensures
        match rule_on(line) {
            Rule::Include(pattern) => is_clean(pattern),
            Rule::Exclude(pattern) => is_clean(pattern),
            Rule::Nothing => true,
        },
{
    reveal_strlit("+ ");
    reveal_strlit("- ");
    let text = crate::text::trim(line);
    crate::text::trim_is_final(line);
    if "+ "@.is_prefix_of(text) || "- "@.is_prefix_of(text) {
        assert(text[1] == ' ') by {
            assert(text.subrange(0, 2)[1] == text[1]);
        }
        assert(text.len() > 2);
        let rest = text.skip(2);
        assert(rest.last() == text.last());
        crate::text::trim_keeps_end(rest);
        crate::text::trim_is_final(rest);
    }
}

/// Every pattern of a filter is clean.
pub proof fn filter_patterns_are_clean(lines: Seq<Seq<char>>)
    ensures
        forall|i: int|
            0 <= i < filter_of(lines).include_rule.len() ==> is_clean(
                #[trigger] filter_of(lines).include_rule[i],
            ),
        forall|i: int|
            0 <= i < filter_of(lines).exclude_rule.len() ==> is_clean(
                #[trigger] filter_of(lines).exclude_rule[i],
            ),
    decreases lines.len(),
{
    if lines.len() > 0 {
        let earlier = filter_of(lines.drop_last());
        let filter = filter_of(lines);
        filter_patterns_are_clean(lines.drop_last());
        rule_is_clean(lines.last());
        assert forall|i: int| 0 <= i < filter.include_rule.len() implies is_clean(
            #[trigger] filter.include_rule[i],
        ) by {
            if i < earlier.include_rule.len() {
                assert(filter.include_rule[i] == earlier.include_rule[i]);
            }
        }
        assert forall|i: int| 0 <= i < filter.exclude_rule.len() implies is_clean(
            #[trigger] filter.exclude_rule[i],
        ) by {
            if i < earlier.exclude_rule.len() {
                assert(filter.exclude_rule[i] == earlier.exclude_rule[i]);
            }
        }
    }
}

/// The rule on a line that names one with a sign, blanks wherever they may stand.
proof fn signed_rule(
    sign: Seq<char>,
    before: Seq<char>,
    inner: Seq<char>,
    pattern: Seq<char>,
    behind: Seq<char>,
)
    requires
        sign == "+ "@ || sign == "- "@,
        forall|i: int| 0 <= i < before.len() ==> crate::text::is_white_space(#[trigger] before[i]),
        forall|i: int| 0 <= i < inner.len() ==> crate::text::is_white_space(#[trigger] inner[i]),
        forall|i: int| 0 <= i < behind.len() ==> crate::text::is_white_space(#[trigger] behind[i]),
        pattern.len() > 0,
        !crate::text::is_white_space(pattern.first()),
        !crate::text::is_white_space(pattern.last()),
    ensures
        sign == "+ "@ ==> rule_on(before + (sign + inner + pattern) + behind) == Rule::Include(
            pattern,
        ),
        sign == "- "@ ==> rule_on(before + (sign + inner + pattern) + behind) == Rule::Exclude(
            pattern,
        ),
{
    reveal_strlit("+ ");
    reveal_strlit("- ");
    let core = sign + inner + pattern;
    assert(core.first() == sign[0]);
    assert(core.last() == pattern.last());
    crate::text::trimming_keeps_the_core(before, core, behind);
    assert(core.subrange(0, 2) =~= sign);
    assert(core[0] == sign[0]);
    if sign == "- "@ {
        assert("+ "@[0] == '+' && "- "@[0] == '-');
        assert(!"+ "@.is_prefix_of(core)) by {
            if "+ "@.is_prefix_of(core) {
                assert(core.subrange(0, 2)[0] == core[0]);
            }
        }
    }
    let rest = core.skip(2);
    let none = Seq::<char>::empty();
    assert(rest =~= inner + pattern + none);
    crate::text::trimming_keeps_the_core(inner, pattern, none);
}

/// Filter lines, stated on their text: `+ ` and a pattern adds the pattern to the includes,
/// `- ` and a pattern, or a pattern alone, adds it to the excludes, always at the end and
/// with nothing else changed; blanks around the parts do not matter, and a blank line adds
/// nothing.
pub proof fn lines_add_their_pattern(
    lines: Seq<Seq<char>>,
    before: Seq<char>,
    inner: Seq<char>,
    pattern: Seq<char>,
    behind: Seq<char>,
)
    requires
        forall|i: int| 0 <= i < before.len() ==> crate::text::is_white_space(#[trigger] before[i]),
        forall|i: int| 0 <= i < inner.len() ==> crate::text::is_white_space(#[trigger] inner[i]),
        forall|i: int| 0 <= i < behind.len() ==> crate::text::is_white_space(#[trigger] behind[i]),
        pattern.len() > 0,
        !crate::text::is_white_space(pattern.first()),
        !crate::text::is_white_space(pattern.last()),
    ensures
        filter_of(seq![]).include_rule.len() == 0,
        filter_of(seq![]).exclude_rule.len() == 0,
        ({
            let old = filter_of(lines);
            let plus = filter_of(lines.push(before + ("+ "@ + inner + pattern) + behind));
            let minus = filter_of(lines.push(before + ("- "@ + inner + pattern) + behind));
            let bare = filter_of(lines.push(before + pattern + behind));
            let blank = filter_of(lines.push(before));
            &&& plus.include_rule == old.include_rule.push(pattern)
            &&& plus.exclude_rule == old.exclude_rule
            &&& minus.exclude_rule == old.exclude_rule.push(pattern)
            &&& minus.include_rule == old.include_rule
            &&& (forall|x: Seq<char>|
                pattern != #[trigger] ("+ "@ + x) && pattern != "- "@ + x) ==> bare.exclude_rule
                == old.exclude_rule.push(pattern) && bare.include_rule == old.include_rule
            &&& blank.include_rule == old.include_rule
            &&& blank.exclude_rule == old.exclude_rule
        }),
{
    let plus = before + ("+ "@ + inner + pattern) + behind;
    let minus = before + ("- "@ + inner + pattern) + behind;
    let bare = before + pattern + behind;
    signed_rule("+ "@, before, inner, pattern, behind);
    signed_rule("- "@, before, inner, pattern, behind);
    assert(lines.push(plus).drop_last() =~= lines);
    assert(lines.push(minus).drop_last() =~= lines);
    assert(lines.push(bare).drop_last() =~= lines);
    assert(lines.push(before).drop_last() =~= lines);
    let none = Seq::<char>::empty();
    crate::text::trimming_keeps_the_core(before, none, none);
    assert(before + none + none =~= before);
    reveal_strlit("+ ");
    reveal_strlit("- ");
    assert(rule_on(before) is Nothing);
    crate::text::trimming_keeps_the_core(before, pattern, behind);
    if forall|x: Seq<char>| pattern != #[trigger] ("+ "@ + x) && pattern != "- "@ + x {
        assert(!"+ "@.is_prefix_of(pattern)) by {
            if "+ "@.is_prefix_of(pattern) {
                assert(pattern.subrange(0, 2) =~= "+ "@);
                assert(pattern =~= pattern.take(2) + pattern.skip(2));
                assert(pattern.take(2) =~= "+ "@);
            }
        }
        assert(!"- "@.is_prefix_of(pattern)) by {
            if "- "@.is_prefix_of(pattern) {
                assert(pattern.subrange(0, 2) =~= "- "@);
                assert(pattern =~= pattern.take(2) + pattern.skip(2));
                assert(pattern.take(2) =~= "- "@);
                let x = pattern.skip(2);
                let other = "+ "@ + x;
                assert(pattern =~= "- "@ + x);
            }
        }
        assert(rule_on(bare) == Rule::Exclude(pattern));
    }
}

/// The view of a filter has all its patterns.
pub proof fn filters_are_viewed_whole(filter: RcFilter, i: int)
    ensures
        filter@.include_rule.len() == filter.include_rule@.len(),
        filter@.exclude_rule.len() == filter.exclude_rule@.len(),
        0 <= i < filter.include_rule@.len() ==> filter@.include_rule[i] == filter.include_rule@[i]@,
        0 <= i < filter.exclude_rule@.len() ==> filter@.exclude_rule[i] == filter.exclude_rule@[i]@,
        no_rules().include_rule.len() == 0,
        no_rules().exclude_rule.len() == 0,
{
}

} // verus!
