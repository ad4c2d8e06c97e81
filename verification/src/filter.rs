//! The dump filter: a rule set that turns the raw text of a device dump into
//! stable text, line by line.

use crate::pattern::{
    compile, error_text, is_match, regex_error_text, regex_is_match, regex_new, regex_replace_all,
    replace_all,
};
use crate::text::{join, joined, lines, split_lines, texts, trim_end, trimmed_end};
use regex::Regex;
use vstd::prelude::*;
use vstd::string::StringExecFns;

verus! {

/// How the output of a device's script is filtered.
#[derive(Clone, Debug)]
pub struct Filter {
    /// number of lines to remove from the start
    pub trim_lines_head: usize,
    /// number of lines to remove from the end, of those that are left
    pub trim_lines_tail: usize,
    /// a line that matches one of these patterns is removed
    pub filter_patterns: Vec<String>,
    /// in each line, every match of a pair's first part is replaced by its
    /// second part, pair after pair
    pub replace_patterns: Vec<(String, String)>,
}

/// A `Filter` as plain values.
pub struct FilterView {
    pub trim_head: nat,
    pub trim_tail: nat,
    pub removal: Seq<Seq<char>>,
    pub replace: Seq<(Seq<char>, Seq<char>)>,
}

impl View for Filter {
    type V = FilterView;

    open spec fn view(&self) -> FilterView {
        FilterView {
            trim_head: self.trim_lines_head as nat,
            trim_tail: self.trim_lines_tail as nat,
            removal: texts(self.filter_patterns@),
            replace: self.replace_patterns@.map_values(|r: (String, String)| (r.0@, r.1@)),
        }
    }
}

/// A filter whose patterns are compiled.
#[derive(Clone, Debug)]
pub struct CompiledFilter {
    pub trim_lines_head: usize,
    pub trim_lines_tail: usize,
    pub filter_regexes: Vec<Regex>,
    pub replacements: Vec<(Regex, String)>,
}

/// A `CompiledFilter` as a mathematical value.
pub struct Rules {
    pub trim_head: nat,
    pub trim_tail: nat,
    pub removal: Seq<Regex>,
    pub replace: Seq<(Regex, Seq<char>)>,
}

impl View for CompiledFilter {
    type V = Rules;

    open spec fn view(&self) -> Rules {
        Rules {
            trim_head: self.trim_lines_head as nat,
            trim_tail: self.trim_lines_tail as nat,
            removal: self.filter_regexes@,
            replace: self.replacements@.map_values(|r: (Regex, String)| (r.0, r.1@)),
        }
    }
}

/// The rules of a compiled filter that may not be there.
pub open spec fn optional_rules(filter: Option<CompiledFilter>) -> Option<Rules> {
    match filter {
        Some(f) => Some(f@),
        None => None,
    }
}

/// A pattern of a filter that does not compile.
#[derive(Debug)]
pub struct PatternError {
    /// the pattern as it was given
    pub pattern: String,
    /// why it was refused
    pub reason: String,
}

/// A `PatternError` as plain values.
pub struct PatternErrorView {
    pub pattern: Seq<char>,
    pub reason: Seq<char>,
}

impl View for PatternError {
    type V = PatternErrorView;

    open spec fn view(&self) -> PatternErrorView {
        PatternErrorView { pattern: self.pattern@, reason: self.reason@ }
    }
}

impl PatternErrorView {
    /// The error in words.
    pub open spec fn message(self) -> Seq<char> {
        "failed to compile regex: '"@ + self.pattern + "': "@ + self.reason
    }
}

impl PatternError {
    /// Words the error.
    pub fn message(&self) -> (text: String)
        ensures
            text@ == self@.message(),
    {
        let mut text = "failed to compile regex: '".to_owned();
        text.append(self.pattern.as_str());
        text.append("': ");
        text.append(self.reason.as_str());
        text
    }
}

/// What a filter made of a text.
#[derive(Debug)]
pub struct Filtered {
    /// the lines that are left, joined by line feeds
    pub text: String,
    /// the trimming at the end took every line that was left
    pub nothing_left: bool,
}

/// A `Filtered` as plain values.
pub struct FilteredView {
    pub text: Seq<char>,
    pub nothing_left: bool,
}

impl View for Filtered {
    type V = FilteredView;

    open spec fn view(&self) -> FilteredView {
        FilteredView { text: self.text@, nothing_left: self.nothing_left }
    }
}

/// `pattern` compiles.
pub open spec fn is_valid(pattern: Seq<char>) -> bool {
    regex_new(pattern) is Ok
}

/// The compiled form of a pattern that compiles.
pub open spec fn compiled(pattern: Seq<char>) -> Regex {
    regex_new(pattern)->Ok_0
}

/// Why a pattern that does not compile is refused.
pub open spec fn refusal(pattern: Seq<char>) -> Seq<char> {
    regex_error_text(regex_new(pattern)->Err_0)
}

/// The patterns of a filter in the order in which they are compiled: those
/// that remove lines, then those that replace.
pub open spec fn patterns(f: FilterView) -> Seq<Seq<char>> {
    f.removal + f.replace.map_values(|r: (Seq<char>, Seq<char>)| r.0)
}

/// `k` is the index of the first of `patterns` that does not compile.
pub open spec fn is_first_invalid(patterns: Seq<Seq<char>>, k: int) -> bool {
    &&& 0 <= k < patterns.len()
    &&& !is_valid(patterns[k])
    &&& forall|j: int| 0 <= j < k ==> is_valid(#[trigger] patterns[j])
}

/// Every one of `patterns` compiles.
pub open spec fn all_valid(patterns: Seq<Seq<char>>) -> bool {
    forall|j: int| 0 <= j < patterns.len() ==> is_valid(#[trigger] patterns[j])
}

/// The error for the first of `patterns` that does not compile.
pub open spec fn rejection(patterns: Seq<Seq<char>>) -> PatternErrorView {
    let k = choose|k: int| is_first_invalid(patterns, k);
    PatternErrorView { pattern: patterns[k], reason: refusal(patterns[k]) }
}

/// The rules that a filter of valid patterns compiles to.
pub open spec fn rules_of(f: FilterView) -> Rules {
    Rules {
        trim_head: f.trim_head,
        trim_tail: f.trim_tail,
        removal: f.removal.map_values(|p: Seq<char>| compiled(p)),
        replace: f.replace.map_values(|r: (Seq<char>, Seq<char>)| (compiled(r.0), r.1)),
    }
}

/// `line` after every replacement of `replace`, in order, each made in the
/// result of the one before.
pub open spec fn rewritten(replace: Seq<(Regex, Seq<char>)>, line: Seq<char>) -> Seq<char>
    decreases replace.len(),
{
    if replace.len() == 0 {
        line
    } else {
        regex_replace_all(
            replace.last().0,
            rewritten(replace.drop_last(), line),
            replace.last().1,
        )
    }
}

/// One of `removal` matches `line`.
pub open spec fn is_removed(removal: Seq<Regex>, line: Seq<char>) -> bool {
    exists|i: int| 0 <= i < removal.len() && regex_is_match(#[trigger] removal[i], line)
}

/// `lines` without the first `n`.
pub open spec fn without_head(lines: Seq<Seq<char>>, n: nat) -> Seq<Seq<char>> {
    if n >= lines.len() {
        Seq::empty()
    } else {
        lines.skip(n as int)
    }
}

/// `lines` without the last `n`.
pub open spec fn without_tail(lines: Seq<Seq<char>>, n: nat) -> Seq<Seq<char>> {
    if n >= lines.len() {
        Seq::empty()
    } else {
        lines.take(lines.len() - n)
    }
}

/// Of `lines`, each rewritten, those that no removal pattern matches, each
/// without the whitespace at its end.
pub open spec fn survivors(rules: Rules, lines: Seq<Seq<char>>) -> Seq<Seq<char>>
    decreases lines.len(),
{
    if lines.len() == 0 {
        Seq::empty()
    } else {
        let before = survivors(rules, lines.drop_last());
        let line = rewritten(rules.replace, lines.last());
        if is_removed(rules.removal, line) {
            before
        } else {
            before.push(trimmed_end(line))
        }
    }
}

/// Of `lines`, those that are left after the head is trimmed and lines are
/// rewritten and removed, before the tail is trimmed.
pub open spec fn remaining(rules: Rules, lines: Seq<Seq<char>>) -> Seq<Seq<char>> {
    survivors(rules, without_head(lines, rules.trim_head))
}

/// Of `lines`, those that the filter lets through.
pub open spec fn kept(rules: Rules, lines: Seq<Seq<char>>) -> Seq<Seq<char>> {
    without_tail(remaining(rules, lines), rules.trim_tail)
}

/// How many of `lines` a removal pattern matches once they are rewritten.
pub open spec fn removed_count(rules: Rules, lines: Seq<Seq<char>>) -> nat
    decreases lines.len(),
{
    if lines.len() == 0 {
        0
    } else {
        let before = removed_count(rules, lines.drop_last());
        if is_removed(rules.removal, rewritten(rules.replace, lines.last())) {
            before + 1
        } else {
            before
        }
    }
}

/// What the filter makes of `raw`: the lines that it lets through, joined by
/// line feeds, and whether the trimming at the end took every line that was
/// left.
pub open spec fn filtered(rules: Rules, raw: Seq<char>) -> FilteredView {
    FilteredView {
        text: joined(kept(rules, split_lines(raw))),
        nothing_left: rules.trim_tail >= remaining(rules, split_lines(raw)).len(),
    }
}

/// What compiling a filter gives: its rules, or the error for the first
/// pattern that does not compile.
pub open spec fn compile_of(f: FilterView) -> Result<Rules, PatternErrorView> {
    if all_valid(patterns(f)) {
        Ok(rules_of(f))
    } else {
        Err(rejection(patterns(f)))
    }
}

/// Of several patterns, one at most is the first that does not compile.
pub proof fn lemma_first_invalid_is_unique(patterns: Seq<Seq<char>>, k: int)
    requires
        is_first_invalid(patterns, k),
    ensures
        !all_valid(patterns),
        rejection(patterns) == (PatternErrorView {
            pattern: patterns[k],
            reason: refusal(patterns[k]),
        }),
{
    let c = choose|c: int| is_first_invalid(patterns, c);
    if c < k {
        assert(is_valid(patterns[c]));
    } else if k < c {
        assert(is_valid(patterns[k]));
    }
}

impl Filter {
    /// Compiles every pattern, those that remove lines first. Fails on the
    /// first pattern that does not compile, and names it.
    pub fn compile(&self) -> (r: Result<CompiledFilter, PatternError>)
        ensures
            match r {
                Ok(c) => compile_of(self@) == Ok::<Rules, PatternErrorView>(c@),
                Err(e) => compile_of(self@) == Err::<Rules, PatternErrorView>(e@),
            },
    {
        let ghost all = patterns(self@);
        let ghost removal = self@.removal;
        let ghost replace = self@.replace;
        let mut filter_regexes: Vec<Regex> = Vec::new();
        let mut i: usize = 0;
        while i < self.filter_patterns.len()
            invariant
                i <= self.filter_patterns.len(),
                all == patterns(self@),
                removal == self@.removal,
                removal.len() == self.filter_patterns.len(),
                filter_regexes@.len() == i,
                forall|j: int| 0 <= j < i ==> is_valid(#[trigger] all[j]),
                forall|j: int|
                    0 <= j < i ==> #[trigger] filter_regexes@[j] == compiled(removal[j]),
            decreases self.filter_patterns.len() - i,
        {
            let pattern = &self.filter_patterns[i];
            assert(all[i as int] == pattern@);
            match compile(pattern.as_str()) {
                Ok(re) => {
                    filter_regexes.push(re);
                },
                Err(err) => {
                    proof {
                        lemma_first_invalid_is_unique(all, i as int);
                    }
                    return Err(
                        PatternError { pattern: pattern.clone(), reason: error_text(&err) },
                    );
                },
            }
            i += 1;
        }
        let ghost n = removal.len() as int;
        let mut replacements: Vec<(Regex, String)> = Vec::new();
        let mut i: usize = 0;
        while i < self.replace_patterns.len()
            invariant
                i <= self.replace_patterns.len(),
                all == patterns(self@),
                removal == self@.removal,
                replace == self@.replace,
                n == removal.len(),
                replace.len() == self.replace_patterns.len(),
                replacements@.len() == i,
                forall|j: int| 0 <= j < n + i ==> is_valid(#[trigger] all[j]),
                forall|j: int|
                    0 <= j < i ==> #[trigger] replacements@[j] == (
                        compiled(replace[j].0),
                        self.replace_patterns@[j].1,
                    ),
            decreases self.replace_patterns.len() - i,
        {
            let rule = &self.replace_patterns[i];
            assert(all[n + i] == rule.0@);
            match compile(rule.0.as_str()) {
                Ok(re) => {
                    replacements.push((re, rule.1.clone()));
                },
                Err(err) => {
                    proof {
                        lemma_first_invalid_is_unique(all, n + i);
                    }
                    return Err(
                        PatternError { pattern: rule.0.clone(), reason: error_text(&err) },
                    );
                },
            }
            i += 1;
        }
        let c = CompiledFilter {
            trim_lines_head: self.trim_lines_head,
            trim_lines_tail: self.trim_lines_tail,
            filter_regexes,
            replacements,
        };
        proof {
            assert(c@.removal =~= rules_of(self@).removal);
            assert(c@.replace =~= rules_of(self@).replace);
        }
        Ok(c)
    }
}

impl CompiledFilter {
    /// Makes every replacement in `line`, in the order of the rules.
    pub fn rewrite(&self, line: &str) -> (out: String)
        ensures
            out@ == rewritten(self@.replace, line@),
    {
        let ghost replace = self@.replace;
        let mut out = line.to_owned();
        let mut i: usize = 0;
        while i < self.replacements.len()
            invariant
                i <= self.replacements.len(),
                replace == self@.replace,
                replace.len() == self.replacements.len(),
                out@ == rewritten(replace.take(i as int), line@),
            decreases self.replacements.len() - i,
        {
            let rule = &self.replacements[i];
            proof {
                let next = replace.take(i + 1);
                assert(next.drop_last() =~= replace.take(i as int));
                assert(next.last() == (rule.0, rule.1@));
            }
            out = replace_all(&rule.0, out.as_str(), rule.1.as_str());
            i += 1;
        }
        assert(replace.take(i as int) =~= replace);
        out
    }

    /// Tells whether a removal pattern matches `line`.
    pub fn removes(&self, line: &str) -> (b: bool)
        ensures
            b == is_removed(self@.removal, line@),
    {
        let mut i: usize = 0;
        while i < self.filter_regexes.len()
            invariant
                i <= self.filter_regexes.len(),
                forall|j: int|
                    0 <= j < i ==> !regex_is_match(#[trigger] self.filter_regexes@[j], line@),
            decreases self.filter_regexes.len() - i,
        {
            if is_match(&self.filter_regexes[i], line) {
                return true;
            }
            i += 1;
        }
        false
    }

    /// Filters `raw`: splits it into lines, drops the first `trim_lines_head`
    /// of them, rewrites each of the others, drops those that a removal pattern
    /// then matches, trims whitespace from the end of the others, drops the
    /// last `trim_lines_tail` of what is left, and joins the rest by line feeds.
    pub fn apply(&self, raw: &str) -> (out: Filtered)
        ensures
            out@ == filtered(self@, raw@),
    {
        let all = lines(raw);
        let ghost body = without_head(split_lines(raw@), self@.trim_head);
        let start: usize = if self.trim_lines_head < all.len() {
            self.trim_lines_head
        } else {
            all.len()
        };
        let mut kept: Vec<String> = Vec::new();
        let mut i: usize = start;
        proof {
            assert(texts(all@).len() == all.len());
            assert(body =~= texts(all@).skip(start as int));
        }
        while i < all.len()
            invariant
                start <= i <= all.len(),
                body == texts(all@).skip(start as int),
                texts(kept@) == survivors(self@, body.take(i - start)),
            decreases all.len() - i,
        {
            let line = self.rewrite(all[i].as_str());
            proof {
                let next = body.take(i + 1 - start);
                assert(next.drop_last() =~= body.take(i - start));
                assert(next.last() == all@[i as int]@);
            }
            if !self.removes(line.as_str()) {
                let short = trim_end(line.as_str());
                proof {
                    assert(texts(kept@.push(short)) =~= texts(kept@).push(short@));
                }
                kept.push(short);
            }
            i += 1;
        }
        proof {
            assert(body.take(i - start) =~= body);
            assert(texts(kept@).len() == kept.len());
        }
        if self.trim_lines_tail >= kept.len() {
            Filtered { text: String::new(), nothing_left: true }
        } else {
            Filtered { text: join(&kept, kept.len() - self.trim_lines_tail), nothing_left: false }
        }
    }
}

/// Among patterns of which one does not compile, one is the first that does
/// not.
proof fn lemma_some_invalid_is_first(patterns: Seq<Seq<char>>, upto: int)
    requires
        0 <= upto < patterns.len(),
        !is_valid(patterns[upto]),
    ensures
        exists|k: int| 0 <= k <= upto && is_first_invalid(patterns, k),
    decreases upto,
{
    if forall|j: int| 0 <= j < upto ==> is_valid(#[trigger] patterns[j]) {
        assert(is_first_invalid(patterns, upto));
    } else {
        let j = choose|j: int| 0 <= j < upto && !is_valid(#[trigger] patterns[j]);
        lemma_some_invalid_is_first(patterns, j);
    }
}

/// Where a pattern of a filter does not compile, the error of the filter is
/// that of the first such pattern, in the order in which they are compiled,
/// and names it.
pub proof fn law_rejection_names_first_invalid(f: FilterView)
    requires
        !all_valid(patterns(f)),
    ensures
        compile_of(f) is Err,
        exists|k: int|
            is_first_invalid(patterns(f), k) && compile_of(f)->Err_0 == (PatternErrorView {
                pattern: #[trigger] patterns(f)[k],
                reason: refusal(patterns(f)[k]),
            }),
{
    let ps = patterns(f);
    let bad = choose|j: int| 0 <= j < ps.len() && !is_valid(#[trigger] ps[j]);
    lemma_some_invalid_is_first(ps, bad);
    let k = choose|k: int| is_first_invalid(ps, k);
    lemma_first_invalid_is_unique(ps, k);
}

/// Replacements are made in the order of the rules, each in the result of the
/// one before: a rule added at the end works on what the others made of the
/// line.
pub proof fn law_replacements_in_order(
    replace: Seq<(Regex, Seq<char>)>,
    re: Regex,
    replacement: Seq<char>,
    line: Seq<char>,
)
    ensures
        rewritten(Seq::empty(), line) == line,
        rewritten(replace.push((re, replacement)), line) == regex_replace_all(
            re,
            rewritten(replace, line),
            replacement,
        ),
{
    assert(replace.push((re, replacement)).drop_last() =~= replace);
}

/// Whether a line is removed is decided on the line as the replacements left
/// it, and a line that stays is trimmed only then.
pub proof fn law_removal_sees_rewritten_line(rules: Rules, lines: Seq<Seq<char>>, line: Seq<char>)
    ensures
        survivors(rules, lines.push(line)) == if is_removed(
            rules.removal,
            rewritten(rules.replace, line),
        ) {
            survivors(rules, lines)
        } else {
            survivors(rules, lines).push(trimmed_end(rewritten(rules.replace, line)))
        },
{
    assert(lines.push(line).drop_last() =~= lines);
}

/// Every line either survives or is counted as removed.
pub proof fn law_survivor_count(rules: Rules, lines: Seq<Seq<char>>)
    ensures
        survivors(rules, lines).len() + removed_count(rules, lines) == lines.len(),
    decreases lines.len(),
{
    if lines.len() > 0 {
        law_survivor_count(rules, lines.drop_last());
    }
}

/// Where no removal pattern matches a rewritten line, every line survives, in
/// its place, rewritten and trimmed.
pub proof fn law_survivors_without_removal(rules: Rules, lines: Seq<Seq<char>>)
    requires
        forall|i: int|
            0 <= i < lines.len() ==> !is_removed(
                rules.removal,
                rewritten(rules.replace, #[trigger] lines[i]),
            ),
    ensures
        survivors(rules, lines).len() == lines.len(),
        forall|i: int|
            0 <= i < lines.len() ==> #[trigger] survivors(rules, lines)[i] == trimmed_end(
                rewritten(rules.replace, lines[i]),
            ),
    decreases lines.len(),
{
    if lines.len() > 0 {
        let before = lines.drop_last();
        assert forall|i: int| 0 <= i < before.len() implies !is_removed(
            rules.removal,
            rewritten(rules.replace, #[trigger] before[i]),
        ) by {
            assert(before[i] == lines[i]);
        }
        law_survivors_without_removal(rules, before);
        assert(lines.last() == lines[lines.len() - 1]);
    }
}

/// The head is trimmed by position: the first `trim_head` lines go, whatever
/// they hold and whether or not a pattern matches them, and have no part in
/// what follows.
pub proof fn law_head_trim_is_positional(
    rules: Rules,
    head: Seq<Seq<char>>,
    rest: Seq<Seq<char>>,
)
    requires
        head.len() == rules.trim_head,
    ensures
        remaining(rules, head + rest) == survivors(rules, rest),
        kept(rules, head + rest) == without_tail(survivors(rules, rest), rules.trim_tail),
{
    if rest.len() == 0 {
        assert(without_head(head + rest, rules.trim_head) =~= rest);
    } else {
        assert((head + rest).skip(rules.trim_head as int) =~= rest);
    }
}

/// The tail is trimmed from the lines that are left: a removed line is no
/// longer there to be trimmed. So the filter lets through as many lines as
/// follow the head, less those removed, less `trim_tail`, and none if that is
/// not above zero.
pub proof fn law_kept_count(rules: Rules, lines: Seq<Seq<char>>)
    ensures
        ({
            let body = without_head(lines, rules.trim_head);
            let left = body.len() - removed_count(rules, body) - rules.trim_tail;
            kept(rules, lines).len() == if left > 0 {
                left
            } else {
                0
            }
        }),
{
    law_survivor_count(rules, without_head(lines, rules.trim_head));
}

/// A text of `l` lines, none of which is removed, filtered with `trim_head = h`
/// and `trim_tail = t`: if `h + t < l`, the `l - h - t` lines from the `h`-th on
/// come out, each rewritten and trimmed; if `h + t >= l`, the empty text comes
/// out, and the filter reports that nothing is left.
pub proof fn law_line_count_without_removal(rules: Rules, raw: Seq<char>)
    requires
        forall|i: int|
            rules.trim_head <= i < split_lines(raw).len() ==> !is_removed(
                rules.removal,
                rewritten(rules.replace, #[trigger] split_lines(raw)[i]),
            ),
    ensures
        ({
            let lines = split_lines(raw);
            let h = rules.trim_head as int;
            let t = rules.trim_tail as int;
            let out = kept(rules, lines);
            &&& filtered(rules, raw).text == joined(out)
            &&& filtered(rules, raw).nothing_left == (h + t >= lines.len())
            &&& h + t < lines.len() ==> {
                &&& out.len() == lines.len() - h - t
                &&& forall|i: int|
                    0 <= i < out.len() ==> #[trigger] out[i] == trimmed_end(
                        rewritten(rules.replace, lines[h + i]),
                    )
            }
            &&& h + t >= lines.len() ==> filtered(rules, raw).text == Seq::<char>::empty()
        }),
{
    let lines = split_lines(raw);
    let body = without_head(lines, rules.trim_head);
    law_survivors_without_removal(rules, body);
}

} // verus!
