//! The line and token structure of OpenSSH client configuration text, and the two rules the
//! explorer reads from it: which `Host` aliases are concrete targets, and whether
//! `IdentitiesOnly` applies to an alias.

use vstd::prelude::*;

use crate::text::{
    ascii_lower, ascii_lower_seq, ascii_lowercase, contains_char, has_char, is_ascii_whitespace_char, is_whitespace,
    is_whitespace_char, position_of, string_from_chars, trim, trim_bounds, trimmed, views,
};

use crate::filesystem::ExplorerError;
use crate::ssh_targets::{expand_home, home_expanded};

verus! {

broadcast use vstd::seq_lib::group_seq_properties;

/// The index of the first character of `s` that satisfies `p`, or `s.len()` if none does.
pub open spec fn first_where(s: Seq<char>, p: spec_fn(char) -> bool) -> nat
    decreases s.len(),
{
    if s.len() == 0 {
        0
    } else if p(s[0]) {
        0
    } else {
        1 + first_where(s.drop_first(), p)
    }
}

pub proof fn lemma_first_where_bound(s: Seq<char>, p: spec_fn(char) -> bool)
    ensures
        first_where(s, p) <= s.len(),
        s.len() > 0 && !p(s[0]) ==> first_where(s, p) > 0,
    decreases s.len(),
{
    if s.len() > 0 && !p(s[0]) {
        lemma_first_where_bound(s.drop_first(), p);
    }
}

pub proof fn lemma_first_where_is(s: Seq<char>, p: spec_fn(char) -> bool, k: int)
    requires
        0 <= k <= s.len(),
        forall|m: int| 0 <= m < k ==> !p(#[trigger] s[m]),
        k < s.len() ==> p(s[k]),
    ensures
        first_where(s, p) == k,
    decreases s.len(),
{
    if s.len() > 0 && k > 0 {
        assert(!p(s[0]));
        assert forall|m: int| 0 <= m < k - 1 implies !p(#[trigger] s.drop_first()[m]) by {
            assert(s.drop_first()[m] == s[m + 1]);
        }
        lemma_first_where_is(s.drop_first(), p, k - 1);
    }
}

pub open spec fn newline() -> spec_fn(char) -> bool {
    |c: char| c == '\n'
}

pub open spec fn whitespace() -> spec_fn(char) -> bool {
    |c: char| is_whitespace_char(c)
}

pub open spec fn ascii_whitespace() -> spec_fn(char) -> bool {
    |c: char| is_ascii_whitespace_char(c)
}

/// The pieces of `s` between newlines, without a final empty piece: the lines of the text.
/// (A carriage return before a newline stays in its piece; every rule below trims it away.)
pub open spec fn lines(s: Seq<char>) -> Seq<Seq<char>>
    decreases s.len(),
{
    if s.len() == 0 {
        Seq::empty()
    } else {
        let k = first_where(s, newline());
        proof {
            lemma_first_where_bound(s, newline());
        }
        if k == s.len() {
            seq![s]
        } else {
            seq![s.take(k as int)] + lines(s.skip(k as int + 1))
        }
    }
}

/// The non-empty runs of `s` between characters that satisfy `p`.
pub open spec fn tokens(s: Seq<char>, p: spec_fn(char) -> bool) -> Seq<Seq<char>>
    decreases s.len(),
{
    if s.len() == 0 {
        Seq::empty()
    } else if p(s[0]) {
        tokens(s.drop_first(), p)
    } else {
        let k = first_where(s, p);
        proof {
            lemma_first_where_bound(s, p);
        }
        seq![s.take(k as int)] + tokens(s.skip(k as int), p)
    }
}

/// `s` cut at its first whitespace character, which belongs to neither part.
pub open spec fn split_once_ws(s: Seq<char>) -> Option<(Seq<char>, Seq<char>)> {
    let k = first_where(s, whitespace());
    if k >= s.len() {
        None
    } else {
        Some((s.take(k as int), s.skip(k as int + 1)))
    }
}

/// Each line of the configuration as a trimmed keyword and the rest of the line, if it has
/// whitespace after the keyword.
pub open spec fn config_entries(s: Seq<char>) -> Seq<Option<(Seq<char>, Seq<char>)>> {
    lines(s).map_values(|line: Seq<char>| split_once_ws(trim(line)))
}

pub open spec fn eq_ignore_ascii_case(a: Seq<char>, b: Seq<char>) -> bool {
    ascii_lower_seq(a) == ascii_lower_seq(b)
}

/// A chars range copied out of `s`.
pub fn chars_range(s: &Vec<char>, from: usize, to: usize) -> (r: Vec<char>)
    requires
        from <= to <= s.len(),
    ensures
        r@ == s@.subrange(from as int, to as int),
{
    let mut r: Vec<char> = Vec::new();
    let mut i = from;
    while i < to
        invariant
            from <= i <= to <= s.len(),
            r@ == s@.subrange(from as int, i as int),
        decreases to - i,
    {
        r.push(s[i]);
        i = i + 1;
    }
    r
}

pub open spec fn char_views(v: Seq<Vec<char>>) -> Seq<Seq<char>> {
    v.map_values(|x: Vec<char>| x@)
}

/// The lines of `s`.
pub fn lines_of(s: &Vec<char>) -> (r: Vec<Vec<char>>)
    ensures
        char_views(r@) == lines(s@),
{
    let mut out: Vec<Vec<char>> = Vec::new();
    let mut start: usize = 0;
    assert(s@.skip(0) =~= s@);
    while start < s.len()
        invariant
            start <= s.len(),
            lines(s@) == char_views(out@) + lines(s@.skip(start as int)),
        decreases s.len() - start,
    {
        let ghost t = s@.skip(start as int);
        let mut k = start;
        while k < s.len() && s[k] != '\n'
            invariant
                start <= k <= s.len(),
                t == s@.skip(start as int),
                forall|m: int| 0 <= m < k - start ==> !newline()(#[trigger] t[m]),
            decreases s.len() - k,
        {
            k = k + 1;
        }
        proof {
            lemma_first_where_is(t, newline(), k - start);
        }
        let line = chars_range(s, start, k);
        let ghost before = out@;
        out.push(line);
        proof {
            assert(char_views(out@) =~= char_views(before).push(line@));
            assert(line@ =~= t.take(k - start));
        }
        if k == s.len() {
            proof {
                assert(lines(t) == seq![t]);
                assert(t.take(k - start) =~= t);
                assert(s@.skip(s.len() as int) =~= Seq::<char>::empty());
                assert(char_views(before) + lines(t) =~= char_views(out@) + lines(s@.skip(s.len() as int)));
            }
            start = k;
        } else {
            proof {
                assert(t.skip(k - start + 1) =~= s@.skip(k + 1));
                assert(char_views(before) + lines(t) =~= char_views(out@) + lines(s@.skip(k + 1)));
            }
            start = k + 1;
        }
    }
    assert(s@.skip(start as int) =~= Seq::<char>::empty());
    assert(char_views(out@) + Seq::<Seq<char>>::empty() =~= char_views(out@));
    out
}

/// The runs of `s` between ASCII whitespace.
pub fn ascii_tokens(s: &Vec<char>) -> (r: Vec<Vec<char>>)
    ensures
        char_views(r@) == tokens(s@, ascii_whitespace()),
{
    let mut out: Vec<Vec<char>> = Vec::new();
    let mut start: usize = 0;
    assert(s@.skip(0) =~= s@);
    while start < s.len()
        invariant
            start <= s.len(),
            tokens(s@, ascii_whitespace()) == char_views(out@) + tokens(s@.skip(start as int), ascii_whitespace()),
        decreases s.len() - start,
    {
        let ghost t = s@.skip(start as int);
        let c = s[start];
        if c == ' ' || c == '\t' || c == '\n' || c == '\x0C' || c == '\r' {
            proof {
                assert(t.drop_first() =~= s@.skip(start + 1));
            }
            start = start + 1;
        } else {
            let mut k = start;
            while k < s.len() && !(s[k] == ' ' || s[k] == '\t' || s[k] == '\n' || s[k] == '\x0C' || s[k] == '\r')
                invariant
                    start <= k <= s.len(),
                    t == s@.skip(start as int),
                    forall|m: int| 0 <= m < k - start ==> !ascii_whitespace()(#[trigger] t[m]),
                decreases s.len() - k,
            {
                k = k + 1;
            }
            proof {
                lemma_first_where_is(t, ascii_whitespace(), k - start);
                assert(t.skip(k - start) =~= s@.skip(k as int));
            }
            let token = chars_range(s, start, k);
            let ghost before = out@;
            out.push(token);
            proof {
                assert(char_views(out@) =~= char_views(before).push(token@));
                assert(token@ =~= t.take(k - start));
                assert(char_views(before) + tokens(t, ascii_whitespace()) =~= char_views(out@) + tokens(s@.skip(k as int), ascii_whitespace()));
            }
            start = k;
        }
    }
    assert(s@.skip(start as int) =~= Seq::<char>::empty());
    assert(char_views(out@) + Seq::<Seq<char>>::empty() =~= char_views(out@));
    out
}

/// `s` cut at its first whitespace character.
pub fn split_once_whitespace(s: &Vec<char>) -> (r: Option<(Vec<char>, Vec<char>)>)
    ensures
        match r {
            Some((a, b)) => split_once_ws(s@) == Some((a@, b@)),
            None => split_once_ws(s@) is None,
        },
{
    let mut k: usize = 0;
    while k < s.len() && !is_whitespace(s[k])
        invariant
            k <= s.len(),
            forall|m: int| 0 <= m < k ==> !whitespace()(#[trigger] s@[m]),
        decreases s.len() - k,
    {
        k = k + 1;
    }
    proof {
        lemma_first_where_is(s@, whitespace(), k as int);
    }
    if k == s.len() {
        None
    } else {
        Some((chars_range(s, 0, k), chars_range(s, k + 1, s.len())))
    }
}

/// Whether `a` and `b` are equal when ASCII letters are compared without case.
pub fn same_ignoring_ascii_case(a: &Vec<char>, b: &str) -> (r: bool)
    ensures
        r == eq_ignore_ascii_case(a@, b@),
{
    let bc = crate::text::chars_of(b);
    if a.len() != bc.len() {
        assert(ascii_lower_seq(a@).len() != ascii_lower_seq(bc@).len());
        return false;
    }
    let mut i: usize = 0;
    while i < a.len()
        invariant
            a.len() == bc.len(),
            bc@ == b@,
            i <= a.len(),
            forall|m: int| 0 <= m < i ==> ascii_lower(a@[m]) == ascii_lower(bc@[m]),
        decreases a.len() - i,
    {
        if ascii_lowercase(a[i]) != ascii_lowercase(bc[i]) {
            assert(ascii_lower_seq(a@)[i as int] != ascii_lower_seq(bc@)[i as int]);
            return false;
        }
        i = i + 1;
    }
    assert(ascii_lower_seq(a@) =~= ascii_lower_seq(bc@));
    true
}

/// The trimmed keyword and rest of each line of `contents`.
pub fn config_entries_of(contents: &str) -> (r: Vec<Option<(Vec<char>, Vec<char>)>>)
    ensures
        r@.len() == config_entries(contents@).len(),
        forall|i: int| 0 <= i < r@.len() ==> match #[trigger] r@[i] {
            Some((a, b)) => config_entries(contents@)[i] == Some((a@, b@)),
            None => config_entries(contents@)[i] is None,
        },
{
    let chars = crate::text::chars_of(contents);
    let all_lines = lines_of(&chars);
    let mut out: Vec<Option<(Vec<char>, Vec<char>)>> = Vec::new();
    let mut i: usize = 0;
    while i < all_lines.len()
        invariant
            i <= all_lines.len(),
            chars@ == contents@,
            char_views(all_lines@) == lines(contents@),
            out@.len() == i,
            forall|j: int| 0 <= j < i ==> match #[trigger] out@[j] {
                Some((a, b)) => config_entries(contents@)[j] == Some((a@, b@)),
                None => config_entries(contents@)[j] is None,
            },
        decreases all_lines.len() - i,
    {
        let line = &all_lines[i];
        let (start, end) = trim_bounds(line);
        let trimmed = chars_range(line, start, end);
        assert(char_views(all_lines@)[i as int] == line@);
        out.push(split_once_whitespace(&trimmed));
        i = i + 1;
    }
    out
}

/// A `Host` alias names one concrete target: it is not negated and has no wildcard.
pub open spec fn concrete_alias(a: Seq<char>) -> bool {
    !(a.len() > 0 && a[0] == '!') && !contains_char(a, '*') && !contains_char(a, '?')
}

/// `acc` extended with each concrete alias of `toks` that it does not hold yet.
pub open spec fn add_aliases(acc: Seq<Seq<char>>, toks: Seq<Seq<char>>) -> Seq<Seq<char>>
    decreases toks.len(),
{
    if toks.len() == 0 {
        acc
    } else {
        let prev = add_aliases(acc, toks.drop_last());
        let a = toks.last();
        if concrete_alias(a) && !prev.contains(a) {
            prev.push(a)
        } else {
            prev
        }
    }
}

pub open spec fn host_keyword(k: Seq<char>) -> bool {
    eq_ignore_ascii_case(k, "host"@)
}

/// The concrete aliases of the `Host` lines among `entries`, in order of first appearance.
pub open spec fn aliases_in(entries: Seq<Option<(Seq<char>, Seq<char>)>>) -> Seq<Seq<char>>
    decreases entries.len(),
{
    if entries.len() == 0 {
        Seq::empty()
    } else {
        let prev = aliases_in(entries.drop_last());
        match entries.last() {
            Some((k, v)) => if host_keyword(k) {
                add_aliases(prev, tokens(v, ascii_whitespace()))
            } else {
                prev
            },
            None => prev,
        }
    }
}

pub open spec fn config_aliases(contents: Seq<char>) -> Seq<Seq<char>> {
    aliases_in(config_entries(contents))
}

fn is_concrete_alias(a: &Vec<char>) -> (r: bool)
    ensures
        r == concrete_alias(a@),
{
    !(a.len() > 0 && a[0] == '!') && !has_char(a, '*') && !has_char(a, '?')
}

/// The concrete host aliases that the configuration text defines, each once.
pub fn discover_aliases(contents: &str) -> (r: Vec<String>)
    ensures
        views(r@) == config_aliases(contents@),
{
    let entries = config_entries_of(contents);
    let ghost es = config_entries(contents@);
    let mut out: Vec<String> = Vec::new();
    let mut i: usize = 0;
    assert(es.take(0) =~= Seq::<Option<(Seq<char>, Seq<char>)>>::empty());
    while i < entries.len()
        invariant
            i <= entries.len(),
            es == config_entries(contents@),
            entries@.len() == es.len(),
            forall|j: int| 0 <= j < entries@.len() ==> match #[trigger] entries@[j] {
                Some((a, b)) => es[j] == Some((a@, b@)),
                None => es[j] is None,
            },
            views(out@) == aliases_in(es.take(i as int)),
        decreases entries.len() - i,
    {
        assert(es.take(i + 1).drop_last() =~= es.take(i as int));
        let entry = &entries[i];
        assert(match entries@[i as int] {
            Some((a, b)) => es[i as int] == Some((a@, b@)),
            None => es[i as int] is None,
        });
        match entry {
            Some((key, values)) => {
                if same_ignoring_ascii_case(key, "host") {
                    let toks = ascii_tokens(values);
                    let ghost base = views(out@);
                    let ghost ts = char_views(toks@);
                    let mut j: usize = 0;
                    assert(ts.take(0) =~= Seq::<Seq<char>>::empty());
                    while j < toks.len()
                        invariant
                            j <= toks.len(),
                            ts == char_views(toks@),
                            views(out@) == add_aliases(base, ts.take(j as int)),
                        decreases toks.len() - j,
                    {
                        assert(ts.take(j + 1).drop_last() =~= ts.take(j as int));
                        let tok = &toks[j];
                        assert(ts[j as int] == tok@);
                        if is_concrete_alias(tok) {
                            let alias = string_from_chars(tok);
                            if position_of(&out, alias.as_str()).is_none() {
                                let ghost prev = out@;
                                out.push(alias);
                                assert(views(out@) =~= views(prev).push(tok@));
                            }
                        }
                        j = j + 1;
                    }
                    assert(ts.take(toks.len() as int) =~= ts);
                }
            },
            None => {},
        }
        i = i + 1;
    }
    assert(es.take(entries.len() as int) =~= es);
    out
}

/// Whether `glob::Pattern` accepts `pattern` and matches `text` with it.
pub uninterp spec fn glob_matches(pattern: Seq<char>, text: Seq<char>) -> bool;

/// `glob::Pattern::new(pattern)` and then `matches(text)`; an invalid pattern matches
/// nothing.
///
/// Trusted: the answer is named, not stated; it depends on the two strings alone.
#[verifier::external_body]
fn pattern_matches(pattern: &str, text: &str) -> (r: bool)
    ensures
        r == glob_matches(pattern@, text@),
{
    match glob::Pattern::new(pattern) {
        Ok(compiled) => compiled.matches(text),
        Err(_) => false,
    }
}

/// A `Host` pattern applies to an alias when it is not negated and matches it.
pub open spec fn pattern_applies(pattern: Seq<char>, alias: Seq<char>) -> bool {
    !(pattern.len() > 0 && pattern[0] == '!') && glob_matches(pattern, alias)
}

pub open spec fn host_line_matches(values: Seq<char>, alias: Seq<char>) -> bool {
    exists|i: int| 0 <= i < tokens(values, ascii_whitespace()).len()
        && pattern_applies(#[trigger] tokens(values, ascii_whitespace())[i], alias)
}

/// Reading the entries in order: whether the current `Host` block applies to the alias
/// (lines before any `Host` apply), and the first `IdentitiesOnly` value in an applying block.
pub open spec fn identities_state(entries: Seq<Option<(Seq<char>, Seq<char>)>>, alias: Seq<char>) -> (bool, Option<bool>)
    decreases entries.len(),
{
    if entries.len() == 0 {
        (true, None)
    } else {
        let (applies, resolved) = identities_state(entries.drop_last(), alias);
        match entries.last() {
            Some((k, v)) => if host_keyword(k) {
                (host_line_matches(v, alias), resolved)
            } else if applies && resolved is None && eq_ignore_ascii_case(k, "identitiesonly"@) {
                (applies, Some(eq_ignore_ascii_case(trim(v), "yes"@)))
            } else {
                (applies, resolved)
            },
            None => (applies, resolved),
        }
    }
}

pub open spec fn identities_only(contents: Seq<char>, alias: Seq<char>) -> bool {
    match identities_state(config_entries(contents), alias).1 {
        Some(b) => b,
        None => false,
    }
}

/// Once an applying block has given `IdentitiesOnly` a value, later entries never change it.
pub proof fn lemma_first_identities_only_wins(
    entries: Seq<Option<(Seq<char>, Seq<char>)>>,
    more: Seq<Option<(Seq<char>, Seq<char>)>>,
    alias: Seq<char>,
)
    requires
        identities_state(entries, alias).1 is Some,
    ensures
        identities_state(entries + more, alias).1 == identities_state(entries, alias).1,
    decreases more.len(),
{
    if more.len() > 0 {
        lemma_first_identities_only_wins(entries, more.drop_last(), alias);
        assert((entries + more).drop_last() =~= entries + more.drop_last());
        assert((entries + more).last() == more.last());
    } else {
        assert(entries + more =~= entries);
    }
}

/// Text that ends with a newline is read line by line up to it: its lines come first.
pub proof fn lemma_lines_append(c: Seq<char>, m: Seq<char>)
    requires
        c.len() > 0,
        c.last() == '\n',
    ensures
        lines(c + m) == lines(c) + lines(m),
    decreases c.len(),
{
    let k = first_where(c, newline());
    lemma_first_where_bound(c, newline());
    if k == c.len() {
        assert forall|i: int| 0 <= i < c.len() implies !newline()(#[trigger] c[i]) by {
            lemma_first_where_none(c, newline(), i);
        }
        assert(newline()(c[c.len() - 1]));
        assert(false);
    }
    lemma_first_where_prefix(c, newline(), k as int);
    lemma_first_where_is(c + m, newline(), k as int);
    assert((c + m).take(k as int) =~= c.take(k as int));
    let rest = c.skip(k as int + 1);
    assert((c + m).skip(k as int + 1) =~= rest + m);
    if rest.len() == 0 {
        assert(rest + m =~= m);
        assert(lines(rest) =~= Seq::<Seq<char>>::empty());
        assert(lines(c) =~= seq![c.take(k as int)]);
    } else {
        assert(rest.last() == c.last());
        lemma_lines_append(rest, m);
        assert(lines(c + m) =~= seq![c.take(k as int)] + (lines(rest) + lines(m)));
    }
}

/// The first newline of `s` is at `first_where`, and none comes before it.
proof fn lemma_first_where_prefix(s: Seq<char>, p: spec_fn(char) -> bool, k: int)
    requires
        k == first_where(s, p),
        k < s.len(),
    ensures
        p(s[k]),
        forall|m: int| 0 <= m < k ==> !p(#[trigger] s[m]),
    decreases s.len(),
{
    if s.len() > 0 && !p(s[0]) {
        lemma_first_where_prefix(s.drop_first(), p, k - 1);
        assert forall|m: int| 0 <= m < k implies !p(#[trigger] s[m]) by {
            if m > 0 {
                assert(s[m] == s.drop_first()[m - 1]);
            }
        }
    }
}

/// When nothing satisfies `p`, `first_where` is the length.
proof fn lemma_first_where_none(s: Seq<char>, p: spec_fn(char) -> bool, i: int)
    requires
        first_where(s, p) == s.len(),
        0 <= i < s.len(),
    ensures
        !p(s[i]),
    decreases s.len(),
{
    if p(s[0]) {
    } else if i > 0 {
        lemma_first_where_none(s.drop_first(), p, i - 1);
    }
}

/// The first `IdentitiesOnly` value obtained for an alias wins, as in OpenSSH: once the text
/// up to a line break resolves it, nothing appended after changes the answer.
pub proof fn lemma_identities_only_first_value_wins(c: Seq<char>, more: Seq<char>, alias: Seq<char>)
    requires
        c.len() > 0,
        c.last() == '\n',
        identities_state(config_entries(c), alias).1 is Some,
    ensures
        identities_only(c + more, alias) == identities_only(c, alias),
{
    lemma_lines_append(c, more);
    assert(config_entries(c + more) =~= config_entries(c) + config_entries(more));
    lemma_first_identities_only_wins(config_entries(c), config_entries(more), alias);
}

fn host_line_applies(values: &Vec<char>, alias: &str) -> (r: bool)
    ensures
        r == host_line_matches(values@, alias@),
{
    let toks = ascii_tokens(values);
    let ghost ts = char_views(toks@);
    let mut j: usize = 0;
    while j < toks.len()
        invariant
            j <= toks.len(),
            ts == char_views(toks@),
            ts == tokens(values@, ascii_whitespace()),
            forall|m: int| 0 <= m < j ==> !pattern_applies(#[trigger] ts[m], alias@),
        decreases toks.len() - j,
    {
        let tok = &toks[j];
        assert(ts[j as int] == tok@);
        if !(tok.len() > 0 && tok[0] == '!') {
            let pattern = string_from_chars(tok);
            if pattern_matches(pattern.as_str(), alias) {
                assert(pattern_applies(ts[j as int], alias@));
                return true;
            }
        }
        j = j + 1;
    }
    false
}

/// Whether the configuration asks that only the configured identities be offered for `alias`.
pub fn resolve_identities_only(contents: &str, alias: &str) -> (r: bool)
    ensures
        r == identities_only(contents@, alias@),
{
    let entries = config_entries_of(contents);
    let ghost es = config_entries(contents@);
    let mut applies = true;
    let mut resolved: Option<bool> = None;
    let mut i: usize = 0;
    assert(es.take(0) =~= Seq::<Option<(Seq<char>, Seq<char>)>>::empty());
    while i < entries.len()
        invariant
            i <= entries.len(),
            es == config_entries(contents@),
            entries@.len() == es.len(),
            forall|j: int| 0 <= j < entries@.len() ==> match #[trigger] entries@[j] {
                Some((a, b)) => es[j] == Some((a@, b@)),
                None => es[j] is None,
            },
            (applies, resolved) == identities_state(es.take(i as int), alias@),
        decreases entries.len() - i,
    {
        assert(es.take(i + 1).drop_last() =~= es.take(i as int));
        assert(match entries@[i as int] {
            Some((a, b)) => es[i as int] == Some((a@, b@)),
            None => es[i as int] is None,
        });
        match &entries[i] {
            Some((key, values)) => {
                if same_ignoring_ascii_case(key, "host") {
                    applies = host_line_applies(values, alias);
                } else if applies && resolved.is_none() && same_ignoring_ascii_case(key, "identitiesonly") {
                    let value = trimmed(string_from_chars(values).as_str());
                    let value_chars = crate::text::chars_of(value.as_str());
                    resolved = Some(same_ignoring_ascii_case(&value_chars, "yes"));
                }
            },
            None => {},
        }
        i = i + 1;
    }
    assert(es.take(entries.len() as int) =~= es);
    match resolved {
        Some(b) => b,
        None => false,
    }
}

pub open spec fn is_quote(c: char) -> bool {
    c == '\'' || c == '"'
}

pub open spec fn strip_leading_quotes(p: Seq<char>) -> Seq<char>
    decreases p.len(),
{
    if p.len() > 0 && is_quote(p[0]) {
        strip_leading_quotes(p.drop_first())
    } else {
        p
    }
}

pub open spec fn strip_trailing_quotes(p: Seq<char>) -> Seq<char>
    decreases p.len(),
{
    if p.len() > 0 && is_quote(p.last()) {
        strip_trailing_quotes(p.drop_last())
    } else {
        p
    }
}

/// A pattern without the quotes around it.
pub open spec fn unquoted(p: Seq<char>) -> Seq<char> {
    strip_trailing_quotes(strip_leading_quotes(p))
}

fn unquote(p: &Vec<char>) -> (r: Vec<char>)
    ensures
        r@ == unquoted(p@),
{
    let mut start: usize = 0;
    while start < p.len() && (p[start] == '\'' || p[start] == '"')
        invariant
            start <= p.len(),
            strip_leading_quotes(p@) == strip_leading_quotes(p@.skip(start as int)),
        decreases p.len() - start,
    {
        assert(p@.skip(start as int).drop_first() =~= p@.skip(start as int + 1));
        start = start + 1;
    }
    let mut end: usize = p.len();
    assert(p@.skip(start as int) =~= p@.subrange(start as int, end as int));
    while end > start && (p[end - 1] == '\'' || p[end - 1] == '"')
        invariant
            start <= end <= p.len(),
            strip_leading_quotes(p@) == p@.skip(start as int),
            unquoted(p@) == strip_trailing_quotes(p@.subrange(start as int, end as int)),
        decreases end - start,
    {
        assert(p@.subrange(start as int, end as int).drop_last() =~= p@.subrange(start as int, end as int - 1));
        end = end - 1;
    }
    chars_range(p, start, end)
}

/// The patterns of an OpenSSH `Include` line, unquoted and with `~/` standing for the home
/// directory; `None` for any other line.
pub open spec fn include_patterns_of(line: Seq<char>, home: Seq<char>) -> Option<Seq<Seq<char>>> {
    match split_once_ws(trim(line)) {
        Some((key, value)) => if eq_ignore_ascii_case(key, "include"@) {
            Some(tokens(trim(value), ascii_whitespace()).map_values(|p: Seq<char>| home_expanded(unquoted(p), home)))
        } else {
            None
        },
        None => None,
    }
}

/// How deep `Include` lines may nest.
pub const MAX_INCLUDE_DEPTH: usize = 8;

/// Starts reading a configuration file met at include depth `depth`, whose canonical
/// path is `canonical`: nesting deeper than `MAX_INCLUDE_DEPTH` is refused; a file
/// already read adds nothing (so include cycles end); any other file is read and
/// remembered.
pub fn begin_config_file(visited: &mut Vec<String>, depth: usize, canonical: &str) -> (r: Result<bool, ExplorerError>)
    ensures
        depth > MAX_INCLUDE_DEPTH ==> r is Err && (r->Err_0 matches ExplorerError::InvalidConfiguration(m)
            && m@ == "OpenSSH config includes are nested too deeply."@) && views(final(visited)@) == views(old(visited)@),
        depth <= MAX_INCLUDE_DEPTH && views(old(visited)@).contains(canonical@) ==> r == Ok::<bool, ExplorerError>(false)
            && views(final(visited)@) == views(old(visited)@),
        depth <= MAX_INCLUDE_DEPTH && !views(old(visited)@).contains(canonical@) ==> r == Ok::<bool, ExplorerError>(true)
            && views(final(visited)@) == views(old(visited)@).push(canonical@),
{
    if depth > MAX_INCLUDE_DEPTH {
        return Err(ExplorerError::InvalidConfiguration("OpenSSH config includes are nested too deeply.".to_owned()));
    }
    if position_of(visited, canonical).is_some() {
        return Ok(false);
    }
    let ghost before = views(visited@);
    visited.push(canonical.to_owned());
    assert(views(visited@) =~= before.push(canonical@));
    Ok(true)
}

/// The refusal of an `Include` pattern that is not a valid glob pattern.
pub fn invalid_include_pattern() -> (r: ExplorerError)
    ensures
        r matches ExplorerError::InvalidConfiguration(m) && m@ == "An OpenSSH Include pattern is invalid."@,
{
    ExplorerError::InvalidConfiguration("An OpenSSH Include pattern is invalid.".to_owned())
}

pub fn include_patterns(line: &str, home_dir: &str) -> (r: Option<Vec<String>>)
    ensures
        match include_patterns_of(line@, home_dir@) {
            Some(ps) => r is Some && views(r->0@) == ps,
            None => r is None,
        },
{
    let chars = crate::text::chars_of(line);
    let (start, end) = trim_bounds(&chars);
    let t = chars_range(&chars, start, end);
    let (key, value) = match split_once_whitespace(&t) {
        Some(kv) => kv,
        None => {
            return None;
        },
    };
    if !same_ignoring_ascii_case(&key, "include") {
        return None;
    }
    let (vs, ve) = trim_bounds(&value);
    let v = chars_range(&value, vs, ve);
    let parts = ascii_tokens(&v);
    let ghost toks = tokens(trim(value@), ascii_whitespace());
    let mut out: Vec<String> = Vec::new();
    let mut i: usize = 0;
    while i < parts.len()
        invariant
            i <= parts.len(),
            char_views(parts@) == toks,
            views(out@) == toks.take(i as int).map_values(|p: Seq<char>| home_expanded(unquoted(p), home_dir@)),
        decreases parts.len() - i,
    {
        let bare = unquote(&parts[i]);
        let pattern = string_from_chars(&bare);
        let expanded = expand_home(pattern.as_str(), home_dir);
        proof {
            assert(char_views(parts@)[i as int] == parts@[i as int]@);
            assert(expanded@ == home_expanded(unquoted(toks[i as int]), home_dir@));
        }
        let ghost prev = out@;
        out.push(expanded);
        assert(views(out@) =~= views(prev).push(expanded@));
        assert(toks.take(i as int + 1) =~= toks.take(i as int).push(toks[i as int]));
        assert(views(out@) =~= toks.take(i as int + 1).map_values(|p: Seq<char>| home_expanded(unquoted(p), home_dir@)));
        i = i + 1;
    }
    assert(toks.take(parts@.len() as int) =~= toks);
    Some(out)
}

} // verus!
