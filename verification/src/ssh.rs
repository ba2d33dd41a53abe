//! The pure parts of SSH browsing: remote path arithmetic, breadcrumbs, entry kinds, the
//! answers to authentication prompts and which connection may answer them, and how SFTP
//! failures are reported.

use vstd::prelude::*;

use crate::config_text::{chars_range, first_where, lemma_first_where_bound, lemma_first_where_is, tokens};
use crate::file_operations::{char_is, relative_components, remote_relative_to_local, split_on};
use crate::filesystem::{ExplorerError, IoErrorKind};
use crate::paths::{last_index, lowercase_path_extension, lowered, path_extension, remote_kind_for_extension, remote_kind_of_extension, trailing_count};
use crate::ssh_targets::{endpoint_text, ResolvedSshTarget};
use crate::text::{chars_of, starts_with, str_eq, str_starts_with, string_from_chars, string_from_range};

verus! {

broadcast use vstd::seq_lib::group_seq_properties;

/// `path` without its trailing separators.
pub open spec fn trimmed_path(path: Seq<char>) -> Seq<char> {
    path.take(path.len() - trailing_count(path, '/'))
}

/// The parent of a remote path: none for the root; `/` for a top-level entry; otherwise
/// everything before the last separator (a relative name has `/` as parent too).
pub open spec fn parent_of(path: Seq<char>) -> Option<Seq<char>> {
    if path == "/"@ {
        None
    } else {
        let t = trimmed_path(path);
        let k = last_index(t, '/');
        let parent = if k < 0 { Seq::<char>::empty() } else { t.take(k) };
        Some(if parent.len() == 0 { "/"@ } else { parent })
    }
}

/// The name of a remote path: `/` for the root, otherwise its last non-empty component,
/// or the path itself when it has none.
pub open spec fn name_of(path: Seq<char>) -> Seq<char> {
    if path == "/"@ {
        "/"@
    } else {
        let t = trimmed_path(path);
        let last = t.skip(last_index(t, '/') + 1);
        if last.len() > 0 { last } else { path }
    }
}

/// A child path: the name under the root, or under the parent without its trailing
/// separators.
pub open spec fn joined(parent: Seq<char>, name: Seq<char>) -> Seq<char> {
    if parent == "/"@ {
        "/"@ + name
    } else {
        trimmed_path(parent) + "/"@ + name
    }
}

fn trim_end_slashes(chars: &Vec<char>) -> (r: usize)
    ensures
        r <= chars.len(),
        chars@.take(r as int) == trimmed_path(chars@),
{
    let mut t = chars.len();
    while t > 0 && chars[t - 1] == '/'
        invariant
            t <= chars.len(),
            trailing_count(chars@, '/') == (chars.len() - t) + trailing_count(chars@.take(t as int), '/'),
        decreases t,
    {
        assert(chars@.take(t as int).drop_last() =~= chars@.take(t - 1));
        t = t - 1;
    }
    assert(chars@.take(t as int) =~= chars@.take(chars.len() - trailing_count(chars@, '/')));
    t
}

fn is_root(path: &str) -> (r: bool)
    ensures
        r == (path@ == "/"@),
{
    str_eq(path, "/")
}

fn last_slash(chars: &Vec<char>, end: usize) -> (r: Option<usize>)
    requires
        end <= chars.len(),
    ensures
        match r {
            Some(k) => k < end && k as int == last_index(chars@.take(end as int), '/'),
            None => last_index(chars@.take(end as int), '/') == -1,
        },
{
    let mut i = end;
    while i > 0 && chars[i - 1] != '/'
        invariant
            i <= end <= chars.len(),
            last_index(chars@.take(end as int), '/') == last_index(chars@.take(i as int), '/'),
        decreases i,
    {
        assert(chars@.take(i as int).drop_last() =~= chars@.take(i - 1));
        i = i - 1;
    }
    if i == 0 {
        assert(chars@.take(0) =~= Seq::<char>::empty());
        None
    } else {
        Some(i - 1)
    }
}

pub fn remote_parent(path: &str) -> (r: Option<String>)
    ensures
        match r {
            Some(p) => parent_of(path@) == Some(p@),
            None => parent_of(path@) is None,
        },
{
    if is_root(path) {
        return None;
    }
    let chars = chars_of(path);
    let t = trim_end_slashes(&chars);
    let parent = match last_slash(&chars, t) {
        Some(k) => {
            assert(chars@.take(t as int).take(k as int) =~= chars@.subrange(0, k as int));
            string_from_range(&chars, 0, k)
        },
        None => String::new(),
    };
    if parent.as_str().unicode_len() == 0 {
        Some("/".to_owned())
    } else {
        Some(parent)
    }
}

pub fn remote_name(path: &str) -> (r: String)
    ensures
        r@ == name_of(path@),
{
    if is_root(path) {
        return "/".to_owned();
    }
    let chars = chars_of(path);
    let t = trim_end_slashes(&chars);
    let start = match last_slash(&chars, t) {
        Some(k) => k + 1,
        None => 0,
    };
    proof {
        crate::paths::lemma_last_index(chars@.take(t as int), '/');
        assert(chars@.take(t as int).skip(last_index(chars@.take(t as int), '/') + 1) =~= chars@.subrange(start as int, t as int));
    }
    if start < t {
        string_from_range(&chars, start, t)
    } else {
        path.to_owned()
    }
}

pub fn remote_join(parent: &str, name: &str) -> (r: String)
    ensures
        r@ == joined(parent@, name@),
{
    if is_root(parent) {
        "/".to_owned().concat(name)
    } else {
        let chars = chars_of(parent);
        let t = trim_end_slashes(&chars);
        string_from_range(&chars, 0, t).concat("/").concat(name)
    }
}

/// The kind shown for a remote entry.
pub open spec fn remote_content_kind(name: Seq<char>, is_directory: bool) -> Seq<char> {
    if is_directory {
        "folder"@
    } else {
        remote_kind_of_extension(lowered(path_extension(name)))
    }
}

pub fn content_kind(name: &str, is_directory: bool) -> (r: &'static str)
    ensures
        r@ == remote_content_kind(name@, is_directory),
{
    if is_directory {
        return "folder";
    }
    let ext = lowercase_path_extension(name);
    remote_kind_for_extension(&ext)
}

/// `user@host`, with the port unless it is the standard one.
pub fn endpoint(target: &ResolvedSshTarget) -> (r: String)
    ensures
        r@ == endpoint_text(target.username@, target.host@, target.port),
{
    crate::ssh_targets::endpoint(target.username.as_str(), target.host.as_str(), target.port)
}

/// The breadcrumb trail of a remote path as (label, path) pairs: the target's root for an
/// absolute path, then one crumb per component; the target alone when there is none.
pub open spec fn crumb_trail(segments: Seq<Seq<char>>, current: Seq<char>) -> Seq<(Seq<char>, Seq<char>)>
    decreases segments.len(),
{
    if segments.len() == 0 {
        Seq::empty()
    } else {
        let next = if current == "/"@ || current.len() == 0 {
            current + segments[0]
        } else {
            current + "/"@ + segments[0]
        };
        seq![(segments[0], next)] + crumb_trail(segments.drop_first(), next)
    }
}

pub open spec fn remote_crumbs(path: Seq<char>, target_name: Seq<char>) -> Seq<(Seq<char>, Seq<char>)> {
    let absolute = starts_with(path, "/"@);
    let start = if absolute { "/"@ } else { Seq::<char>::empty() };
    let head = if absolute { seq![(target_name, "/"@)] } else { Seq::empty() };
    let all = head + crumb_trail(tokens(path, char_is('/')), start);
    if all.len() == 0 {
        seq![(target_name, path)]
    } else {
        all
    }
}

/// The runs of `s` between separators.
pub fn path_segments(s: &Vec<char>) -> (r: Vec<Vec<char>>)
    ensures
        crate::config_text::char_views(r@) == tokens(s@, char_is('/')),
{
    let mut out: Vec<Vec<char>> = Vec::new();
    let mut start: usize = 0;
    assert(s@.skip(0) =~= s@);
    while start < s.len()
        invariant
            start <= s.len(),
            tokens(s@, char_is('/')) == crate::config_text::char_views(out@) + tokens(s@.skip(start as int), char_is('/')),
        decreases s.len() - start,
    {
        let ghost t = s@.skip(start as int);
        if s[start] == '/' {
            assert(t.drop_first() =~= s@.skip(start + 1));
            start = start + 1;
        } else {
            let mut k = start;
            while k < s.len() && s[k] != '/'
                invariant
                    start <= k <= s.len(),
                    t == s@.skip(start as int),
                    forall|m: int| 0 <= m < k - start ==> !char_is('/')(#[trigger] t[m]),
                decreases s.len() - k,
            {
                k = k + 1;
            }
            proof {
                lemma_first_where_is(t, char_is('/'), k - start);
                assert(t.skip(k - start) =~= s@.skip(k as int));
            }
            let piece = chars_range(s, start, k);
            let ghost before = out@;
            out.push(piece);
            proof {
                assert(crate::config_text::char_views(out@) =~= crate::config_text::char_views(before).push(piece@));
                assert(piece@ =~= t.take(k - start));
                assert(crate::config_text::char_views(before) + tokens(t, char_is('/')) =~= crate::config_text::char_views(out@)
                    + tokens(s@.skip(k as int), char_is('/')));
            }
            start = k;
        }
    }
    assert(s@.skip(start as int) =~= Seq::<char>::empty());
    assert(crate::config_text::char_views(out@) + Seq::<Seq<char>>::empty() =~= crate::config_text::char_views(out@));
    out
}

pub open spec fn pair_views(v: Seq<(String, String)>) -> Seq<(Seq<char>, Seq<char>)> {
    v.map_values(|p: (String, String)| (p.0@, p.1@))
}

pub fn remote_breadcrumb_paths(path: &str, target_name: &str) -> (r: Vec<(String, String)>)
    ensures
        pair_views(r@) == remote_crumbs(path@, target_name@),
{
    let absolute = str_starts_with(path, "/");
    let mut current = if absolute { "/".to_owned() } else { String::new() };
    let mut result: Vec<(String, String)> = Vec::new();
    if absolute {
        result.push((target_name.to_owned(), "/".to_owned()));
    }
    let chars = chars_of(path);
    let segments = path_segments(&chars);
    let ghost segs = crate::config_text::char_views(segments@);
    let ghost head = pair_views(result@);
    assert(segs.skip(0) =~= segs);
    let mut i: usize = 0;
    while i < segments.len()
        invariant
            i <= segments.len(),
            segs == crate::config_text::char_views(segments@),
            head + crumb_trail(segs, if absolute { "/"@ } else { Seq::<char>::empty() })
                == pair_views(result@) + crumb_trail(segs.skip(i as int), current@),
        decreases segments.len() - i,
    {
        let segment = string_from_chars(&segments[i]);
        assert(segs[i as int] == segment@);
        let ghost before = pair_views(result@);
        let ghost cur = current@;
        if is_root(current.as_str()) || current.as_str().unicode_len() == 0 {
            current = current.concat(segment.as_str());
        } else {
            current = current.concat("/").concat(segment.as_str());
        }
        result.push((segment, current.clone()));
        proof {
            assert(segs.skip(i as int).drop_first() =~= segs.skip(i + 1));
            assert(segs.skip(i as int)[0] == segs[i as int]);
            assert(pair_views(result@) =~= before.push((segs[i as int], current@)));
            assert(crumb_trail(segs.skip(i as int), cur) == seq![(segs[i as int], current@)] + crumb_trail(segs.skip(i + 1), current@));
            assert(before + crumb_trail(segs.skip(i as int), cur) =~= pair_views(result@) + crumb_trail(segs.skip(i + 1), current@));
        }
        i = i + 1;
    }
    assert(segs.skip(segments.len() as int) =~= Seq::<Seq<char>>::empty());
    assert(pair_views(result@) + Seq::<(Seq<char>, Seq<char>)>::empty() =~= pair_views(result@));
    if result.len() == 0 {
        result.push((target_name.to_owned(), path.to_owned()));
        assert(pair_views(result@) =~= seq![(target_name@, path@)]);
    }
    result
}

/// The answer to a connection prompt.
#[derive(Debug, Clone, PartialEq, Eq)]
pub enum SshPromptResponseDto {
    Accept,
    Reject,
    Answers { answers: Vec<String> },
}

#[derive(Debug, Clone, PartialEq, Eq)]
pub struct SshPromptFieldDto {
    pub label: String,
    pub secret: bool,
}

#[derive(Debug, Clone, PartialEq, Eq)]
pub enum SshConnectionEventDto {
    State { state: String },
    HostKeyPrompt { prompt_id: String, host: String, port: u16, algorithm: String, fingerprint: String },
    AuthenticationPrompt { prompt_id: String, kind: String, title: String, instructions: String, fields: Vec<SshPromptFieldDto> },
    Disconnected { target_id: String, message: String },
}

/// The answers of an authentication prompt: exactly as many as it asked for; a rejection
/// cancels the connection, anything else is not an answer to this prompt.
pub fn require_answers(response: SshPromptResponseDto, expected: usize) -> (r: Result<Vec<String>, ExplorerError>)
    ensures
        match response {
            SshPromptResponseDto::Answers { answers } => if answers@.len() == expected {
                r is Ok && r->Ok_0@ == answers@
            } else {
                r == Err::<Vec<String>, ExplorerError>(ExplorerError::InvalidReference)
            },
            SshPromptResponseDto::Reject => r == Err::<Vec<String>, ExplorerError>(ExplorerError::Cancelled),
            SshPromptResponseDto::Accept => r == Err::<Vec<String>, ExplorerError>(ExplorerError::InvalidReference),
        },
{
    match response {
        SshPromptResponseDto::Answers { answers } => {
            if answers.len() == expected {
                Ok(answers)
            } else {
                Err(ExplorerError::InvalidReference)
            }
        },
        SshPromptResponseDto::Reject => Err(ExplorerError::Cancelled),
        SshPromptResponseDto::Accept => Err(ExplorerError::InvalidReference),
    }
}

/// The prompts that wait for an answer, each with the connection request it belongs to.
pub struct PromptBroker {
    pending: Vec<(String, String)>,
}

pub open spec fn prompt_views(v: Seq<(String, String)>) -> Seq<(Seq<char>, Seq<char>)> {
    v.map_values(|p: (String, String)| (p.0@, p.1@))
}

/// The request that a prompt belongs to, if it waits.
pub open spec fn owner(pending: Seq<(Seq<char>, Seq<char>)>, prompt_id: Seq<char>) -> Option<Seq<char>> {
    if exists|i: int| 0 <= i < pending.len() && (#[trigger] pending[i]).0 == prompt_id {
        let i = choose|i: int| 0 <= i < pending.len() && (#[trigger] pending[i]).0 == prompt_id;
        Some(pending[i].1)
    } else {
        None
    }
}

pub open spec fn prompts_unique(pending: Seq<(Seq<char>, Seq<char>)>) -> bool {
    forall|i: int, j: int| 0 <= i < pending.len() && 0 <= j < pending.len() && i != j ==> (#[trigger] pending[i]).0
        != (#[trigger] pending[j]).0
}

pub proof fn lemma_owner_at(pending: Seq<(Seq<char>, Seq<char>)>, i: int)
    requires
        prompts_unique(pending),
        0 <= i < pending.len(),
    ensures
        owner(pending, pending[i].0) == Some(pending[i].1),
{
    let k = choose|k: int| 0 <= k < pending.len() && (#[trigger] pending[k]).0 == pending[i].0;
    assert(k == i);
}

impl PromptBroker {
    pub closed spec fn pending(&self) -> Seq<(Seq<char>, Seq<char>)> {
        prompt_views(self.pending@)
    }

    pub open spec fn wf(&self) -> bool {
        prompts_unique(self.pending())
    }

    pub fn new() -> (r: PromptBroker)
        ensures
            r.wf(),
            r.pending().len() == 0,
    {
        PromptBroker { pending: Vec::new() }
    }

    fn find(&self, prompt_id: &str) -> (r: Option<usize>)
        ensures
            match r {
                Some(i) => i < self.pending().len() && self.pending()[i as int].0 == prompt_id@,
                None => forall|i: int| 0 <= i < self.pending().len() ==> (#[trigger] self.pending()[i]).0 != prompt_id@,
            },
    {
        let mut i: usize = 0;
        while i < self.pending.len()
            invariant
                i <= self.pending.len(),
                forall|j: int| 0 <= j < i ==> (#[trigger] self.pending()[j]).0 != prompt_id@,
            decreases self.pending.len() - i,
        {
            assert(self.pending()[i as int] == (self.pending@[i as int].0@, self.pending@[i as int].1@));
            if str_eq(self.pending[i].0.as_str(), prompt_id) {
                return Some(i);
            }
            i = i + 1;
        }
        None
    }

    fn remove_at(&mut self, i: usize)
        requires
            old(self).wf(),
            i < old(self).pending().len(),
        ensures
            final(self).wf(),
            final(self).pending() == old(self).pending().remove(i as int),
    {
        let ghost before = self.pending();
        self.pending.remove(i);
        assert(self.pending() =~= before.remove(i as int));
        assert forall|a: int, b: int| 0 <= a < self.pending().len() && 0 <= b < self.pending().len() && a != b implies
            (#[trigger] self.pending()[a]).0 != (#[trigger] self.pending()[b]).0 by {
            let a2 = if a < i { a } else { a + 1 };
            let b2 = if b < i { b } else { b + 1 };
            assert(self.pending()[a] == before[a2]);
            assert(self.pending()[b] == before[b2]);
        }
    }

    /// Starts waiting for an answer to `prompt_id` from connection request `request_id`,
    /// replacing any earlier prompt with that id.
    pub fn insert(&mut self, prompt_id: &str, request_id: &str)
        requires
            old(self).wf(),
        ensures
            final(self).wf(),
            owner(final(self).pending(), prompt_id@) == Some(request_id@),
            forall|p: Seq<char>| p != prompt_id@ ==> owner(final(self).pending(), p) == owner(old(self).pending(), p),
    {
        let ghost before = self.pending();
        match self.find(prompt_id) {
            Some(i) => {
                self.remove_at(i);
            },
            None => {},
        }
        let ghost mid = self.pending();
        self.pending.push((prompt_id.to_owned(), request_id.to_owned()));
        let ghost after = self.pending();
        assert(after =~= mid.push((prompt_id@, request_id@)));
        proof {
            assert forall|j: int| 0 <= j < mid.len() implies (#[trigger] mid[j]).0 != prompt_id@ by {
                if before.len() != mid.len() {
                    let i = choose|i: int| 0 <= i < before.len() && before[i].0 == prompt_id@ && mid == before.remove(i);
                    let j2 = if j < i { j } else { j + 1 };
                    assert(mid[j] == before[j2]);
                }
            }
            assert forall|a: int, b: int| 0 <= a < after.len() && 0 <= b < after.len() && a != b implies
                (#[trigger] after[a]).0 != (#[trigger] after[b]).0 by {
                if a < mid.len() && b < mid.len() {
                    assert(after[a] == mid[a] && after[b] == mid[b]);
                }
            }
            lemma_owner_at(after, mid.len() as int);
            assert forall|p: Seq<char>| p != prompt_id@ implies owner(after, p) == owner(before, p) by {
                if owner(before, p) is Some {
                    let k = choose|k: int| 0 <= k < before.len() && (#[trigger] before[k]).0 == p;
                    lemma_owner_at(before, k);
                    let k2 = if before.len() != mid.len() {
                        let i = choose|i: int| 0 <= i < before.len() && before[i].0 == prompt_id@ && mid == before.remove(i);
                        if k < i { k } else { k - 1 }
                    } else {
                        k
                    };
                    assert(mid[k2] == before[k]);
                    assert(after[k2] == before[k]);
                    lemma_owner_at(after, k2);
                }
                if owner(after, p) is Some {
                    let k = choose|k: int| 0 <= k < after.len() && (#[trigger] after[k]).0 == p;
                    assert(k < mid.len());
                    assert(after[k] == mid[k]);
                    let k2 = if before.len() != mid.len() {
                        let i = choose|i: int| 0 <= i < before.len() && before[i].0 == prompt_id@ && mid == before.remove(i);
                        if k < i { k } else { k + 1 }
                    } else {
                        k
                    };
                    assert(before[k2] == mid[k]);
                }
            }
        }
    }

    /// Takes an answer to a prompt: only the connection request that a prompt belongs to may
    /// answer it, and only once. An accepted answer is handed back, to be delivered to the
    /// connection waiting on the prompt; a refused one leaves every prompt waiting.
    pub fn respond(&mut self, request_id: &str, prompt_id: &str, response: SshPromptResponseDto) -> (r: Result<
        SshPromptResponseDto,
        ExplorerError,
    >)
        requires
            old(self).wf(),
        ensures
            final(self).wf(),
            owner(old(self).pending(), prompt_id@) != Some(request_id@) ==> r == Err::<SshPromptResponseDto, ExplorerError>(
                ExplorerError::InvalidReference) && final(self).pending() == old(self).pending(),
            owner(old(self).pending(), prompt_id@) == Some(request_id@) ==> r == Ok::<SshPromptResponseDto, ExplorerError>(response)
                && owner(final(self).pending(), prompt_id@) is None
                && forall|p: Seq<char>| p != prompt_id@ ==> owner(final(self).pending(), p) == owner(old(self).pending(), p),
    {
        let ghost before = self.pending();
        match self.find(prompt_id) {
            Some(i) => {
                proof {
                    lemma_owner_at(before, i as int);
                }
                assert(before[i as int] == (self.pending@[i as int].0@, self.pending@[i as int].1@));
                if !str_eq(self.pending[i].1.as_str(), request_id) {
                    return Err(ExplorerError::InvalidReference);
                }
                self.remove_at(i);
                proof {
                    let after = self.pending();
                    assert forall|j: int| 0 <= j < after.len() implies (#[trigger] after[j]).0 != prompt_id@ by {
                        let j2 = if j < i { j } else { j + 1 };
                        assert(after[j] == before[j2]);
                    }
                    assert forall|p: Seq<char>| p != prompt_id@ implies owner(after, p) == owner(before, p) by {
                        if owner(before, p) is Some {
                            let k = choose|k: int| 0 <= k < before.len() && (#[trigger] before[k]).0 == p;
                            lemma_owner_at(before, k);
                            let k2 = if k < i { k } else { k - 1 };
                            assert(after[k2] == before[k]);
                            lemma_owner_at(after, k2);
                        }
                        if owner(after, p) is Some {
                            let k = choose|k: int| 0 <= k < after.len() && (#[trigger] after[k]).0 == p;
                            let k2 = if k < i { k } else { k + 1 };
                            assert(before[k2] == after[k]);
                        }
                    }
                }
                Ok(response)
            },
            None => Err(ExplorerError::InvalidReference),
        }
    }

    /// Stops waiting for a prompt.
    pub fn remove(&mut self, prompt_id: &str)
        requires
            old(self).wf(),
        ensures
            final(self).wf(),
            owner(final(self).pending(), prompt_id@) is None,
    {
        match self.find(prompt_id) {
            Some(i) => {
                let ghost before = self.pending();
                self.remove_at(i);
                proof {
                    let after = self.pending();
                    assert forall|j: int| 0 <= j < after.len() implies (#[trigger] after[j]).0 != prompt_id@ by {
                        let j2 = if j < i { j } else { j + 1 };
                        assert(after[j] == before[j2]);
                    }
                }
            },
            None => {},
        }
    }

    /// Stops waiting for every prompt of a connection request and returns their ids, so
    /// that each can be answered with a rejection.
    pub fn cancel(&mut self, request_id: &str) -> (r: Vec<String>)
        requires
            old(self).wf(),
        ensures
            final(self).wf(),
            final(self).pending() == old(self).pending().filter(|p: (Seq<char>, Seq<char>)| p.1 != request_id@),
            crate::text::views(r@) == old(self).pending().filter(|p: (Seq<char>, Seq<char>)| p.1 == request_id@).map_values(
                |p: (Seq<char>, Seq<char>)| p.0),
    {
        let ghost before = self.pending();
        let ghost keep = |p: (Seq<char>, Seq<char>)| p.1 != request_id@;
        let ghost take = |p: (Seq<char>, Seq<char>)| p.1 == request_id@;
        let mut kept: Vec<(String, String)> = Vec::new();
        let mut removed: Vec<String> = Vec::new();
        let mut i: usize = 0;
        proof {
            reveal(Seq::filter);
            assert(before.take(0) =~= Seq::<(Seq<char>, Seq<char>)>::empty());
        }
        while i < self.pending.len()
            invariant
                i <= self.pending.len(),
                before == self.pending(),
                keep == (|p: (Seq<char>, Seq<char>)| p.1 != request_id@),
                take == (|p: (Seq<char>, Seq<char>)| p.1 == request_id@),
                prompt_views(kept@) == before.take(i as int).filter(keep),
                crate::text::views(removed@) == before.take(i as int).filter(take).map_values(|p: (Seq<char>, Seq<char>)| p.0),
            decreases self.pending.len() - i,
        {
            proof {
                reveal(Seq::filter);
                assert(before.take(i + 1).drop_last() =~= before.take(i as int));
                assert(before.take(i + 1).last() == before[i as int]);
                assert(before[i as int] == (self.pending@[i as int].0@, self.pending@[i as int].1@));
            }
            let ghost pk = kept@;
            let ghost pr = removed@;
            if str_eq(self.pending[i].1.as_str(), request_id) {
                removed.push(self.pending[i].0.clone());
                assert(crate::text::views(removed@) =~= crate::text::views(pr).push(before[i as int].0));
                assert(before.take(i + 1).filter(take) == before.take(i as int).filter(take).push(before[i as int]));
                assert(before.take(i + 1).filter(take).map_values(|p: (Seq<char>, Seq<char>)| p.0) =~= before.take(i as int).filter(take).map_values(
                    |p: (Seq<char>, Seq<char>)| p.0).push(before[i as int].0));
            } else {
                kept.push((self.pending[i].0.clone(), self.pending[i].1.clone()));
                assert(prompt_views(kept@) =~= prompt_views(pk).push(before[i as int]));
            }
            i = i + 1;
        }
        assert(before.take(before.len() as int) =~= before);
        self.pending = kept;
        proof {
            let after = self.pending();
            assert forall|a: int, b: int| 0 <= a < after.len() && 0 <= b < after.len() && a != b implies
                (#[trigger] after[a]).0 != (#[trigger] after[b]).0 by {
                lemma_filter_unique(before, keep, a, b);
            }
        }
        removed
    }
}

/// Filtering keeps prompt ids unique.
proof fn lemma_filter_unique(s: Seq<(Seq<char>, Seq<char>)>, p: spec_fn((Seq<char>, Seq<char>)) -> bool, a: int, b: int)
    requires
        prompts_unique(s),
        0 <= a < s.filter(p).len(),
        0 <= b < s.filter(p).len(),
        a != b,
    ensures
        s.filter(p)[a].0 != s.filter(p)[b].0,
    decreases s.len(),
{
    reveal(Seq::filter);
    let t = s.drop_last();
    assert forall|i: int, j: int| 0 <= i < t.len() && 0 <= j < t.len() && i != j implies (#[trigger] t[i]).0 != (#[trigger] t[j]).0 by {
        assert(t[i] == s[i] && t[j] == s[j]);
    }
    if p(s.last()) {
        let n = t.filter(p).len();
        if a < n && b < n {
            lemma_filter_unique(t, p, a, b);
        } else {
            let other = if a < n { a } else { b };
            if other < n {
                t.lemma_filter_contains_rev(p, t.filter(p)[other]);
                assert(t.filter(p).contains(t.filter(p)[other]));
                let k = choose|k: int| 0 <= k < t.len() && t[k] == t.filter(p)[other];
                assert(s[k] == t[k]);
                assert(s[s.len() - 1] == s.last());
            }
        }
    } else {
        lemma_filter_unique(t, p, a, b);
    }
}

/// An SFTP status, as far as the explorer tells statuses apart; any other is kept with its
/// text.
#[derive(Debug, Clone, PartialEq, Eq)]
pub enum SftpStatusCode {
    NoSuchFile,
    PermissionDenied,
    NoConnection,
    ConnectionLost,
    OpUnsupported,
    Other(String),
}

/// An SFTP failure, with the text of those the explorer reports as they are.
#[derive(Debug, Clone, PartialEq, Eq)]
pub enum SftpFailure {
    Status(SftpStatusCode),
    Timeout,
    Io,
    UnexpectedBehavior,
    Limited(String),
    UnexpectedPacket(String),
}

pub open spec fn io_error(e: ExplorerError, message: Seq<char>, kind: IoErrorKind) -> bool {
    e matches ExplorerError::Io { message: m, kind: k } && m@ == message && k == kind
}

pub open spec fn offline_error(e: ExplorerError, message: Seq<char>) -> bool {
    e matches ExplorerError::Offline(m) && m@ == message
}

pub open spec fn unexpected_error(e: ExplorerError, message: Seq<char>) -> bool {
    e matches ExplorerError::Unexpected(m) && m@ == message
}

/// How a browsing request reports an SFTP failure.
pub open spec fn browse_error(f: SftpFailure, e: ExplorerError) -> bool {
    match f {
        SftpFailure::Status(SftpStatusCode::NoSuchFile) => io_error(e, "The remote path no longer exists."@, IoErrorKind::NotFound),
        SftpFailure::Status(SftpStatusCode::PermissionDenied) => io_error(e, "Permission was denied for the remote path."@,
            IoErrorKind::PermissionDenied),
        SftpFailure::Status(SftpStatusCode::NoConnection) => offline_error(e, "The SSH connection was lost."@),
        SftpFailure::Status(SftpStatusCode::ConnectionLost) => offline_error(e, "The SSH connection was lost."@),
        SftpFailure::Status(SftpStatusCode::OpUnsupported) => e matches ExplorerError::Unsupported(m)
            && m@ == "The SSH server does not support this SFTP operation."@,
        SftpFailure::Status(SftpStatusCode::Other(code)) => unexpected_error(e, "The SFTP server returned status "@ + code@ + "."@),
        SftpFailure::Timeout => offline_error(e, "The SFTP request timed out."@),
        SftpFailure::Io => offline_error(e, "The SSH connection was lost."@),
        SftpFailure::UnexpectedBehavior => offline_error(e, "The SSH connection was lost."@),
        SftpFailure::Limited(text) => unexpected_error(e, "The SFTP request failed: "@ + text@),
        SftpFailure::UnexpectedPacket(text) => unexpected_error(e, "The SFTP request failed: "@ + text@),
    }
}

pub fn map_sftp_error(error: SftpFailure) -> (r: ExplorerError)
    ensures
        browse_error(error, r),
{
    match error {
        SftpFailure::Status(status) => match status {
            SftpStatusCode::NoSuchFile => ExplorerError::Io {
                message: "The remote path no longer exists.".to_owned(),
                kind: IoErrorKind::NotFound,
            },
            SftpStatusCode::PermissionDenied => ExplorerError::Io {
                message: "Permission was denied for the remote path.".to_owned(),
                kind: IoErrorKind::PermissionDenied,
            },
            SftpStatusCode::NoConnection | SftpStatusCode::ConnectionLost => ExplorerError::Offline(
                "The SSH connection was lost.".to_owned(),
            ),
            SftpStatusCode::OpUnsupported => ExplorerError::Unsupported(
                "The SSH server does not support this SFTP operation.".to_owned(),
            ),
            SftpStatusCode::Other(code) => ExplorerError::Unexpected(
                "The SFTP server returned status ".to_owned().concat(code.as_str()).concat("."),
            ),
        },
        SftpFailure::Timeout => ExplorerError::Offline("The SFTP request timed out.".to_owned()),
        SftpFailure::Io | SftpFailure::UnexpectedBehavior => ExplorerError::Offline("The SSH connection was lost.".to_owned()),
        SftpFailure::Limited(text) => ExplorerError::Unexpected("The SFTP request failed: ".to_owned().concat(text.as_str())),
        SftpFailure::UnexpectedPacket(text) => ExplorerError::Unexpected(
            "The SFTP request failed: ".to_owned().concat(text.as_str()),
        ),
    }
}

/// How a transfer reports an SFTP failure.
pub open spec fn transfer_error(f: SftpFailure, e: ExplorerError) -> bool {
    match f {
        SftpFailure::Status(SftpStatusCode::NoSuchFile) => e == ExplorerError::SourceChanged,
        SftpFailure::Status(SftpStatusCode::PermissionDenied) => io_error(e,
            "The remote server denied access to the transfer destination."@, IoErrorKind::PermissionDenied),
        SftpFailure::Status(_) => unexpected_error(e, "The remote server rejected the transfer request."@),
        SftpFailure::Timeout => offline_error(e, "The remote transfer request timed out."@),
        SftpFailure::Io => offline_error(e, "The SSH connection was lost during the remote transfer."@),
        SftpFailure::UnexpectedBehavior => offline_error(e, "The SSH connection was lost during the remote transfer."@),
        SftpFailure::Limited(_) => e matches ExplorerError::InvalidConfiguration(m)
            && m@ == "The remote server's SFTP limits rejected the transfer request."@,
        SftpFailure::UnexpectedPacket(_) => unexpected_error(e, "The remote server returned an unexpected SFTP response."@),
    }
}

pub fn map_remote_transfer_error(error: SftpFailure) -> (r: ExplorerError)
    ensures
        transfer_error(error, r),
{
    match error {
        SftpFailure::Status(status) => match status {
            SftpStatusCode::NoSuchFile => ExplorerError::SourceChanged,
            SftpStatusCode::PermissionDenied => ExplorerError::Io {
                message: "The remote server denied access to the transfer destination.".to_owned(),
                kind: IoErrorKind::PermissionDenied,
            },
            _ => ExplorerError::Unexpected("The remote server rejected the transfer request.".to_owned()),
        },
        SftpFailure::Timeout => ExplorerError::Offline("The remote transfer request timed out.".to_owned()),
        SftpFailure::Io | SftpFailure::UnexpectedBehavior => ExplorerError::Offline(
            "The SSH connection was lost during the remote transfer.".to_owned(),
        ),
        SftpFailure::Limited(_) => ExplorerError::InvalidConfiguration(
            "The remote server's SFTP limits rejected the transfer request.".to_owned(),
        ),
        SftpFailure::UnexpectedPacket(_) => ExplorerError::Unexpected(
            "The remote server returned an unexpected SFTP response.".to_owned(),
        ),
    }
}

/// Where an entry of a remote transfer is staged: the partial path itself, or a relative
/// path under it whose components are all safe.
pub open spec fn partial_entry(partial_path: Seq<char>, relative_path: Seq<char>) -> Option<Seq<char>> {
    if relative_path.len() == 0 {
        Some(partial_path)
    } else if starts_with(relative_path, "/"@) || relative_components(relative_path) is None {
        None
    } else {
        Some(partial_path + "/"@ + relative_path)
    }
}

pub fn partial_entry_path(partial_path: &str, relative_path: &str) -> (r: Result<String, ExplorerError>)
    ensures
        match partial_entry(partial_path@, relative_path@) {
            Some(p) => r is Ok && r->Ok_0@ == p,
            None => r == Err::<String, ExplorerError>(ExplorerError::InvalidReference),
        },
{
    if relative_path.unicode_len() == 0 {
        return Ok(partial_path.to_owned());
    }
    if str_starts_with(relative_path, "/") {
        return Err(ExplorerError::InvalidReference);
    }
    match remote_relative_to_local(relative_path) {
        Ok(_) => Ok(partial_path.to_owned().concat("/").concat(relative_path)),
        Err(e) => Err(e),
    }
}


/// The kind of a remote entry: a directory is a folder; a file is of the remote table that
/// lists its extension, in any ASCII case, and "other" when none does or it has none.
pub proof fn lemma_remote_content_kinds(name: Seq<char>)
    ensures
        remote_content_kind(name, true) == "folder"@,
        path_extension(name) is None ==> remote_content_kind(name, false) == "other"@,
        path_extension(name) matches Some(e) && (crate::text::ascii_lower_seq(e) == "jpg"@ || crate::text::ascii_lower_seq(e) == "jpeg"@ || crate::text::ascii_lower_seq(e) == "png"@ || crate::text::ascii_lower_seq(e) == "gif"@ || crate::text::ascii_lower_seq(e) == "webp"@ || crate::text::ascii_lower_seq(e) == "bmp"@ || crate::text::ascii_lower_seq(e) == "svg"@) ==> remote_content_kind(name, false) == "image"@,
        path_extension(name) matches Some(e) && (crate::text::ascii_lower_seq(e) == "md"@ || crate::text::ascii_lower_seq(e) == "txt"@ || crate::text::ascii_lower_seq(e) == "pdf"@ || crate::text::ascii_lower_seq(e) == "doc"@ || crate::text::ascii_lower_seq(e) == "docx"@ || crate::text::ascii_lower_seq(e) == "rtf"@) ==> remote_content_kind(name, false) == "document"@,
        path_extension(name) matches Some(e) && (crate::text::ascii_lower_seq(e) == "rs"@ || crate::text::ascii_lower_seq(e) == "ts"@ || crate::text::ascii_lower_seq(e) == "js"@ || crate::text::ascii_lower_seq(e) == "svelte"@ || crate::text::ascii_lower_seq(e) == "py"@ || crate::text::ascii_lower_seq(e) == "go"@ || crate::text::ascii_lower_seq(e) == "json"@ || crate::text::ascii_lower_seq(e) == "toml"@ || crate::text::ascii_lower_seq(e) == "yaml"@ || crate::text::ascii_lower_seq(e) == "yml"@) ==> remote_content_kind(name, false) == "code"@,
        path_extension(name) matches Some(e) && (crate::text::ascii_lower_seq(e) == "mp3"@ || crate::text::ascii_lower_seq(e) == "m4a"@ || crate::text::ascii_lower_seq(e) == "wav"@ || crate::text::ascii_lower_seq(e) == "flac"@ || crate::text::ascii_lower_seq(e) == "ogg"@) ==> remote_content_kind(name, false) == "audio"@,
        path_extension(name) matches Some(e) && (crate::text::ascii_lower_seq(e) == "mp4"@ || crate::text::ascii_lower_seq(e) == "mov"@ || crate::text::ascii_lower_seq(e) == "mkv"@ || crate::text::ascii_lower_seq(e) == "webm"@ || crate::text::ascii_lower_seq(e) == "avi"@) ==> remote_content_kind(name, false) == "video"@,
        path_extension(name) matches Some(e) && (crate::text::ascii_lower_seq(e) == "zip"@ || crate::text::ascii_lower_seq(e) == "tar"@ || crate::text::ascii_lower_seq(e) == "gz"@ || crate::text::ascii_lower_seq(e) == "xz"@ || crate::text::ascii_lower_seq(e) == "zst"@ || crate::text::ascii_lower_seq(e) == "7z"@ || crate::text::ascii_lower_seq(e) == "rar"@) ==> remote_content_kind(name, false) == "archive"@,
        path_extension(name) matches Some(e) && !(crate::text::ascii_lower_seq(e) == "jpg"@ || crate::text::ascii_lower_seq(e) == "jpeg"@ || crate::text::ascii_lower_seq(e) == "png"@ || crate::text::ascii_lower_seq(e) == "gif"@ || crate::text::ascii_lower_seq(e) == "webp"@ || crate::text::ascii_lower_seq(e) == "bmp"@ || crate::text::ascii_lower_seq(e) == "svg"@ || crate::text::ascii_lower_seq(e) == "md"@ || crate::text::ascii_lower_seq(e) == "txt"@ || crate::text::ascii_lower_seq(e) == "pdf"@ || crate::text::ascii_lower_seq(e) == "doc"@ || crate::text::ascii_lower_seq(e) == "docx"@ || crate::text::ascii_lower_seq(e) == "rtf"@ || crate::text::ascii_lower_seq(e) == "rs"@ || crate::text::ascii_lower_seq(e) == "ts"@ || crate::text::ascii_lower_seq(e) == "js"@ || crate::text::ascii_lower_seq(e) == "svelte"@ || crate::text::ascii_lower_seq(e) == "py"@ || crate::text::ascii_lower_seq(e) == "go"@ || crate::text::ascii_lower_seq(e) == "json"@ || crate::text::ascii_lower_seq(e) == "toml"@ || crate::text::ascii_lower_seq(e) == "yaml"@ || crate::text::ascii_lower_seq(e) == "yml"@ || crate::text::ascii_lower_seq(e) == "mp3"@ || crate::text::ascii_lower_seq(e) == "m4a"@ || crate::text::ascii_lower_seq(e) == "wav"@ || crate::text::ascii_lower_seq(e) == "flac"@ || crate::text::ascii_lower_seq(e) == "ogg"@ || crate::text::ascii_lower_seq(e) == "mp4"@ || crate::text::ascii_lower_seq(e) == "mov"@ || crate::text::ascii_lower_seq(e) == "mkv"@ || crate::text::ascii_lower_seq(e) == "webm"@ || crate::text::ascii_lower_seq(e) == "avi"@ || crate::text::ascii_lower_seq(e) == "zip"@ || crate::text::ascii_lower_seq(e) == "tar"@ || crate::text::ascii_lower_seq(e) == "gz"@ || crate::text::ascii_lower_seq(e) == "xz"@ || crate::text::ascii_lower_seq(e) == "zst"@ || crate::text::ascii_lower_seq(e) == "7z"@ || crate::text::ascii_lower_seq(e) == "rar"@) ==> remote_content_kind(name, false) == "other"@,
{
    if let Some(e) = path_extension(name) {
        crate::paths::lemma_remote_extension_kinds(e);
    }
}

} // verus!
