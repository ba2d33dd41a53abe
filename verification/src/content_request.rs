//! Requests that ask the operating system to bring a synced item's content to this machine:
//! at most a fixed number at a time (four by default), one per request id, each cancellable.

use vstd::prelude::*;

use crate::filesystem::ExplorerError;
use crate::text::str_eq;

verus! {

pub const MAX_CONCURRENT_CONTENT_REQUESTS: usize = 4;

#[derive(Debug, Clone, Copy, PartialEq, Eq, Structural)]
pub enum ContentRequestPolicy {
    ICloud,
    WindowsCloudFiles,
}

/// A content request in flight: its id, the token of this registration, and whether it was
/// cancelled.
pub struct ContentRequestEntry {
    pub request_id: String,
    pub token: u64,
    pub cancelled: bool,
}

pub open spec fn entry_views(v: Seq<ContentRequestEntry>) -> Seq<(Seq<char>, u64, bool)> {
    v.map_values(|e: ContentRequestEntry| (e.request_id@, e.token, e.cancelled))
}

pub open spec fn has_request_id(v: Seq<(Seq<char>, u64, bool)>, id: Seq<char>) -> bool {
    exists|i: int| 0 <= i < v.len() && (#[trigger] v[i]).0 == id
}

/// The content requests in flight.
pub struct ContentRequests {
    entries: Vec<ContentRequestEntry>,
    next_token: u64,
    limit: usize,
}

impl ContentRequests {
    pub closed spec fn active(&self) -> Seq<(Seq<char>, u64, bool)> {
        entry_views(self.entries@)
    }

    pub closed spec fn next(&self) -> u64 {
        self.next_token
    }

    /// How many requests may be in flight at once.
    pub closed spec fn capacity(&self) -> nat {
        self.limit as nat
    }

    /// Every registration has its own token, below the next one.
    pub open spec fn wf(&self) -> bool {
        &&& forall|i: int| 0 <= i < self.active().len() ==> (#[trigger] self.active()[i]).1 < self.next()
        &&& forall|i: int, j: int| 0 <= i < self.active().len() && 0 <= j < self.active().len() && i != j
            ==> (#[trigger] self.active()[i]).1 != (#[trigger] self.active()[j]).1
    }

    /// No request in flight; at most `MAX_CONCURRENT_CONTENT_REQUESTS` at a time.
    pub fn new() -> (r: ContentRequests)
        ensures
            r.wf(),
            r.active().len() == 0,
            r.capacity() == MAX_CONCURRENT_CONTENT_REQUESTS,
    {
        ContentRequests::with_limit(MAX_CONCURRENT_CONTENT_REQUESTS)
    }

    /// No request in flight; at most `limit` at a time.
    pub fn with_limit(limit: usize) -> (r: ContentRequests)
        ensures
            r.wf(),
            r.active().len() == 0,
            r.capacity() == limit,
    {
        ContentRequests { entries: Vec::new(), next_token: 0, limit }
    }

    fn find(&self, request_id: &str) -> (r: Option<usize>)
        ensures
            match r {
                Some(i) => i < self.active().len() && self.active()[i as int].0 == request_id@,
                None => !has_request_id(self.active(), request_id@),
            },
    {
        let mut i: usize = 0;
        while i < self.entries.len()
            invariant
                i <= self.entries.len(),
                forall|j: int| 0 <= j < i ==> (#[trigger] self.active()[j]).0 != request_id@,
            decreases self.entries.len() - i,
        {
            assert(self.active()[i as int].0 == self.entries@[i as int].request_id@);
            if str_eq(self.entries[i].request_id.as_str(), request_id) {
                return Some(i);
            }
            i = i + 1;
        }
        None
    }

    /// Registers a request and returns its token. Four requests at a time are allowed, and
    /// an id that is in flight cannot be used again until it ends.
    pub fn begin(&mut self, request_id: &str) -> (r: Result<u64, ExplorerError>)
        requires
            old(self).wf(),
            old(self).next() < u64::MAX,
        ensures
            final(self).wf(),
            final(self).capacity() == old(self).capacity(),
            old(self).active().len() >= old(self).capacity() ==> r is Err && (r->Err_0 matches ExplorerError::Unexpected(m)
                && m@ == "Too many files are already being prepared for preview."@),
            old(self).active().len() < old(self).capacity() && has_request_id(old(self).active(), request_id@)
                ==> r == Err::<u64, ExplorerError>(ExplorerError::InvalidReference),
            r is Err ==> final(self).active() == old(self).active() && final(self).next() == old(self).next(),
            r is Ok ==> r->Ok_0 == old(self).next() && final(self).next() == old(self).next() + 1
                && final(self).active() == old(self).active().push((request_id@, r->Ok_0, false)),
            old(self).active().len() < old(self).capacity() && !has_request_id(old(self).active(), request_id@) ==> r is Ok,
    {
        if self.entries.len() >= self.limit {
            return Err(ExplorerError::Unexpected("Too many files are already being prepared for preview.".to_owned()));
        }
        if self.find(request_id).is_some() {
            return Err(ExplorerError::InvalidReference);
        }
        let token = self.next_token;
        let ghost before = self.entries@;
        self.entries.push(ContentRequestEntry { request_id: request_id.to_owned(), token, cancelled: false });
        self.next_token = token + 1;
        assert(self.active() =~= entry_views(before).push((request_id@, token, false)));
        Ok(token)
    }

    /// Marks the request as cancelled, if it is in flight.
    pub fn cancel(&mut self, request_id: &str) -> (r: Result<(), ExplorerError>)
        requires
            old(self).wf(),
        ensures
            r is Ok,
            final(self).wf(),
            final(self).capacity() == old(self).capacity(),
            final(self).next() == old(self).next(),
            final(self).active().len() == old(self).active().len(),
            forall|i: int| 0 <= i < old(self).active().len() ==> (#[trigger] final(self).active()[i]).0 == old(self).active()[i].0
                && final(self).active()[i].1 == old(self).active()[i].1
                && (old(self).active()[i].2 ==> final(self).active()[i].2),
            has_request_id(old(self).active(), request_id@) ==> exists|i: int| 0 <= i < final(self).active().len()
                && (#[trigger] final(self).active()[i]).0 == request_id@ && final(self).active()[i].2,
    {
        match self.find(request_id) {
            Some(i) => {
                let ghost before = self.active();
                let entry = ContentRequestEntry {
                    request_id: self.entries[i].request_id.clone(),
                    token: self.entries[i].token,
                    cancelled: true,
                };
                self.entries.set(i, entry);
                assert(self.active() =~= before.update(i as int, (before[i as int].0, before[i as int].1, true)));
                assert(self.active()[i as int].0 == request_id@ && self.active()[i as int].2);
            },
            None => {},
        }
        Ok(())
    }

    /// Whether the registration `token` of `request_id` was cancelled.
    pub fn is_cancelled(&self, request_id: &str, token: u64) -> (r: bool)
        ensures
            r == exists|i: int| 0 <= i < self.active().len() && (#[trigger] self.active()[i]).0 == request_id@
                && self.active()[i].1 == token && self.active()[i].2,
    {
        let mut i: usize = 0;
        while i < self.entries.len()
            invariant
                i <= self.entries.len(),
                forall|j: int| 0 <= j < i ==> !((#[trigger] self.active()[j]).0 == request_id@ && self.active()[j].1 == token
                    && self.active()[j].2),
            decreases self.entries.len() - i,
        {
            assert(self.active()[i as int] == (self.entries@[i as int].request_id@, self.entries@[i as int].token, self.entries@[i as int].cancelled));
            if self.entries[i].token == token && self.entries[i].cancelled && str_eq(self.entries[i].request_id.as_str(), request_id) {
                return true;
            }
            i = i + 1;
        }
        false
    }

    /// Ends the registration `token` of `request_id`; a later registration of the same id is
    /// left alone.
    pub fn end(&mut self, request_id: &str, token: u64)
        requires
            old(self).wf(),
        ensures
            final(self).wf(),
            final(self).capacity() == old(self).capacity(),
            final(self).next() == old(self).next(),
            final(self).active() == old(self).active().filter(|e: (Seq<char>, u64, bool)| !(e.0 == request_id@ && e.1 == token)),
            (exists|k: int| 0 <= k < old(self).active().len() && (#[trigger] old(self).active()[k]).0 == request_id@
                && old(self).active()[k].1 == token && (forall|j: int| 0 <= j < old(self).active().len() && j != k
                ==> (#[trigger] old(self).active()[j]).0 != request_id@)) ==> !has_request_id(final(self).active(), request_id@)
                && final(self).active().len() + 1 == old(self).active().len(),
    {
        let ghost before = self.active();
        let ghost keep = |e: (Seq<char>, u64, bool)| !(e.0 == request_id@ && e.1 == token);
        let mut kept: Vec<ContentRequestEntry> = Vec::new();
        let mut i: usize = 0;
        proof {
            reveal(Seq::filter);
            assert(before.take(0) =~= Seq::<(Seq<char>, u64, bool)>::empty());
        }
        while i < self.entries.len()
            invariant
                i <= self.entries.len(),
                before == self.active(),
                keep == (|e: (Seq<char>, u64, bool)| !(e.0 == request_id@ && e.1 == token)),
                entry_views(kept@) == before.take(i as int).filter(keep),
            decreases self.entries.len() - i,
        {
            proof {
                reveal(Seq::filter);
                assert(before.take(i + 1).drop_last() =~= before.take(i as int));
                assert(before.take(i + 1).last() == before[i as int]);
                assert(before[i as int] == (self.entries@[i as int].request_id@, self.entries@[i as int].token, self.entries@[i as int].cancelled));
            }
            if !(self.entries[i].token == token && str_eq(self.entries[i].request_id.as_str(), request_id)) {
                let e = ContentRequestEntry {
                    request_id: self.entries[i].request_id.clone(),
                    token: self.entries[i].token,
                    cancelled: self.entries[i].cancelled,
                };
                let ghost prev = kept@;
                kept.push(e);
                assert(entry_views(kept@) =~= entry_views(prev).push(before[i as int]));
            }
            i = i + 1;
        }
        assert(before.take(before.len() as int) =~= before);
        self.entries = kept;
        proof {
            if exists|k: int| 0 <= k < before.len() && (#[trigger] before[k]).0 == request_id@ && before[k].1 == token
                && (forall|j: int| 0 <= j < before.len() && j != k ==> (#[trigger] before[j]).0 != request_id@) {
                let k = choose|k: int| 0 <= k < before.len() && (#[trigger] before[k]).0 == request_id@ && before[k].1 == token
                    && (forall|j: int| 0 <= j < before.len() && j != k ==> (#[trigger] before[j]).0 != request_id@);
                lemma_end_frees(before, keep, request_id@, token, k);
                assert(self.active() == before.filter(keep));
            }
        }
        proof {
            let after = self.active();
            assert forall|k: int| 0 <= k < after.len() implies (#[trigger] after[k]).1 < self.next() by {
                assert(before.filter(keep).contains(after[k]));
                before.lemma_filter_contains_rev(keep, after[k]);
            }
            assert forall|a: int, b: int| 0 <= a < after.len() && 0 <= b < after.len() && a != b
                implies (#[trigger] after[a]).1 != (#[trigger] after[b]).1 by {
                lemma_filter_distinct_tokens(before, keep, a, b);
            }
        }
    }
}

/// Whether `p` keeps exactly the registrations other than `token` of `request_id`.
pub open spec fn drops_registration(p: spec_fn((Seq<char>, u64, bool)) -> bool, request_id: Seq<char>, token: u64) -> bool {
    forall|e: (Seq<char>, u64, bool)| #[trigger] p(e) == !(e.0 == request_id && e.1 == token)
}

proof fn lemma_filter_keeps_unmatched(s: Seq<(Seq<char>, u64, bool)>, p: spec_fn((Seq<char>, u64, bool)) -> bool, request_id: Seq<char>, token: u64)
    requires
        drops_registration(p, request_id, token),
        forall|j: int| 0 <= j < s.len() ==> (#[trigger] s[j]).0 != request_id,
    ensures
        s.filter(p) == s,
    decreases s.len(),
{
    reveal(Seq::filter);
    if s.len() > 0 {
        let t = s.drop_last();
        assert forall|j: int| 0 <= j < t.len() implies (#[trigger] t[j]).0 != request_id by {
            assert(t[j] == s[j]);
        }
        lemma_filter_keeps_unmatched(t, p, request_id, token);
        assert(p(s.last()));
        assert(s =~= t.push(s.last()));
    }
}

/// Ending the only registration of an id frees the id and one place: a later `begin` with
/// that id is no longer refused as a duplicate, nor for the limit if it was reached.
pub proof fn lemma_end_frees(s: Seq<(Seq<char>, u64, bool)>, p: spec_fn((Seq<char>, u64, bool)) -> bool, request_id: Seq<char>, token: u64, k: int)
    requires
        drops_registration(p, request_id, token),
        0 <= k < s.len(),
        s[k].0 == request_id,
        s[k].1 == token,
        forall|j: int| 0 <= j < s.len() && j != k ==> (#[trigger] s[j]).0 != request_id,
    ensures
        !has_request_id(s.filter(p), request_id),
        s.filter(p).len() == s.len() - 1,
    decreases s.len(),
{
    reveal(Seq::filter);
    let t = s.drop_last();
    let kept = s.filter(p);
    if k == s.len() - 1 {
        assert forall|j: int| 0 <= j < t.len() implies (#[trigger] t[j]).0 != request_id by {
            assert(t[j] == s[j]);
        }
        lemma_filter_keeps_unmatched(t, p, request_id, token);
        assert(!p(s.last()));
        assert(kept == t.filter(p));
        assert forall|i: int| 0 <= i < kept.len() implies (#[trigger] kept[i]).0 != request_id by {
            assert(kept[i] == t[i]);
        }
    } else {
        assert(t[k] == s[k]);
        assert forall|j: int| 0 <= j < t.len() && j != k implies (#[trigger] t[j]).0 != request_id by {
            assert(t[j] == s[j]);
        }
        lemma_end_frees(t, p, request_id, token, k);
        let rest = t.filter(p);
        assert(s.last().0 != request_id);
        assert(p(s.last()));
        assert(kept == rest.push(s.last()));
        assert forall|i: int| 0 <= i < kept.len() implies (#[trigger] kept[i]).0 != request_id by {
            if i < rest.len() {
                assert(kept[i] == rest[i]);
                assert(!((#[trigger] rest[i]).0 == request_id) || has_request_id(rest, request_id));
            }
        }
    }
}

/// Filtering keeps tokens distinct.
proof fn lemma_filter_distinct_tokens(s: Seq<(Seq<char>, u64, bool)>, p: spec_fn((Seq<char>, u64, bool)) -> bool, a: int, b: int)
    requires
        forall|i: int, j: int| 0 <= i < s.len() && 0 <= j < s.len() && i != j ==> (#[trigger] s[i]).1 != (#[trigger] s[j]).1,
        0 <= a < s.filter(p).len(),
        0 <= b < s.filter(p).len(),
        a != b,
    ensures
        s.filter(p)[a].1 != s.filter(p)[b].1,
    decreases s.len(),
{
    reveal(Seq::filter);
    let t = s.drop_last();
    assert forall|i: int, j: int| 0 <= i < t.len() && 0 <= j < t.len() && i != j implies (#[trigger] t[i]).1 != (#[trigger] t[j]).1 by {
        assert(t[i] == s[i] && t[j] == s[j]);
    }
    if p(s.last()) {
        let n = t.filter(p).len();
        if a < n && b < n {
            lemma_filter_distinct_tokens(t, p, a, b);
        } else {
            // One of them is the last element of `s`, which no earlier element shares a token with.
            let other = if a < n { a } else { b };
            if other < n {
                t.lemma_filter_contains_rev(p, t.filter(p)[other]);
                assert(t.filter(p).contains(t.filter(p)[other]));
                let k = choose|k: int| 0 <= k < t.len() && t[k] == t.filter(p)[other];
                assert(s[k] == t[k]);
                assert(s[s.len() - 1] == s.last());
            }
        }
    } else {
        lemma_filter_distinct_tokens(t, p, a, b);
    }
}

} // verus!
