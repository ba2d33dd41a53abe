//! Opening entries with the desktop's own applications: the requests in flight and the
//! names under which remote files are saved before they are opened.

use vstd::prelude::*;

use crate::filesystem::ExplorerError;
use crate::ids::{is_uuid_text, random_id};
use crate::ssh_targets::{join, join_path};
use crate::paths::{file_name, path_file_name};
use crate::text::{decimal, decimal_string, chars_of, is_control, is_control_char, str_eq, string_from_range};

verus! {

broadcast use vstd::seq_lib::group_seq_properties;

pub const LARGE_REMOTE_OPEN_BYTES: u64 = 268435456;
pub const MAX_REMOTE_OPEN_BYTES: u64 = 2147483648;
pub const MAX_OPEN_REQUESTS: usize = 128;
pub const MAX_CONCURRENT_REMOTE_OPENS: usize = 2;

#[derive(Debug, Clone, PartialEq, Eq)]
pub enum NativeOpenEventDto {
    Queued,
    Downloading { transferred_bytes: String, total_bytes: Option<String> },
    Launching,
}

#[derive(Debug, Clone, PartialEq, Eq)]
pub enum NativeOpenOutcomeDto {
    Opened,
    ConfirmationRequired { size: Option<String> },
}

/// Hands a resolved path to the desktop's default application.
pub trait NativeFileOpener<P> {
    fn open(&self, path: &P) -> Result<(), ExplorerError>;
}

/// A character that may not stand in a saved file name.
pub open spec fn unsafe_name_char(c: char) -> bool {
    is_control_char(c) || c == '/' || c == '\\' || c == ':'
}

pub open spec fn sanitized(s: Seq<char>) -> Seq<char> {
    s.map_values(|c: char| if unsafe_name_char(c) { '_' } else { c })
}

pub open spec fn trimmable(c: char) -> bool {
    c == '.' || c == ' '
}

pub open spec fn leading_trim(s: Seq<char>) -> nat
    decreases s.len(),
{
    if s.len() > 0 && trimmable(s[0]) {
        1 + leading_trim(s.drop_first())
    } else {
        0
    }
}

pub open spec fn trailing_trim(s: Seq<char>) -> nat
    decreases s.len(),
{
    if s.len() > 0 && trimmable(s.last()) {
        1 + trailing_trim(s.drop_last())
    } else {
        0
    }
}

/// `s` without leading and trailing dots and spaces.
pub open spec fn trim_dots(s: Seq<char>) -> Seq<char> {
    let t = s.skip(leading_trim(s) as int);
    t.take(t.len() - trailing_trim(t))
}

/// The name under which a remote file is saved: its final component with path separators,
/// colons and control characters replaced and surrounding dots and spaces removed; a fixed
/// name when nothing usable, or more than 240 bytes, remains.
pub open spec fn snapshot_name(name: Seq<char>) -> Seq<char> {
    let base = match file_name(name) {
        Some(n) => n,
        None => "remote-file"@,
    };
    let t = trim_dots(sanitized(base));
    if t.len() == 0 || vstd::utf8::encode_utf8(t).len() > 240 {
        "remote-file"@
    } else {
        t
    }
}

proof fn lemma_leading_trim(s: Seq<char>)
    ensures
        leading_trim(s) <= s.len(),
        forall|i: int| 0 <= i < leading_trim(s) ==> trimmable(#[trigger] s[i]),
        leading_trim(s) < s.len() ==> !trimmable(s[leading_trim(s) as int]),
    decreases s.len(),
{
    if s.len() > 0 && trimmable(s[0]) {
        lemma_leading_trim(s.drop_first());
        assert forall|i: int| 0 <= i < leading_trim(s) implies trimmable(#[trigger] s[i]) by {
            if i > 0 {
                assert(s[i] == s.drop_first()[i - 1]);
            }
        }
    }
}

proof fn lemma_trailing_trim(s: Seq<char>)
    ensures
        trailing_trim(s) <= s.len(),
        forall|i: int| s.len() - trailing_trim(s) <= i < s.len() ==> trimmable(#[trigger] s[i]),
        trailing_trim(s) < s.len() ==> !trimmable(s[s.len() - trailing_trim(s) - 1]),
    decreases s.len(),
{
    if s.len() > 0 && trimmable(s.last()) {
        lemma_trailing_trim(s.drop_last());
        assert forall|i: int| s.len() - trailing_trim(s) <= i < s.len() implies trimmable(#[trigger] s[i]) by {
            if i < s.len() - 1 {
                assert(s[i] == s.drop_last()[i]);
            }
        }
    }
}

#[verifier::rlimit(40)]
#[verifier::spinoff_prover]
pub fn safe_snapshot_name(name: &str) -> (r: String)
    ensures
        r@ == snapshot_name(name@),
{
    let base = match path_file_name(name) {
        Some(n) => n,
        None => "remote-file".to_owned(),
    };
    let chars = chars_of(base.as_str());
    let mut clean: Vec<char> = Vec::new();
    let mut i: usize = 0;
    while i < chars.len()
        invariant
            i <= chars.len(),
            clean@ == sanitized(chars@.take(i as int)),
        decreases chars.len() - i,
    {
        let c = chars[i];
        if is_control(c) || c == '/' || c == '\\' || c == ':' {
            clean.push('_');
        } else {
            clean.push(c);
        }
        i = i + 1;
        assert(clean@ =~= sanitized(chars@.take(i as int)));
    }
    assert(chars@.take(chars.len() as int) =~= chars@);
    let ghost s = clean@;
    proof {
        lemma_leading_trim(s);
    }
    let mut start: usize = 0;
    while start < clean.len() && (clean[start] == '.' || clean[start] == ' ')
        invariant
            start <= clean.len(),
            s == clean@,
            start <= leading_trim(s),
            leading_trim(s) <= s.len(),
            forall|k: int| 0 <= k < leading_trim(s) ==> trimmable(#[trigger] s[k]),
            leading_trim(s) < s.len() ==> !trimmable(s[leading_trim(s) as int]),
        decreases clean.len() - start,
    {
        start = start + 1;
    }
    assert(start == leading_trim(s));
    let ghost t = s.skip(start as int);
    proof {
        lemma_trailing_trim(t);
    }
    let mut end: usize = clean.len();
    while end > start && (clean[end - 1] == '.' || clean[end - 1] == ' ')
        invariant
            start <= end <= clean.len(),
            s == clean@,
            t == s.skip(start as int),
            s.len() - end <= trailing_trim(t),
            trailing_trim(t) <= t.len(),
            forall|k: int| t.len() - trailing_trim(t) <= k < t.len() ==> trimmable(#[trigger] t[k]),
            trailing_trim(t) < t.len() ==> !trimmable(t[t.len() - trailing_trim(t) - 1]),
        decreases end,
    {
        assert(s[end - 1] == t[end - 1 - start]);
        end = end - 1;
    }
    assert(s.len() - end == trailing_trim(t)) by {
        if s.len() - end < trailing_trim(t) {
            if end > start {
                assert(s[end - 1] == t[end - 1 - start]);
            }
        }
    }
    let trimmed = string_from_range(&clean, start, end);
    assert(trimmed@ =~= trim_dots(s));
    if trimmed.as_str().unicode_len() == 0 || trimmed.as_str().as_bytes().len() > 240 {
        "remote-file".to_owned()
    } else {
        trimmed
    }
}

/// The native-open requests in flight, each with whether it was cancelled.
pub struct NativeOpenRequests {
    requests: Vec<(String, bool)>,
}

pub open spec fn request_views(v: Seq<(String, bool)>) -> Seq<(Seq<char>, bool)> {
    v.map_values(|x: (String, bool)| (x.0@, x.1))
}

pub open spec fn has_request(v: Seq<(Seq<char>, bool)>, id: Seq<char>) -> bool {
    exists|i: int| 0 <= i < v.len() && (#[trigger] v[i]).0 == id
}

impl NativeOpenRequests {
    pub closed spec fn requests(&self) -> Seq<(Seq<char>, bool)> {
        request_views(self.requests@)
    }

    pub fn new() -> (r: NativeOpenRequests)
        ensures
            r.requests().len() == 0,
    {
        NativeOpenRequests { requests: Vec::new() }
    }

    fn find(&self, id: &str) -> (r: Option<usize>)
        ensures
            match r {
                Some(i) => i < self.requests().len() && self.requests()[i as int].0 == id@
                    && forall|j: int| 0 <= j < i ==> (#[trigger] self.requests()[j]).0 != id@,
                None => !has_request(self.requests(), id@),
            },
    {
        let mut i: usize = 0;
        while i < self.requests.len()
            invariant
                i <= self.requests.len(),
                forall|j: int| 0 <= j < i ==> (#[trigger] self.requests()[j]).0 != id@,
            decreases self.requests.len() - i,
        {
            assert(self.requests()[i as int] == (self.requests@[i as int].0@, self.requests@[i as int].1));
            if str_eq(self.requests[i].0.as_str(), id) {
                return Some(i);
            }
            i = i + 1;
        }
        None
    }

    /// Starts tracking a request: its id is 1 to 128 bytes, new, and at most 128 requests
    /// run at once.
    pub fn begin(&mut self, request_id: &str) -> (r: Result<(), ExplorerError>)
        ensures
            ({
                let n = vstd::utf8::encode_utf8(request_id@).len();
                if n == 0 || n > 128 || old(self).requests().len() >= MAX_OPEN_REQUESTS || has_request(old(self).requests(), request_id@) {
                    r == Err::<(), ExplorerError>(ExplorerError::InvalidReference) && final(self).requests() == old(self).requests()
                } else {
                    r is Ok && final(self).requests() == old(self).requests().push((request_id@, false))
                }
            }),
    {
        let n = request_id.as_bytes().len();
        if n == 0 || n > 128 {
            return Err(ExplorerError::InvalidReference);
        }
        if self.requests.len() >= MAX_OPEN_REQUESTS || self.find(request_id).is_some() {
            return Err(ExplorerError::InvalidReference);
        }
        let ghost before = self.requests@;
        self.requests.push((request_id.to_owned(), false));
        assert(self.requests() =~= request_views(before).push((request_id@, false)));
        Ok(())
    }

    /// Stops tracking a request.
    pub fn finish(&mut self, request_id: &str)
        ensures
            !has_request(final(self).requests(), request_id@),
            forall|x: (Seq<char>, bool)| x.0 != request_id@ ==> (final(self).requests().contains(x) <==> old(self).requests().contains(x)),
    {
        let ghost before = self.requests();
        let mut kept: Vec<(String, bool)> = Vec::new();
        let mut i: usize = 0;
        while i < self.requests.len()
            invariant
                i <= self.requests.len(),
                before == self.requests(),
                forall|j: int| 0 <= j < kept@.len() ==> (#[trigger] request_views(kept@)[j]).0 != request_id@,
                forall|x: (Seq<char>, bool)| x.0 != request_id@ ==> (request_views(kept@).contains(x) <==> before.take(i as int).contains(x)),
            decreases self.requests.len() - i,
        {
            let ghost prev = kept@;
            assert(before[i as int] == (self.requests@[i as int].0@, self.requests@[i as int].1));
            assert(before.take(i + 1) =~= before.take(i as int).push(before[i as int]));
            if !str_eq(self.requests[i].0.as_str(), request_id) {
                let entry = (self.requests[i].0.clone(), self.requests[i].1);
                kept.push(entry);
                assert(request_views(kept@) =~= request_views(prev).push(before[i as int]));
            }
            i = i + 1;
        }
        assert(before.take(before.len() as int) =~= before);
        self.requests = kept;
    }

    /// Marks a request as cancelled; an unknown request is ignored.
    pub fn cancel(&mut self, request_id: &str) -> (r: Result<(), ExplorerError>)
        ensures
            r is Ok,
            final(self).requests().len() == old(self).requests().len(),
            forall|i: int| 0 <= i < old(self).requests().len() ==> (#[trigger] final(self).requests()[i]).0 == old(self).requests()[i].0,
            forall|i: int| 0 <= i < old(self).requests().len() ==> (#[trigger] final(self).requests()[i]).1 == (old(self).requests()[i].1
                || (old(self).requests()[i].0 == request_id@ && forall|j: int| 0 <= j < i ==> old(self).requests()[j].0 != request_id@)),
    {
        match self.find(request_id) {
            Some(i) => {
                let ghost before = self.requests();
                let id = self.requests[i].0.clone();
                self.requests.set(i, (id, true));
                assert(self.requests() =~= before.update(i as int, (before[i as int].0, true)));
            },
            None => {},
        }
        Ok(())
    }

    /// Whether the request was cancelled (an unknown request counts as cancelled): the
    /// flag of the first request with this id.
    pub fn is_cancelled(&self, request_id: &str) -> (r: bool)
        ensures
            !has_request(self.requests(), request_id@) ==> r,
            forall|i: int|
                0 <= i < self.requests().len() && (#[trigger] self.requests()[i]).0 == request_id@ && (forall|j: int|
                    0 <= j < i ==> self.requests()[j].0 != request_id@) ==> r == self.requests()[i].1,
    {
        match self.find(request_id) {
            Some(i) => {
                let c = self.requests[i].1;
                proof {
                    assert(self.requests()[i as int] == (self.requests@[i as int].0@, self.requests@[i as int].1));
                    assert forall|k: int|
                        0 <= k < self.requests().len() && (#[trigger] self.requests()[k]).0 == request_id@ && (forall|j: int|
                            0 <= j < k ==> self.requests()[j].0 != request_id@) implies c == self.requests()[k].1 by {
                        if k < i {
                            assert(self.requests()[k].0 != request_id@);
                        } else if k > i {
                            assert(self.requests()[i as int].0 != request_id@);
                        }
                    }
                }
                c
            },
            None => true,
        }
    }
}

/// Where a remote file is saved before it is opened: a fresh directory named by a random id
/// inside the session directory, holding the partial download and the final snapshot under
/// its safe name. Returns (directory, partial path, final path).
pub fn snapshot_destination(session_directory: &str, name: &str) -> (r: (String, String, String))
    ensures
        exists|id: Seq<char>|
            is_uuid_text(id) && r.0@ == join_path(session_directory@, id),
        r.1@ == join_path(r.0@, "download.partial"@),
        r.2@ == join_path(r.0@, snapshot_name(name@)),
{
    let id = random_id();
    let directory = join(session_directory, id.as_str());
    let snapshot = safe_snapshot_name(name);
    let partial = join(directory.as_str(), "download.partial");
    let final_path = join(directory.as_str(), snapshot.as_str());
    (directory, partial, final_path)
}

/// A saved snapshot name never leaves its directory: it is not empty, at most 240 bytes
/// long, not `.` or `..`, and holds no path separator, colon or control character.
pub proof fn lemma_snapshot_name_is_safe(name: Seq<char>)
    ensures
        snapshot_name(name).len() > 0,
        vstd::utf8::encode_utf8(snapshot_name(name)).len() <= 240,
        snapshot_name(name) != "."@,
        snapshot_name(name) != ".."@,
        forall|i: int| 0 <= i < snapshot_name(name).len() ==> !unsafe_name_char(#[trigger] snapshot_name(name)[i]),
{
    let base = match file_name(name) {
        Some(n) => n,
        None => "remote-file"@,
    };
    let s = sanitized(base);
    let t = trim_dots(s);
    reveal_strlit("remote-file");
    reveal_strlit(".");
    reveal_strlit("..");
    if t.len() == 0 || vstd::utf8::encode_utf8(t).len() > 240 {
        assert forall|i: int| 0 <= i < "remote-file"@.len() implies !unsafe_name_char(#[trigger] "remote-file"@[i]) by {
        }
        assert(vstd::utf8::is_ascii_chars("remote-file"@));
        vstd::utf8::is_ascii_chars_encode_utf8("remote-file"@);
    } else {
        lemma_leading_trim(s);
        let u = s.skip(leading_trim(s) as int);
        lemma_trailing_trim(u);
        assert forall|i: int| 0 <= i < t.len() implies !unsafe_name_char(#[trigger] t[i]) by {
            assert(t[i] == s[i + leading_trim(s)]);
        }
        assert(!trimmable(t[0])) by {
            assert(t[0] == u[0]);
        }
        assert(t != "."@);
        assert(t != ".."@);
    }
}

/// What opening a remote file of `size` bytes (unknown when `None`) requires before any
/// download: files over the hard limit cannot be opened; unless the user already agreed,
/// a large file, or one of unknown size, needs a confirmation naming its size; any other
/// file is downloaded.
pub open spec fn remote_open_check(size: Option<u64>, allow_large: bool) -> Option<Option<Option<Seq<char>>>> {
    if size is Some && size->0 > MAX_REMOTE_OPEN_BYTES {
        None
    } else if !allow_large && (size is None || size->0 > LARGE_REMOTE_OPEN_BYTES) {
        Some(Some(match size {
            Some(n) => Some(decimal(n as nat)),
            None => None,
        }))
    } else {
        Some(None)
    }
}

/// Decides whether a remote file may be downloaded to be opened. `Ok(None)` means go
/// ahead; `Ok(Some(outcome))` is the confirmation to ask for instead.
pub fn remote_open_decision(size: Option<u64>, allow_large: bool) -> (r: Result<Option<NativeOpenOutcomeDto>, ExplorerError>)
    ensures
        match remote_open_check(size, allow_large) {
            None => r matches Err(ExplorerError::Unsupported(m)) && m@ == "Remote files larger than 2 GiB cannot be opened yet."@,
            Some(None) => r == Ok::<Option<NativeOpenOutcomeDto>, ExplorerError>(None),
            Some(Some(shown)) => r matches Ok(Some(NativeOpenOutcomeDto::ConfirmationRequired { size: text }))
                && match shown {
                    Some(t) => text is Some && text->0@ == t,
                    None => text is None,
                },
        },
{
    match size {
        Some(n) => if n > MAX_REMOTE_OPEN_BYTES {
            return Err(ExplorerError::Unsupported("Remote files larger than 2 GiB cannot be opened yet.".to_owned()));
        },
        None => {},
    }
    let large = match size {
        Some(n) => n > LARGE_REMOTE_OPEN_BYTES,
        None => true,
    };
    if !allow_large && large {
        let shown = match size {
            Some(n) => Some(decimal_string(n)),
            None => None,
        };
        return Ok(Some(NativeOpenOutcomeDto::ConfirmationRequired { size: shown }));
    }
    Ok(None)
}

/// The progress event of a remote download: the bytes so far, and the total if known.
pub fn downloading_event(transferred: u64, total: Option<u64>) -> (r: NativeOpenEventDto)
    ensures
        r matches NativeOpenEventDto::Downloading { transferred_bytes, total_bytes } && transferred_bytes@ == decimal(
            transferred as nat,
        ) && match total {
            Some(t) => total_bytes is Some && total_bytes->0@ == decimal(t as nat),
            None => total_bytes is None,
        },
{
    let total_bytes = match total {
        Some(t) => Some(decimal_string(t)),
        None => None,
    };
    NativeOpenEventDto::Downloading { transferred_bytes: decimal_string(transferred), total_bytes }
}

} // verus!
