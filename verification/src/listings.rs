//! Directory listings in flight, by request id: a listing is registered when it starts,
//! can be cancelled while it runs, and is forgotten when it ends.

use vstd::prelude::*;

use crate::filesystem::{DirectoryListingEvent, ExplorerError, FileEntrySummaryDto, LISTING_BATCH_SIZE};
use crate::ids::{valid_request_id, validate_request_id};
use crate::text::str_eq;

verus! {

pub struct ListingEntry {
    pub request_id: String,
    pub cancelled: bool,
}

pub open spec fn listing_views(v: Seq<ListingEntry>) -> Seq<(Seq<char>, bool)> {
    v.map_values(|e: ListingEntry| (e.request_id@, e.cancelled))
}

/// Whether a listing with this request id is in flight.
pub open spec fn is_listed(v: Seq<(Seq<char>, bool)>, id: Seq<char>) -> bool {
    exists|i: int| 0 <= i < v.len() && (#[trigger] v[i]).0 == id
}

/// Whether the listing with this request id was asked to stop.
pub open spec fn is_cancelled_in(v: Seq<(Seq<char>, bool)>, id: Seq<char>) -> bool {
    exists|i: int| 0 <= i < v.len() && (#[trigger] v[i]).0 == id && v[i].1
}

/// The listings in flight.
pub struct Listings {
    entries: Vec<ListingEntry>,
}

impl Listings {
    pub closed spec fn active(&self) -> Seq<(Seq<char>, bool)> {
        listing_views(self.entries@)
    }

    /// No request id is registered twice.
    pub open spec fn wf(&self) -> bool {
        forall|i: int, j: int|
            0 <= i < self.active().len() && 0 <= j < self.active().len() && i != j
                ==> (#[trigger] self.active()[i]).0 != (#[trigger] self.active()[j]).0
    }

    pub fn new() -> (r: Listings)
        ensures
            r.wf(),
            forall|id: Seq<char>| !is_listed(r.active(), id),
    {
        Listings { entries: Vec::new() }
    }

    fn find(&self, request_id: &str) -> (r: Option<usize>)
        ensures
            match r {
                Some(i) => i < self.active().len() && self.active()[i as int].0 == request_id@,
                None => !is_listed(self.active(), request_id@),
            },
    {
        let mut i: usize = 0;
        while i < self.entries.len()
            invariant
                i <= self.entries.len(),
                forall|j: int| 0 <= j < i ==> (#[trigger] self.active()[j]).0 != request_id@,
            decreases self.entries.len() - i,
        {
            assert(self.active()[i as int].0 == self.entries@[i as int].request_id@);
            if str_eq(self.entries[i].request_id.as_str(), request_id) {
                return Some(i);
            }
            i = i + 1;
        }
        None
    }

    /// Registers a listing. A malformed request id, or one whose listing is still in
    /// flight, is refused as an invalid reference.
    pub fn begin_listing(&mut self, request_id: &str) -> (r: Result<(), ExplorerError>)
        requires
            old(self).wf(),
        ensures
            final(self).wf(),
            r is Ok <==> valid_request_id(request_id@) && !is_listed(old(self).active(), request_id@),
            r is Err ==> r == Err::<(), ExplorerError>(ExplorerError::InvalidReference) && final(self).active()
                == old(self).active(),
            r is Ok ==> final(self).active() == old(self).active().push((request_id@, false)),
    {
        match validate_request_id(request_id) {
            Ok(()) => {},
            Err(e) => {
                return Err(e);
            },
        }
        if self.find(request_id).is_some() {
            return Err(ExplorerError::InvalidReference);
        }
        let ghost before = self.entries@;
        self.entries.push(ListingEntry { request_id: request_id.to_owned(), cancelled: false });
        assert(self.active() =~= listing_views(before).push((request_id@, false)));
        Ok(())
    }

    /// Asks the listing with this request id to stop; an id with no listing is ignored.
    pub fn cancel_listing(&mut self, request_id: &str) -> (r: Result<(), ExplorerError>)
        requires
            old(self).wf(),
        ensures
            r is Ok,
            final(self).wf(),
            forall|id: Seq<char>| #[trigger] is_listed(final(self).active(), id) == is_listed(old(self).active(), id),
            forall|id: Seq<char>|
                #[trigger] is_cancelled_in(final(self).active(), id) == (is_cancelled_in(old(self).active(), id) || (id
                    == request_id@ && is_listed(old(self).active(), id))),
    {
        match self.find(request_id) {
            Some(i) => {
                let ghost before = self.active();
                let entry = ListingEntry { request_id: self.entries[i].request_id.clone(), cancelled: true };
                self.entries.set(i, entry);
                assert(self.active() =~= before.update(i as int, (before[i as int].0, true)));
                assert forall|id: Seq<char>| #[trigger] is_listed(self.active(), id) == is_listed(before, id) by {
                    if is_listed(before, id) {
                        let k = choose|k: int| 0 <= k < before.len() && (#[trigger] before[k]).0 == id;
                        assert(self.active()[k].0 == id);
                    }
                    if is_listed(self.active(), id) {
                        let k = choose|k: int| 0 <= k < self.active().len() && (#[trigger] self.active()[k]).0 == id;
                        assert(before[k].0 == id);
                    }
                }
                assert forall|id: Seq<char>|
                    #[trigger] is_cancelled_in(self.active(), id) == (is_cancelled_in(before, id) || (id == request_id@
                        && is_listed(before, id))) by {
                    if is_cancelled_in(before, id) {
                        let k = choose|k: int| 0 <= k < before.len() && (#[trigger] before[k]).0 == id && before[k].1;
                        assert(self.active()[k].0 == id && self.active()[k].1);
                    }
                    if id == request_id@ {
                        assert(self.active()[i as int].0 == id && self.active()[i as int].1);
                    }
                    if is_cancelled_in(self.active(), id) {
                        let k = choose|k: int|
                            0 <= k < self.active().len() && (#[trigger] self.active()[k]).0 == id && self.active()[k].1;
                        if k != i {
                            assert(before[k].0 == id && before[k].1);
                        } else {
                            assert(before[k].0 == id);
                        }
                    }
                }
            },
            None => {},
        }
        Ok(())
    }

    /// Whether the listing with this request id was asked to stop.
    pub fn is_cancelled(&self, request_id: &str) -> (r: bool)
        ensures
            r == is_cancelled_in(self.active(), request_id@),
    {
        let mut i: usize = 0;
        while i < self.entries.len()
            invariant
                i <= self.entries.len(),
                forall|j: int| 0 <= j < i ==> !((#[trigger] self.active()[j]).0 == request_id@ && self.active()[j].1),
            decreases self.entries.len() - i,
        {
            assert(self.active()[i as int] == (self.entries@[i as int].request_id@, self.entries@[i as int].cancelled));
            if self.entries[i].cancelled && str_eq(self.entries[i].request_id.as_str(), request_id) {
                return true;
            }
            i = i + 1;
        }
        false
    }

    /// Forgets the listing with this request id, once it has ended.
    pub fn finish_listing(&mut self, request_id: &str)
        requires
            old(self).wf(),
        ensures
            final(self).wf(),
            forall|id: Seq<char>|
                #[trigger] is_listed(final(self).active(), id) == (is_listed(old(self).active(), id) && id != request_id@),
            forall|id: Seq<char>|
                #[trigger] is_cancelled_in(final(self).active(), id) == (is_cancelled_in(old(self).active(), id) && id
                    != request_id@),
    {
        match self.find(request_id) {
            Some(i) => {
                let ghost before = self.active();
                self.entries.remove(i);
                assert(self.active() =~= before.remove(i as int));
                assert forall|id: Seq<char>|
                    #[trigger] is_listed(self.active(), id) == (is_listed(before, id) && id != request_id@) by {
                    if is_listed(before, id) && id != request_id@ {
                        let k = choose|k: int| 0 <= k < before.len() && (#[trigger] before[k]).0 == id;
                        if k < i {
                            assert(self.active()[k].0 == id);
                        } else {
                            assert(self.active()[k - 1].0 == id);
                        }
                    }
                    if is_listed(self.active(), id) {
                        let k = choose|k: int| 0 <= k < self.active().len() && (#[trigger] self.active()[k]).0 == id;
                        if k < i {
                            assert(before[k].0 == id);
                        } else {
                            assert(before[k + 1].0 == id);
                        }
                    }
                }
                assert forall|id: Seq<char>|
                    #[trigger] is_cancelled_in(self.active(), id) == (is_cancelled_in(before, id) && id != request_id@) by {
                    if is_cancelled_in(before, id) && id != request_id@ {
                        let k = choose|k: int| 0 <= k < before.len() && (#[trigger] before[k]).0 == id && before[k].1;
                        if k < i {
                            assert(self.active()[k].0 == id && self.active()[k].1);
                        } else {
                            assert(self.active()[k - 1].0 == id && self.active()[k - 1].1);
                        }
                    }
                    if is_cancelled_in(self.active(), id) {
                        let k = choose|k: int|
                            0 <= k < self.active().len() && (#[trigger] self.active()[k]).0 == id && self.active()[k].1;
                        if k < i {
                            assert(before[k].0 == id && before[k].1);
                        } else {
                            assert(before[k + 1].0 == id && before[k + 1].1);
                        }
                    }
                }
            },
            None => {},
        }
    }
}

/// A newly registered listing is in flight and not cancelled.
pub proof fn lemma_registered_listing_runs(before: Seq<(Seq<char>, bool)>, id: Seq<char>)
    requires
        !is_listed(before, id),
    ensures
        is_listed(before.push((id, false)), id),
        is_cancelled_in(before.push((id, false)), id) == is_cancelled_in(before, id),
        !is_cancelled_in(before.push((id, false)), id),
{
    let after = before.push((id, false));
    assert(after[before.len() as int].0 == id);
    if is_cancelled_in(after, id) {
        let k = choose|k: int| 0 <= k < after.len() && (#[trigger] after[k]).0 == id && after[k].1;
        if k < before.len() {
            assert(before[k].0 == id);
        }
    }
}

/// Gathers the entries of a listing into batches of at most `LISTING_BATCH_SIZE`. The first
/// batch sent replaces what the view showed; later ones are appended.
pub struct ListingBatcher {
    batch: Vec<FileEntrySummaryDto>,
    first: bool,
    skipped: usize,
}

impl ListingBatcher {
    pub closed spec fn pending(&self) -> Seq<FileEntrySummaryDto> {
        self.batch@
    }

    pub closed spec fn replaces(&self) -> bool {
        self.first
    }

    pub closed spec fn skipped(&self) -> usize {
        self.skipped
    }

    /// A batch is sent as soon as it is full, so the one being gathered never is.
    pub open spec fn wf(&self) -> bool {
        self.pending().len() < LISTING_BATCH_SIZE
    }

    pub fn new() -> (r: ListingBatcher)
        ensures
            r.wf(),
            r.pending().len() == 0,
            r.replaces(),
            r.skipped() == 0,
    {
        ListingBatcher { batch: Vec::new(), first: true, skipped: 0 }
    }

    /// Adds an entry; when that fills the batch, the batch is returned to be sent.
    pub fn push(&mut self, entry: FileEntrySummaryDto) -> (r: Option<DirectoryListingEvent>)
        requires
            old(self).wf(),
        ensures
            final(self).wf(),
            final(self).skipped() == old(self).skipped(),
            old(self).pending().len() + 1 == LISTING_BATCH_SIZE ==> (r matches Some(DirectoryListingEvent::Entries { entries, replace })
                && entries@ == old(self).pending().push(entry) && replace == old(self).replaces()
                && final(self).pending().len() == 0 && !final(self).replaces()),
            old(self).pending().len() + 1 < LISTING_BATCH_SIZE ==> r is None && final(self).pending() == old(self).pending().push(
                entry) && final(self).replaces() == old(self).replaces(),
    {
        self.batch.push(entry);
        if self.batch.len() == LISTING_BATCH_SIZE {
            let mut entries: Vec<FileEntrySummaryDto> = Vec::new();
            std::mem::swap(&mut entries, &mut self.batch);
            let replace = self.first;
            self.first = false;
            Some(DirectoryListingEvent::Entries { entries, replace })
        } else {
            None
        }
    }

    /// The number of entries skipped so far.
    pub fn skipped_count(&self) -> (r: usize)
        ensures
            r == self.skipped(),
    {
        self.skipped
    }

    /// Counts an entry that could not be listed.
    pub fn skip(&mut self)
        requires
            old(self).skipped() < usize::MAX,
        ensures
            final(self).pending() == old(self).pending(),
            final(self).replaces() == old(self).replaces(),
            final(self).skipped() == old(self).skipped() + 1,
    {
        self.skipped = self.skipped + 1;
    }

    /// The events that end the listing: the last, partial batch if there is one, then the
    /// completion with the number of skipped entries.
    pub fn finish(self) -> (r: Vec<DirectoryListingEvent>)
        ensures
            self.pending().len() > 0 ==> r@.len() == 2 && (r@[0] matches DirectoryListingEvent::Entries { entries, replace }
                && entries@ == self.pending() && replace == self.replaces())
                && r@[1] == (DirectoryListingEvent::Complete { skipped_entries: self.skipped() }),
            self.pending().len() == 0 ==> r@ == seq![DirectoryListingEvent::Complete { skipped_entries: self.skipped() }],
    {
        let mut events: Vec<DirectoryListingEvent> = Vec::new();
        let skipped = self.skipped;
        if self.batch.len() > 0 {
            events.push(DirectoryListingEvent::Entries { entries: self.batch, replace: self.first });
        }
        events.push(DirectoryListingEvent::Complete { skipped_entries: skipped });
        events
    }
}

} // verus!
