//! The filesystem operations under way, by operation id: a request starts an operation
//! under a fresh id, the user's cancellations and prompt answers reach it by that id, and
//! it leaves the table when it ends.

use vstd::prelude::*;

use crate::file_operations::{
    queued_event, header, request_problem, problem_error, validate_request, ActiveOperation, EventHeader,
    FileOperationEventDto, FileOperationPromptResponseDto, FileOperationRequestDto, action_kind,
};
use crate::filesystem::ExplorerError;
use crate::ids::{is_uuid_text, random_id};
use crate::text::str_eq;

verus! {

/// An operation as the table sees it: (id, cancelled, pending decision).
pub type OperationView = (Seq<char>, bool, Option<(Seq<char>, Seq<FileOperationPromptResponseDto>)>);

pub struct OperationEntry {
    pub id: String,
    pub active: ActiveOperation,
}

pub open spec fn entry_view(e: OperationEntry) -> OperationView {
    (e.id@, e.active.is_cancelled(), e.active.pending())
}

/// The index of the operation `id`, if it is under way.
pub open spec fn operation_index(v: Seq<OperationView>, id: Seq<char>) -> Option<int> {
    if exists|i: int| 0 <= i < v.len() && (#[trigger] v[i]).0 == id {
        Some(choose|i: int| 0 <= i < v.len() && (#[trigger] v[i]).0 == id)
    } else {
        None
    }
}

/// No two operations share an id.
pub open spec fn table_wf(v: Seq<OperationView>) -> bool {
    forall|i: int, j: int| 0 <= i < v.len() && 0 <= j < v.len() && i != j ==> (#[trigger] v[i]).0 != (#[trigger] v[j]).0
}

/// The operations under way.
pub struct ActiveOperations {
    entries: Vec<OperationEntry>,
}

impl View for ActiveOperations {
    type V = Seq<OperationView>;

    closed spec fn view(&self) -> Seq<OperationView> {
        self.entries@.map_values(|e: OperationEntry| entry_view(e))
    }
}

/// What starting an operation with `id` leaves in the table: a new operation, not cancelled
/// and waiting for nothing, replacing one that had the same id.
pub open spec fn with_started(v: Seq<OperationView>, id: Seq<char>) -> Seq<OperationView> {
    match operation_index(v, id) {
        Some(i) => v.update(i, (id, false, None)),
        None => v.push((id, false, None)),
    }
}

impl ActiveOperations {
    pub fn new() -> (r: ActiveOperations)
        ensures
            r@ == Seq::<OperationView>::empty(),
    {
        let r = ActiveOperations { entries: Vec::new() };
        assert(r@ =~= Seq::<OperationView>::empty());
        r
    }

    fn find(&self, id: &str) -> (r: Option<usize>)
        requires
            table_wf(self@),
        ensures
            match r {
                Some(i) => operation_index(self@, id@) == Some(i as int) && i < self.entries@.len(),
                None => operation_index(self@, id@) is None,
            },
    {
        let mut i: usize = 0;
        while i < self.entries.len()
            invariant
                i <= self.entries.len(),
                self@.len() == self.entries@.len(),
                table_wf(self@),
                forall|j: int| 0 <= j < i ==> (#[trigger] self@[j]).0 != id@,
            decreases self.entries.len() - i,
        {
            assert(self@[i as int] == entry_view(self.entries@[i as int]));
            if str_eq(self.entries[i].id.as_str(), id) {
                proof {
                    assert(self@[i as int].0 == id@);
                    let k = choose|k: int| 0 <= k < self@.len() && (#[trigger] self@[k]).0 == id@;
                    assert(k == i);
                }
                return Some(i);
            }
            i = i + 1;
        }
        None
    }

    /// Starts the operation of `request` under a fresh random id and returns the id with its
    /// queued event. A request that `validate_request` refuses starts nothing.
    pub fn start(&mut self, request: &FileOperationRequestDto) -> (r: Result<(String, FileOperationEventDto), ExplorerError>)
        requires
            table_wf(old(self)@),
        ensures
            table_wf(final(self)@),
            request_problem(*request) is Some ==> r is Err && problem_error(request_problem(*request)->0, r->Err_0)
                && final(self)@ == old(self)@,
            request_problem(*request) is None ==> r is Ok,
            r is Ok ==> ({
                let (id, event) = r->Ok_0;
                &&& is_uuid_text(id@)
                &&& final(self)@ == with_started(old(self)@, id@)
                &&& event is Queued
                &&& header(event) == (EventHeader { operation_id: id@, sequence: 0, action: action_kind(request.action),
                    completed_items: 0, total_items: request.sources@.len() as u64, completed_bytes: None,
                    total_bytes: None, current_item_completed: None, current_item_total: None })
            }),
    {
        match validate_request(request) {
            Ok(()) => {},
            Err(e) => {
                return Err(e);
            },
        }
        let total = request.sources.len() as u64;
        let id = random_id();
        self.put(id.clone());
        let event = queued_event(id.as_str(), request.action.kind(), total);
        Ok((id, event))
    }

    /// Puts a new operation under `id`, replacing one that had that id.
    fn put(&mut self, id: String)
        requires
            table_wf(old(self)@),
        ensures
            table_wf(final(self)@),
            final(self)@ == with_started(old(self)@, id@),
    {
        let entry = OperationEntry { id: id.clone(), active: ActiveOperation::new() };
        let ghost before = self@;
        match self.find(id.as_str()) {
            Some(i) => {
                self.entries.set(i, entry);
                assert(self@ =~= before.update(i as int, (id@, false, None)));
            },
            None => {
                self.entries.push(entry);
                assert(self@ =~= before.push((id@, false, None)));
            },
        }
    }

    /// Marks the operation `id` as cancelled, if it is under way.
    pub fn cancel(&mut self, id: &str) -> (r: Result<(), ExplorerError>)
        requires
            table_wf(old(self)@),
        ensures
            r is Ok,
            table_wf(final(self)@),
            match operation_index(old(self)@, id@) {
                Some(i) => final(self)@ == old(self)@.update(i, (id@, true, old(self)@[i].2)),
                None => final(self)@ == old(self)@,
            },
    {
        match self.find(id) {
            Some(i) => {
                let ghost before = self@;
                let mut entry = self.entries.remove(i);
                entry.active.cancel();
                self.entries.insert(i, entry);
                assert(self@ =~= before.update(i as int, (id@, true, before[i as int].2)));
            },
            None => {},
        }
        Ok(())
    }

    /// Whether the operation `id` was cancelled; an operation that is not under way counts
    /// as cancelled.
    pub fn is_cancelled(&self, id: &str) -> (r: bool)
        requires
            table_wf(self@),
        ensures
            r == match operation_index(self@, id@) {
                Some(i) => self@[i].1,
                None => true,
            },
    {
        match self.find(id) {
            Some(i) => {
                assert(self@[i as int] == entry_view(self.entries@[i as int]));
                self.entries[i].active.ensure_not_cancelled().is_err()
            },
            None => true,
        }
    }

    /// Starts waiting for a decision of operation `id` under a fresh random prompt id, which
    /// it returns. An operation that is not under way, or already waits, is refused.
    pub fn begin_prompt(&mut self, id: &str, allowed_responses: Vec<FileOperationPromptResponseDto>) -> (r: Result<
        String,
        ExplorerError,
    >)
        requires
            table_wf(old(self)@),
        ensures
            table_wf(final(self)@),
            match operation_index(old(self)@, id@) {
                None => r == Err::<String, ExplorerError>(ExplorerError::InvalidReference) && final(self)@ == old(self)@,
                Some(i) => if old(self)@[i].2 is Some {
                    r == Err::<String, ExplorerError>(ExplorerError::StateUnavailable) && final(self)@ == old(self)@
                } else {
                    r is Ok && is_uuid_text(r->Ok_0@) && final(self)@ == old(self)@.update(
                        i,
                        (id@, old(self)@[i].1, Some((r->Ok_0@, allowed_responses@))),
                    )
                },
            },
    {
        match self.find(id) {
            None => Err(ExplorerError::InvalidReference),
            Some(i) => {
                let ghost before = self@;
                let prompt_id = random_id();
                let mut entry = self.entries.remove(i);
                assert(entry_view(entry) == before[i as int]);
                let started = entry.active.begin_prompt(prompt_id.clone(), allowed_responses);
                self.entries.insert(i, entry);
                match started {
                    Ok(()) => {
                        assert(self@ =~= before.update(i as int, (id@, before[i as int].1, Some((prompt_id@, allowed_responses@)))));
                        Ok(prompt_id)
                    },
                    Err(e) => {
                        assert(self@ =~= before);
                        Err(e)
                    },
                }
            },
        }
    }

    /// Delivers the user's answer to decision `prompt_id` of operation `operation_id`: an
    /// operation that is not under way is refused as an invalid reference; otherwise the
    /// operation accepts or refuses the answer as `ActiveOperation::respond` says, and an
    /// accepted answer ends the wait.
    pub fn respond(&mut self, operation_id: &str, prompt_id: &str, response: FileOperationPromptResponseDto) -> (r: Result<
        FileOperationPromptResponseDto,
        ExplorerError,
    >)
        requires
            table_wf(old(self)@),
        ensures
            table_wf(final(self)@),
            match operation_index(old(self)@, operation_id@) {
                None => r == Err::<FileOperationPromptResponseDto, ExplorerError>(ExplorerError::InvalidReference)
                    && final(self)@ == old(self)@,
                Some(i) => match old(self)@[i].2 {
                    Some((pending, allowed)) => if pending != prompt_id@ {
                        r == Err::<FileOperationPromptResponseDto, ExplorerError>(ExplorerError::InvalidReference)
                            && final(self)@ == old(self)@
                    } else if !allowed.contains(response) {
                        r is Err && (r->Err_0 matches ExplorerError::InvalidConfiguration(m)
                            && m@ == "That response is not available for this filesystem decision."@)
                            && final(self)@ == old(self)@
                    } else {
                        r == Ok::<FileOperationPromptResponseDto, ExplorerError>(response) && final(self)@
                            == old(self)@.update(i, (operation_id@, old(self)@[i].1, None))
                    },
                    None => r == Err::<FileOperationPromptResponseDto, ExplorerError>(ExplorerError::InvalidReference)
                        && final(self)@ == old(self)@,
                },
            },
    {
        match self.find(operation_id) {
            None => Err(ExplorerError::InvalidReference),
            Some(i) => {
                let ghost before = self@;
                let mut entry = self.entries.remove(i);
                assert(entry_view(entry) == before[i as int]);
                let answered = entry.active.respond(prompt_id, response);
                self.entries.insert(i, entry);
                proof {
                    if answered is Ok {
                        assert(self@ =~= before.update(i as int, (operation_id@, before[i as int].1, None)));
                    } else {
                        assert(self@ =~= before);
                    }
                }
                answered
            },
        }
    }

    /// Ends the wait of operation `id` for a decision, if it is under way.
    pub fn clear_prompt(&mut self, id: &str)
        requires
            table_wf(old(self)@),
        ensures
            table_wf(final(self)@),
            match operation_index(old(self)@, id@) {
                Some(i) => final(self)@ == old(self)@.update(i, (id@, old(self)@[i].1, None)),
                None => final(self)@ == old(self)@,
            },
    {
        match self.find(id) {
            Some(i) => {
                let ghost before = self@;
                let mut entry = self.entries.remove(i);
                entry.active.clear_prompt();
                self.entries.insert(i, entry);
                assert(self@ =~= before.update(i as int, (id@, before[i as int].1, None)));
            },
            None => {},
        }
    }

    /// Removes the operation `id` once it has ended.
    pub fn finish(&mut self, id: &str)
        requires
            table_wf(old(self)@),
        ensures
            table_wf(final(self)@),
            operation_index(final(self)@, id@) is None,
            match operation_index(old(self)@, id@) {
                Some(i) => final(self)@ == old(self)@.remove(i),
                None => final(self)@ == old(self)@,
            },
    {
        match self.find(id) {
            Some(i) => {
                let ghost before = self@;
                let _ = self.entries.remove(i);
                assert(self@ =~= before.remove(i as int));
                assert forall|j: int| 0 <= j < self@.len() implies (#[trigger] self@[j]).0 != id@ by {
                    if j < i {
                        assert(self@[j] == before[j]);
                    } else {
                        assert(self@[j] == before[j + 1]);
                    }
                }
            },
            None => {},
        }
    }
}

/// A decision is answered once: after an operation accepts an answer it waits for nothing,
/// so any later answer to it, to that decision or another, is refused as an invalid
/// reference until it asks again.
pub proof fn lemma_answer_is_single_use(
    v: Seq<OperationView>,
    operation_id: Seq<char>,
    i: int,
)
    requires
        table_wf(v),
        0 <= i < v.len(),
        v[i].0 == operation_id,
    ensures
        table_wf(v.update(i, (operation_id, v[i].1, None))),
        operation_index(v.update(i, (operation_id, v[i].1, None)), operation_id) == Some(i),
        v.update(i, (operation_id, v[i].1, None))[i].2 is None,
{
    let w = v.update(i, (operation_id, v[i].1, None));
    assert(w[i].0 == operation_id);
    let k = choose|k: int| 0 <= k < w.len() && (#[trigger] w[k]).0 == operation_id;
    if k != i {
        assert(w[k] == v[k]);
    }
}

/// An operation that has ended is unknown: every answer and every prompt for it is refused
/// as an invalid reference.
pub proof fn lemma_finished_is_unknown(v: Seq<OperationView>, id: Seq<char>, i: int)
    requires
        table_wf(v),
        0 <= i < v.len(),
        v[i].0 == id,
    ensures
        operation_index(v.remove(i), id) is None,
{
    let w = v.remove(i);
    assert forall|j: int| 0 <= j < w.len() implies (#[trigger] w[j]).0 != id by {
        if j < i {
            assert(w[j] == v[j]);
        } else {
            assert(w[j] == v[j + 1]);
        }
    }
}

} // verus!
