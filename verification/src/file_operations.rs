//! Filesystem actions on selected entries: request validation, the bookkeeping of batches,
//! the progress events of an operation and the single pending decision prompt.

use vstd::prelude::*;

use crate::config_text::first_where;
use crate::filesystem::{
    DirectoryRefDto, EntryRefDto, ExplorerError, ExplorerErrorCode, ExplorerErrorDto, FileEntrySummaryDto,
};
use crate::text::{chars_of, contains_char, decimal, decimal_string, has_char, str_eq, string_from_range};

verus! {

broadcast use vstd::seq_lib::group_seq_properties;

pub const MAX_OPERATION_SOURCES: usize = 1000;
pub const BYTE_PROGRESS_EVENT_INTERVAL: u64 = 4194304;

#[derive(Debug, Clone, PartialEq, Eq)]
pub struct FileOperationRequestDto {
    pub sources: Vec<EntryRefDto>,
    pub action: FileOperationActionDto,
}

#[derive(Debug, Clone, PartialEq, Eq)]
pub enum FileOperationActionDto {
    Rename { new_name: String },
    Move { destination: DirectoryRefDto },
    Trash {},
    DeletePermanently {},
}

#[derive(Debug, Clone, Copy, PartialEq, Eq, Structural)]
pub enum FileOperationKindDto {
    Rename,
    Move,
    Trash,
    DeletePermanently,
}

#[derive(Debug, Clone, Copy, PartialEq, Eq, Structural)]
pub enum FileOperationPromptResponseDto {
    Confirm,
    KeepBoth,
    Skip,
    Cancel,
}

#[derive(Debug, Clone, PartialEq, Eq)]
pub enum FileOperationPromptDto {
    PermanentDelete {
        id: String,
        title: String,
        message: String,
        target_name: String,
        location_name: String,
        confirm_label: String,
    },
    MoveConflict {
        id: String,
        title: String,
        message: String,
        target_name: String,
        destination_name: String,
        decisions: Vec<FileOperationPromptResponseDto>,
    },
}

#[derive(Debug, PartialEq, Eq)]
pub enum FileOperationOutcomeDto {
    Renamed { entry: Box<FileEntrySummaryDto> },
    Moved {
        entry: Box<FileEntrySummaryDto>,
        source_parent: DirectoryRefDto,
        destination: DirectoryRefDto,
        rebased_entry_ids: Vec<String>,
        invalidated_entry_ids: Vec<String>,
    },
    MoveSkipped { entry: EntryRefDto, name: String },
    Trashed { entry: EntryRefDto, name: String, invalidated_entry_ids: Vec<String> },
    DeletedPermanently { entry: EntryRefDto, name: String, invalidated_entry_ids: Vec<String> },
    Batch { status: FileOperationBatchStatusDto, items: Vec<FileOperationBatchItemDto> },
}

#[derive(Debug, Clone, Copy, PartialEq, Eq, Structural)]
pub enum FileOperationBatchStatusDto {
    Completed,
    Partial,
    Cancelled,
}

#[derive(Debug, PartialEq, Eq)]
pub enum FileOperationBatchItemDto {
    Completed { source: EntryRefDto, outcome: Box<FileOperationOutcomeDto> },
    Failed { source: EntryRefDto, error: ExplorerErrorDto },
    Cancelled { source: EntryRefDto },
    NotStarted { source: EntryRefDto },
}

#[derive(Debug, PartialEq, Eq)]
pub enum FileOperationEventDto {
    Queued {
        operation_id: String,
        sequence: u64,
        action: FileOperationKindDto,
        completed_items: u64,
        total_items: u64,
        completed_bytes: Option<String>,
        total_bytes: Option<String>,
        current_item_completed: Option<u64>,
        current_item_total: Option<u64>,
    },
    Running {
        operation_id: String,
        sequence: u64,
        action: FileOperationKindDto,
        completed_items: u64,
        total_items: u64,
        completed_bytes: Option<String>,
        total_bytes: Option<String>,
        current_item_completed: Option<u64>,
        current_item_total: Option<u64>,
    },
    AwaitingConfirmation {
        operation_id: String,
        sequence: u64,
        action: FileOperationKindDto,
        completed_items: u64,
        total_items: u64,
        completed_bytes: Option<String>,
        total_bytes: Option<String>,
        current_item_completed: Option<u64>,
        current_item_total: Option<u64>,
        prompt: FileOperationPromptDto,
    },
    AwaitingConflict {
        operation_id: String,
        sequence: u64,
        action: FileOperationKindDto,
        completed_items: u64,
        total_items: u64,
        completed_bytes: Option<String>,
        total_bytes: Option<String>,
        current_item_completed: Option<u64>,
        current_item_total: Option<u64>,
        prompt: FileOperationPromptDto,
    },
    Completed {
        operation_id: String,
        sequence: u64,
        action: FileOperationKindDto,
        completed_items: u64,
        total_items: u64,
        completed_bytes: Option<String>,
        total_bytes: Option<String>,
        current_item_completed: Option<u64>,
        current_item_total: Option<u64>,
        outcome: FileOperationOutcomeDto,
    },
    Cancelled {
        operation_id: String,
        sequence: u64,
        action: FileOperationKindDto,
        completed_items: u64,
        total_items: u64,
        completed_bytes: Option<String>,
        total_bytes: Option<String>,
        current_item_completed: Option<u64>,
        current_item_total: Option<u64>,
        outcome: Option<FileOperationOutcomeDto>,
    },
    Failed {
        operation_id: String,
        sequence: u64,
        action: FileOperationKindDto,
        completed_items: u64,
        total_items: u64,
        completed_bytes: Option<String>,
        total_bytes: Option<String>,
        current_item_completed: Option<u64>,
        current_item_total: Option<u64>,
        error: ExplorerErrorDto,
        outcome: Option<FileOperationOutcomeDto>,
    },
}

/// How an operation ends.
#[derive(Debug, PartialEq, Eq)]
pub enum OperationTerminal {
    Completed(FileOperationOutcomeDto),
    Cancelled(Option<FileOperationOutcomeDto>),
    Failed { error: ExplorerErrorDto, outcome: Option<FileOperationOutcomeDto> },
}

pub open spec fn action_kind(action: FileOperationActionDto) -> FileOperationKindDto {
    match action {
        FileOperationActionDto::Rename { .. } => FileOperationKindDto::Rename,
        FileOperationActionDto::Move { .. } => FileOperationKindDto::Move,
        FileOperationActionDto::Trash {} => FileOperationKindDto::Trash,
        FileOperationActionDto::DeletePermanently {} => FileOperationKindDto::DeletePermanently,
    }
}

impl FileOperationActionDto {
    pub fn kind(&self) -> (r: FileOperationKindDto)
        ensures
            r == action_kind(*self),
    {
        match self {
            FileOperationActionDto::Rename { .. } => FileOperationKindDto::Rename,
            FileOperationActionDto::Move { .. } => FileOperationKindDto::Move,
            FileOperationActionDto::Trash {} => FileOperationKindDto::Trash,
            FileOperationActionDto::DeletePermanently {} => FileOperationKindDto::DeletePermanently,
        }
    }
}

/// An entry reference as (id, location id).
pub open spec fn entry_view(e: EntryRefDto) -> (Seq<char>, Seq<char>) {
    (e.id@, e.location_id@)
}

pub open spec fn entry_views(v: Seq<EntryRefDto>) -> Seq<(Seq<char>, Seq<char>)> {
    v.map_values(|e: EntryRefDto| entry_view(e))
}

pub fn copy_entry(e: &EntryRefDto) -> (r: EntryRefDto)
    ensures
        entry_view(r) == entry_view(*e),
{
    EntryRefDto { id: e.id.clone(), location_id: e.location_id.clone() }
}

pub open spec fn utf8_len(s: Seq<char>) -> nat {
    vstd::utf8::encode_utf8(s).len()
}

/// Why a request is refused.
#[derive(Debug, Clone, Copy, PartialEq, Eq, Structural)]
pub enum RequestProblem {
    SourceCount,
    RenameCount,
    InvalidSource,
    MixedLocations,
    RepeatedSource,
    InvalidDestination,
}

/// The error that reports a refused request.
pub open spec fn problem_error(p: RequestProblem, e: ExplorerError) -> bool {
    match p {
        RequestProblem::SourceCount => e matches ExplorerError::InvalidConfiguration(m)
            && m@ == "Filesystem actions require between 1 and 1000 selected items."@,
        RequestProblem::RenameCount => e matches ExplorerError::InvalidConfiguration(m)
            && m@ == "Rename requires exactly one selected item."@,
        RequestProblem::InvalidSource => e == ExplorerError::InvalidReference,
        RequestProblem::MixedLocations => e matches ExplorerError::InvalidConfiguration(m)
            && m@ == "A batch filesystem action must use items from one location."@,
        RequestProblem::RepeatedSource => e matches ExplorerError::InvalidConfiguration(m)
            && m@ == "A selected item can appear only once in a filesystem action."@,
        RequestProblem::InvalidDestination => e == ExplorerError::InvalidReference,
    }
}

pub open spec fn reference_text_ok(s: Seq<char>) -> bool {
    1 <= utf8_len(s) && utf8_len(s) <= 256
}

/// The check of source `i`, given the sources before it.
pub open spec fn source_problem(sources: Seq<(Seq<char>, Seq<char>)>, i: int) -> Option<RequestProblem> {
    let s = sources[i];
    if !reference_text_ok(s.0) || !reference_text_ok(s.1) {
        Some(RequestProblem::InvalidSource)
    } else if s.1 != sources[0].1 {
        Some(RequestProblem::MixedLocations)
    } else if exists|j: int| 0 <= j < i && #[trigger] sources[j] == s {
        Some(RequestProblem::RepeatedSource)
    } else {
        None
    }
}

/// The first problem among the first `n` sources, checked in order.
pub open spec fn first_source_problem(sources: Seq<(Seq<char>, Seq<char>)>, n: int) -> Option<RequestProblem>
    decreases n,
{
    if n <= 0 {
        None
    } else {
        match first_source_problem(sources, n - 1) {
            Some(p) => Some(p),
            None => source_problem(sources, n - 1),
        }
    }
}

pub proof fn lemma_first_problem_sticks(sources: Seq<(Seq<char>, Seq<char>)>, i: int, n: int)
    requires
        0 <= i < n,
        first_source_problem(sources, i) is None,
        source_problem(sources, i) is Some,
    ensures
        first_source_problem(sources, n) == source_problem(sources, i),
    decreases n - i,
{
    if n > i + 1 {
        lemma_first_problem_sticks(sources, i, n - 1);
    }
}

pub open spec fn destination_ok(d: DirectoryRefDto) -> bool {
    &&& reference_text_ok(d.id@)
    &&& reference_text_ok(d.location_id@)
    &&& utf8_len(d.name@) <= 1024
    &&& utf8_len(d.display_path@) <= 4096
}

/// The first problem with a request: the number of sources, then each source in turn, then
/// a move's destination.
pub open spec fn request_problem(request: FileOperationRequestDto) -> Option<RequestProblem> {
    let sources = entry_views(request.sources@);
    if sources.len() == 0 || sources.len() > MAX_OPERATION_SOURCES {
        Some(RequestProblem::SourceCount)
    } else if request.action is Rename && sources.len() != 1 {
        Some(RequestProblem::RenameCount)
    } else if first_source_problem(sources, sources.len() as int) is Some {
        first_source_problem(sources, sources.len() as int)
    } else {
        match request.action {
            FileOperationActionDto::Move { destination } => if destination_ok(destination) {
                None
            } else {
                Some(RequestProblem::InvalidDestination)
            },
            _ => None,
        }
    }
}

fn text_ok(s: &String) -> (r: bool)
    ensures
        r == reference_text_ok(s@),
{
    let n = s.as_str().as_bytes().len();
    n >= 1 && n <= 256
}

/// Checks the selection and destination of a request before anything is touched.
pub fn validate_request(request: &FileOperationRequestDto) -> (r: Result<(), ExplorerError>)
    ensures
        match request_problem(*request) {
            Some(p) => r is Err && problem_error(p, r->Err_0),
            None => r is Ok,
        },
{
    let n = request.sources.len();
    let ghost sources = entry_views(request.sources@);
    assert(sources.len() == n);
    if n == 0 || n > MAX_OPERATION_SOURCES {
        return Err(ExplorerError::InvalidConfiguration(
            "Filesystem actions require between 1 and 1000 selected items.".to_owned(),
        ));
    }
    let is_rename = match &request.action {
        FileOperationActionDto::Rename { .. } => true,
        _ => false,
    };
    if is_rename && n != 1 {
        return Err(ExplorerError::InvalidConfiguration("Rename requires exactly one selected item.".to_owned()));
    }
    let first_location = &request.sources[0].location_id;
    let mut i: usize = 0;
    while i < n
        invariant
            0 < n <= MAX_OPERATION_SOURCES,
            n == request.sources.len(),
            i <= n,
            sources == entry_views(request.sources@),
            sources.len() == n,
            !(request.action is Rename && n != 1),
            first_location@ == sources[0].1,
            first_source_problem(sources, i as int) is None,
        decreases n - i,
    {
        let source = &request.sources[i];
        assert(sources[i as int] == entry_view(*source));
        if !text_ok(&source.id) || !text_ok(&source.location_id) {
            proof {
                lemma_first_problem_sticks(sources, i as int, n as int);
            }
            return Err(ExplorerError::InvalidReference);
        }
        if !str_eq(source.location_id.as_str(), first_location.as_str()) {
            proof {
                lemma_first_problem_sticks(sources, i as int, n as int);
            }
            return Err(ExplorerError::InvalidConfiguration(
                "A batch filesystem action must use items from one location.".to_owned(),
            ));
        }
        let mut j: usize = 0;
        while j < i
            invariant
                j <= i < n,
                n == request.sources.len(),
                sources == entry_views(request.sources@),
                source == &request.sources@[i as int],
                sources.len() == n,
                0 < n <= MAX_OPERATION_SOURCES,
                !(request.action is Rename && n != 1),
                first_source_problem(sources, i as int) is None,
                reference_text_ok(sources[i as int].0),
                reference_text_ok(sources[i as int].1),
                sources[i as int].1 == sources[0].1,
                forall|m: int| 0 <= m < j ==> sources[m] != sources[i as int],
            decreases i - j,
        {
            let other = &request.sources[j];
            assert(sources[j as int] == entry_view(*other));
            if str_eq(other.location_id.as_str(), source.location_id.as_str()) && str_eq(other.id.as_str(), source.id.as_str()) {
                assert(sources[j as int] == sources[i as int]);
                proof {
                    lemma_first_problem_sticks(sources, i as int, n as int);
                }
                return Err(ExplorerError::InvalidConfiguration(
                    "A selected item can appear only once in a filesystem action.".to_owned(),
                ));
            }
            j = j + 1;
        }
        i = i + 1;
    }
    if let FileOperationActionDto::Move { destination } = &request.action {
        if !text_ok(&destination.id) || !text_ok(&destination.location_id)
            || destination.name.as_str().as_bytes().len() > 1024
            || destination.display_path.as_str().as_bytes().len() > 4096 {
            return Err(ExplorerError::InvalidReference);
        }
    }
    Ok(())
}

/// Whether a failed item ends a batch. Failures that concern only that item (a bad or
/// stale reference, a name, a conflict, a changed source, an I/O error, an unsupported
/// item) let the batch go on; anything else stops it.
pub open spec fn stops_batch(error: ExplorerError) -> bool {
    !(error matches ExplorerError::InvalidReference || error matches ExplorerError::InvalidName(_)
        || error matches ExplorerError::Conflict || error matches ExplorerError::SourceChanged
        || error matches ExplorerError::Io { .. } || error matches ExplorerError::Unsupported(_))
}

pub fn should_stop_batch(error: &ExplorerError) -> (r: bool)
    ensures
        r == stops_batch(*error),
{
    match error {
        ExplorerError::InvalidReference | ExplorerError::InvalidName(_) | ExplorerError::Conflict
        | ExplorerError::SourceChanged | ExplorerError::Io { .. } | ExplorerError::Unsupported(_) => false,
        _ => true,
    }
}

/// The failures that concern only their item never stop a batch, whatever they carry: a
/// bad or stale reference, an invalid name, a conflict, a source that changed, an I/O
/// error or an unsupported item; every other failure stops it.
pub proof fn lemma_item_failures_continue(error: ExplorerError)
    ensures
        (error is InvalidReference || error is InvalidName || error is Conflict || error is SourceChanged || error is Io
            || error is Unsupported) <==> !stops_batch(error),
        stops_batch(ExplorerError::Cancelled),
        stops_batch(ExplorerError::ChannelClosed),
        stops_batch(ExplorerError::StateUnavailable),
{
}

/// The message of a batch that completed only some of its items.
pub open spec fn partial_message(successful: nat, total: nat) -> Seq<char> {
    "Explora completed "@ + decimal(successful) + " of "@ + decimal(total)
        + " selected items. Review the item results before retrying."@
}

pub fn partial_batch_error(successful: usize, total: usize) -> (r: ExplorerErrorDto)
    ensures
        r.code == ExplorerErrorCode::PartialCompletion,
        r.message@ == partial_message(successful as nat, total as nat),
{
    let s = decimal_string(successful as u64);
    let t = decimal_string(total as u64);
    let message = "Explora completed ".to_owned().concat(s.as_str()).concat(" of ").concat(t.as_str()).concat(
        " selected items. Review the item results before retrying.",
    );
    ExplorerErrorDto { code: ExplorerErrorCode::PartialCompletion, message }
}

pub fn batch_outcome(status: FileOperationBatchStatusDto, items: Vec<FileOperationBatchItemDto>) -> (r: FileOperationOutcomeDto)
    ensures
        r == (FileOperationOutcomeDto::Batch { status, items }),
{
    FileOperationOutcomeDto::Batch { status, items }
}

/// The source that a batch item reports on.
pub open spec fn item_source(item: FileOperationBatchItemDto) -> (Seq<char>, Seq<char>) {
    match item {
        FileOperationBatchItemDto::Completed { source, .. } => entry_view(source),
        FileOperationBatchItemDto::Failed { source, .. } => entry_view(source),
        FileOperationBatchItemDto::Cancelled { source } => entry_view(source),
        FileOperationBatchItemDto::NotStarted { source } => entry_view(source),
    }
}

/// `items` followed by one not-started item for each source from `next` on.
pub open spec fn with_not_started(
    items: Seq<FileOperationBatchItemDto>,
    sources: Seq<EntryRefDto>,
    next: int,
    r: Seq<FileOperationBatchItemDto>,
) -> bool {
    let start = if next < sources.len() { next } else { sources.len() as int };
    &&& r.len() == items.len() + (sources.len() - start)
    &&& r.take(items.len() as int) == items
    &&& forall|j: int| items.len() <= j < r.len() ==> (#[trigger] r[j]) is NotStarted
        && item_source(r[j]) == entry_view(sources[start + j - items.len()])
}

fn append_not_started(items: &mut Vec<FileOperationBatchItemDto>, sources: &Vec<EntryRefDto>, next: usize)
    ensures
        with_not_started(old(items)@, sources@, next as int, final(items)@),
{
    let ghost before = items@;
    let mut k = next;
    if k > sources.len() {
        k = sources.len();
    }
    let start = k;
    while k < sources.len()
        invariant
            start <= k <= sources.len(),
            start == (if next < sources.len() { next as int } else { sources.len() as int }),
            items@.len() == before.len() + (k - start),
            items@.take(before.len() as int) == before,
            forall|j: int| before.len() <= j < items@.len() ==> (#[trigger] items@[j]) is NotStarted
                && item_source(items@[j]) == entry_view(sources@[start + j - before.len()]),
        decreases sources.len() - k,
    {
        let source = copy_entry(&sources[k]);
        let ghost prev = items@;
        items.push(FileOperationBatchItemDto::NotStarted { source });
        assert(items@.take(before.len() as int) =~= prev.take(before.len() as int));
        k = k + 1;
    }
}

/// A cancelled batch: the items so far, then the sources that were never started.
pub fn cancelled_batch_outcome(sources: &Vec<EntryRefDto>, items: Vec<FileOperationBatchItemDto>, next_index: usize) -> (r: FileOperationOutcomeDto)
    ensures
        r matches FileOperationOutcomeDto::Batch { status, items: all } && status == FileOperationBatchStatusDto::Cancelled
            && with_not_started(items@, sources@, next_index as int, all@),
{
    let mut items = items;
    append_not_started(&mut items, sources, next_index);
    batch_outcome(FileOperationBatchStatusDto::Cancelled, items)
}

/// A batch that stopped on a failure: partial, with the sources never started listed; the
/// error is the partial-completion error once anything succeeded.
pub fn failed_batch_terminal(
    sources: &Vec<EntryRefDto>,
    items: Vec<FileOperationBatchItemDto>,
    next_index: usize,
    successful: usize,
    error: ExplorerErrorDto,
) -> (r: OperationTerminal)
    ensures
        r matches OperationTerminal::Failed { error: e, outcome: Some(FileOperationOutcomeDto::Batch { status, items: all }) }
            && status == FileOperationBatchStatusDto::Partial
            && with_not_started(items@, sources@, next_index as int, all@)
            && if successful > 0 {
                e.code == ExplorerErrorCode::PartialCompletion && e.message@ == partial_message(successful as nat, sources@.len())
            } else {
                e == error
            },
{
    let mut items = items;
    append_not_started(&mut items, sources, next_index);
    let total = sources.len();
    let terminal_error = if successful > 0 {
        partial_batch_error(successful, total)
    } else {
        error
    };
    OperationTerminal::Failed {
        error: terminal_error,
        outcome: Some(batch_outcome(FileOperationBatchStatusDto::Partial, items)),
    }
}

/// A batch that ran every item: completed if none failed, otherwise partial.
pub fn completed_batch_terminal(items: Vec<FileOperationBatchItemDto>, successful: usize, failures: usize, total: usize) -> (r: OperationTerminal)
    ensures
        failures == 0 ==> r == OperationTerminal::Completed(FileOperationOutcomeDto::Batch { status: FileOperationBatchStatusDto::Completed, items }),
        failures > 0 ==> (r matches OperationTerminal::Failed { error: e, outcome: Some(o) }
            && e.code == ExplorerErrorCode::PartialCompletion && e.message@ == partial_message(successful as nat, total as nat)
            && o == (FileOperationOutcomeDto::Batch { status: FileOperationBatchStatusDto::Partial, items })),
{
    if failures == 0 {
        OperationTerminal::Completed(batch_outcome(FileOperationBatchStatusDto::Completed, items))
    } else {
        OperationTerminal::Failed {
            error: partial_batch_error(successful, total),
            outcome: Some(batch_outcome(FileOperationBatchStatusDto::Partial, items)),
        }
    }
}

/// The terminal that a single operation's result leads to: a cancellation is cancelled
/// without an outcome, any other error fails with its IPC form.
pub fn terminal_from_result(result: Result<FileOperationOutcomeDto, ExplorerError>) -> (r: OperationTerminal)
    ensures
        match result {
            Ok(o) => r == OperationTerminal::Completed(o),
            Err(ExplorerError::Cancelled) => r == OperationTerminal::Cancelled(None),
            Err(e) => r matches OperationTerminal::Failed { error: d, outcome: None }
                && d.code == crate::filesystem::error_code(e) && d.message@ == crate::filesystem::error_message(e),
        },
{
    match result {
        Ok(outcome) => OperationTerminal::Completed(outcome),
        Err(ExplorerError::Cancelled) => OperationTerminal::Cancelled(None),
        Err(error) => OperationTerminal::Failed { error: ExplorerErrorDto::from(error), outcome: None },
    }
}

/// Two actions that do the same thing.
pub open spec fn same_action(a: FileOperationActionDto, b: FileOperationActionDto) -> bool {
    match (a, b) {
        (FileOperationActionDto::Rename { new_name: x }, FileOperationActionDto::Rename { new_name: y }) => x@ == y@,
        (FileOperationActionDto::Move { destination: x }, FileOperationActionDto::Move { destination: y }) =>
            x.id@ == y.id@ && x.location_id@ == y.location_id@ && x.name@ == y.name@ && x.display_path@ == y.display_path@,
        (FileOperationActionDto::Trash {}, FileOperationActionDto::Trash {}) => true,
        (FileOperationActionDto::DeletePermanently {}, FileOperationActionDto::DeletePermanently {}) => true,
        _ => false,
    }
}

/// One source under the request's action.
pub fn single_source_request(request: &FileOperationRequestDto, source: EntryRefDto) -> (r: FileOperationRequestDto)
    ensures
        r.sources@.len() == 1,
        entry_view(r.sources@[0]) == entry_view(source),
        same_action(r.action, request.action),
{
    let action = match &request.action {
        FileOperationActionDto::Rename { new_name } => FileOperationActionDto::Rename { new_name: new_name.clone() },
        FileOperationActionDto::Move { destination } => FileOperationActionDto::Move {
            destination: DirectoryRefDto {
                id: destination.id.clone(),
                location_id: destination.location_id.clone(),
                name: destination.name.clone(),
                display_path: destination.display_path.clone(),
            },
        },
        FileOperationActionDto::Trash {} => FileOperationActionDto::Trash {},
        FileOperationActionDto::DeletePermanently {} => FileOperationActionDto::DeletePermanently {},
    };
    let sources = vec![source];
    FileOperationRequestDto { sources, action }
}

pub open spec fn char_is(c: char) -> spec_fn(char) -> bool {
    |x: char| x == c
}

/// The pieces of `s` between the characters `c`, empty pieces included.
pub open spec fn split_on(s: Seq<char>, c: char) -> Seq<Seq<char>>
    decreases s.len(),
{
    let k = first_where(s, char_is(c));
    proof {
        crate::config_text::lemma_first_where_bound(s, char_is(c));
    }
    if k >= s.len() {
        seq![s]
    } else {
        seq![s.take(k as int)] + split_on(s.skip(k as int + 1), c)
    }
}

/// A component of a relative remote path that may be recreated locally.
pub open spec fn safe_component(c: Seq<char>) -> bool {
    c.len() > 0 && c != "."@ && c != ".."@ && !contains_char(c, '\0')
}

/// The local components of a relative remote path: none for the empty path, otherwise its
/// `/`-separated components, all of which must be safe.
pub open spec fn relative_components(path: Seq<char>) -> Option<Seq<Seq<char>>> {
    if path.len() == 0 {
        Some(Seq::empty())
    } else if forall|i: int| 0 <= i < split_on(path, '/').len() ==> safe_component(#[trigger] split_on(path, '/')[i]) {
        Some(split_on(path, '/'))
    } else {
        None
    }
}

fn component_ok(c: &Vec<char>) -> (r: bool)
    ensures
        r == safe_component(c@),
{
    if c.len() == 0 {
        return false;
    }
    if c.len() == 1 && c[0] == '.' {
        assert(c@ =~= "."@) by {
            reveal_strlit(".");
        }
        return false;
    }
    if c.len() == 2 && c[0] == '.' && c[1] == '.' {
        assert(c@ =~= ".."@) by {
            reveal_strlit("..");
        }
        return false;
    }
    proof {
        reveal_strlit(".");
        reveal_strlit("..");
        if c@ == "."@ {
            assert(c@.len() == 1);
        }
        if c@ == ".."@ {
            assert(c@.len() == 2);
        }
    }
    !has_char(c, '\0')
}

/// The components under which a relative remote path is recreated locally.
#[verifier::rlimit(40)]
#[verifier::spinoff_prover]
pub fn remote_relative_to_local(relative_path: &str) -> (r: Result<Vec<String>, ExplorerError>)
    ensures
        match relative_components(relative_path@) {
            Some(parts) => r is Ok && crate::text::views(r->Ok_0@) == parts,
            None => r == Err::<Vec<String>, ExplorerError>(ExplorerError::InvalidReference),
        },
{
    let chars = chars_of(relative_path);
    if chars.len() == 0 {
        let r: Vec<String> = Vec::new();
        assert(crate::text::views(r@) =~= Seq::<Seq<char>>::empty());
        return Ok(r);
    }
    let ghost s = chars@;
    let mut out: Vec<String> = Vec::new();
    let mut start: usize = 0;
    let mut done = false;
    assert(s.skip(0) =~= s);
    while !done
        invariant
            s == chars@,
            s == relative_path@,
            s.len() > 0,
            start <= s.len(),
            !done ==> split_on(s, '/') == crate::text::views(out@) + split_on(s.skip(start as int), '/'),
            done ==> split_on(s, '/') == crate::text::views(out@),
            forall|i: int| 0 <= i < out@.len() ==> safe_component(#[trigger] crate::text::views(out@)[i]),
        decreases s.len() - start, if done { 0int } else { 1int },
    {
        let ghost t = s.skip(start as int);
        let mut k = start;
        while k < chars.len() && chars[k] != '/'
            invariant
                start <= k <= chars.len(),
                s == chars@,
                t == s.skip(start as int),
                forall|m: int| 0 <= m < k - start ==> !char_is('/')(#[trigger] t[m]),
            decreases chars.len() - k,
        {
            k = k + 1;
        }
        proof {
            crate::config_text::lemma_first_where_is(t, char_is('/'), k - start);
            if k < chars.len() {
                assert(split_on(t, '/') == seq![t.take(k - start)] + split_on(t.skip(k - start + 1), '/'));
            } else {
                assert(split_on(t, '/') == seq![t]);
            }
        }
        let piece = crate::config_text::chars_range(&chars, start, k);
        assert(piece@ =~= t.take(k - start));
        if !component_ok(&piece) {
            proof {
                let all = split_on(s, '/');
                let idx = out@.len() as int;
                assert(split_on(t, '/')[0] == piece@);
                assert(all[idx] == piece@);
            }
            return Err(ExplorerError::InvalidReference);
        }
        let text = crate::text::string_from_chars(&piece);
        let ghost prev = out@;
        out.push(text);
        assert(crate::text::views(out@) =~= crate::text::views(prev).push(piece@));
        if k == chars.len() {
            assert(t.take(k - start) =~= t);
            assert(crate::text::views(prev) + split_on(t, '/') =~= crate::text::views(out@));
            done = true;
        } else {
            assert(t.skip(k - start + 1) =~= s.skip(k + 1));
            assert(crate::text::views(prev) + split_on(t, '/') =~= crate::text::views(out@) + split_on(s.skip(k + 1), '/'));
            start = k + 1;
        }
    }
    Ok(out)
}

/// A local entry after a move.
pub struct MovedLocalEntry {
    pub entry: FileEntrySummaryDto,
    pub source_parent: DirectoryRefDto,
    pub destination: DirectoryRefDto,
    pub rebased_entry_ids: Vec<String>,
}

/// A remote entry after a move.
pub struct MovedRemoteEntry {
    pub entry: FileEntrySummaryDto,
    pub source_parent: DirectoryRefDto,
    pub destination: DirectoryRefDto,
    pub rebased_entry_ids: Vec<String>,
}

/// An entry copied across locations and removed at its source.
pub struct TransferredLocalEntry {
    pub entry: FileEntrySummaryDto,
    pub source_parent: DirectoryRefDto,
    pub destination: DirectoryRefDto,
    pub invalidated_entry_ids: Vec<String>,
}

/// A local entry that was trashed or deleted.
pub struct RemovedLocalEntry {
    pub reference: EntryRefDto,
    pub name: String,
    pub invalidated_entry_ids: Vec<String>,
}

/// A remote entry that was deleted.
pub struct RemovedRemoteEntry {
    pub reference: EntryRefDto,
    pub name: String,
    pub invalidated_entry_ids: Vec<String>,
}

pub fn moved_outcome(entry: MovedLocalEntry) -> (r: FileOperationOutcomeDto)
    ensures
        r == (FileOperationOutcomeDto::Moved {
            entry: Box::new(entry.entry),
            source_parent: entry.source_parent,
            destination: entry.destination,
            rebased_entry_ids: entry.rebased_entry_ids,
            invalidated_entry_ids: r->Moved_invalidated_entry_ids,
        }),
        r->Moved_invalidated_entry_ids@.len() == 0,
{
    FileOperationOutcomeDto::Moved {
        entry: Box::new(entry.entry),
        source_parent: entry.source_parent,
        destination: entry.destination,
        rebased_entry_ids: entry.rebased_entry_ids,
        invalidated_entry_ids: Vec::new(),
    }
}

pub fn moved_remote_outcome(entry: MovedRemoteEntry) -> (r: FileOperationOutcomeDto)
    ensures
        r == (FileOperationOutcomeDto::Moved {
            entry: Box::new(entry.entry),
            source_parent: entry.source_parent,
            destination: entry.destination,
            rebased_entry_ids: entry.rebased_entry_ids,
            invalidated_entry_ids: r->Moved_invalidated_entry_ids,
        }),
        r->Moved_invalidated_entry_ids@.len() == 0,
{
    FileOperationOutcomeDto::Moved {
        entry: Box::new(entry.entry),
        source_parent: entry.source_parent,
        destination: entry.destination,
        rebased_entry_ids: entry.rebased_entry_ids,
        invalidated_entry_ids: Vec::new(),
    }
}

pub fn transferred_local_outcome(entry: TransferredLocalEntry) -> (r: FileOperationOutcomeDto)
    ensures
        r == (FileOperationOutcomeDto::Moved {
            entry: Box::new(entry.entry),
            source_parent: entry.source_parent,
            destination: entry.destination,
            rebased_entry_ids: r->Moved_rebased_entry_ids,
            invalidated_entry_ids: entry.invalidated_entry_ids,
        }),
        r->Moved_rebased_entry_ids@.len() == 0,
{
    FileOperationOutcomeDto::Moved {
        entry: Box::new(entry.entry),
        source_parent: entry.source_parent,
        destination: entry.destination,
        rebased_entry_ids: Vec::new(),
        invalidated_entry_ids: entry.invalidated_entry_ids,
    }
}

pub fn trashed_outcome(entry: RemovedLocalEntry) -> (r: FileOperationOutcomeDto)
    ensures
        r == (FileOperationOutcomeDto::Trashed {
            entry: entry.reference,
            name: entry.name,
            invalidated_entry_ids: entry.invalidated_entry_ids,
        }),
{
    FileOperationOutcomeDto::Trashed { entry: entry.reference, name: entry.name, invalidated_entry_ids: entry.invalidated_entry_ids }
}

pub fn deleted_outcome(entry: RemovedLocalEntry) -> (r: FileOperationOutcomeDto)
    ensures
        r == (FileOperationOutcomeDto::DeletedPermanently {
            entry: entry.reference,
            name: entry.name,
            invalidated_entry_ids: entry.invalidated_entry_ids,
        }),
{
    FileOperationOutcomeDto::DeletedPermanently {
        entry: entry.reference,
        name: entry.name,
        invalidated_entry_ids: entry.invalidated_entry_ids,
    }
}

pub fn deleted_remote_outcome(entry: RemovedRemoteEntry) -> (r: FileOperationOutcomeDto)
    ensures
        r == (FileOperationOutcomeDto::DeletedPermanently {
            entry: entry.reference,
            name: entry.name,
            invalidated_entry_ids: entry.invalidated_entry_ids,
        }),
{
    FileOperationOutcomeDto::DeletedPermanently {
        entry: entry.reference,
        name: entry.name,
        invalidated_entry_ids: entry.invalidated_entry_ids,
    }
}

/// The progress that an event reports.
pub struct EventHeader {
    pub operation_id: Seq<char>,
    pub sequence: u64,
    pub action: FileOperationKindDto,
    pub completed_items: u64,
    pub total_items: u64,
    pub completed_bytes: Option<Seq<char>>,
    pub total_bytes: Option<Seq<char>>,
    pub current_item_completed: Option<u64>,
    pub current_item_total: Option<u64>,
}

pub open spec fn opt_text(o: Option<String>) -> Option<Seq<char>> {
    match o {
        Some(s) => Some(s@),
        None => None,
    }
}

pub open spec fn opt_decimal(o: Option<u64>) -> Option<Seq<char>> {
    match o {
        Some(v) => Some(decimal(v as nat)),
        None => None,
    }
}

pub open spec fn header(e: FileOperationEventDto) -> EventHeader {
    match e {
        FileOperationEventDto::Queued { operation_id, sequence, action, completed_items, total_items, completed_bytes,
            total_bytes, current_item_completed, current_item_total } => EventHeader { operation_id: operation_id@,
            sequence, action, completed_items, total_items, completed_bytes: opt_text(completed_bytes),
            total_bytes: opt_text(total_bytes), current_item_completed, current_item_total },
        FileOperationEventDto::Running { operation_id, sequence, action, completed_items, total_items, completed_bytes,
            total_bytes, current_item_completed, current_item_total } => EventHeader { operation_id: operation_id@,
            sequence, action, completed_items, total_items, completed_bytes: opt_text(completed_bytes),
            total_bytes: opt_text(total_bytes), current_item_completed, current_item_total },
        FileOperationEventDto::AwaitingConfirmation { operation_id, sequence, action, completed_items, total_items,
            completed_bytes, total_bytes, current_item_completed, current_item_total, .. } => EventHeader {
            operation_id: operation_id@, sequence, action, completed_items, total_items,
            completed_bytes: opt_text(completed_bytes), total_bytes: opt_text(total_bytes), current_item_completed,
            current_item_total },
        FileOperationEventDto::AwaitingConflict { operation_id, sequence, action, completed_items, total_items,
            completed_bytes, total_bytes, current_item_completed, current_item_total, .. } => EventHeader {
            operation_id: operation_id@, sequence, action, completed_items, total_items,
            completed_bytes: opt_text(completed_bytes), total_bytes: opt_text(total_bytes), current_item_completed,
            current_item_total },
        FileOperationEventDto::Completed { operation_id, sequence, action, completed_items, total_items,
            completed_bytes, total_bytes, current_item_completed, current_item_total, .. } => EventHeader {
            operation_id: operation_id@, sequence, action, completed_items, total_items,
            completed_bytes: opt_text(completed_bytes), total_bytes: opt_text(total_bytes), current_item_completed,
            current_item_total },
        FileOperationEventDto::Cancelled { operation_id, sequence, action, completed_items, total_items,
            completed_bytes, total_bytes, current_item_completed, current_item_total, .. } => EventHeader {
            operation_id: operation_id@, sequence, action, completed_items, total_items,
            completed_bytes: opt_text(completed_bytes), total_bytes: opt_text(total_bytes), current_item_completed,
            current_item_total },
        FileOperationEventDto::Failed { operation_id, sequence, action, completed_items, total_items,
            completed_bytes, total_bytes, current_item_completed, current_item_total, .. } => EventHeader {
            operation_id: operation_id@, sequence, action, completed_items, total_items,
            completed_bytes: opt_text(completed_bytes), total_bytes: opt_text(total_bytes), current_item_completed,
            current_item_total },
    }
}

/// The first event of an operation: queued, with sequence number zero and nothing done.
pub fn queued_event(operation_id: &str, action: FileOperationKindDto, total_items: u64) -> (r: FileOperationEventDto)
    ensures
        r is Queued,
        header(r) == (EventHeader { operation_id: operation_id@, sequence: 0, action, completed_items: 0, total_items,
            completed_bytes: None, total_bytes: None, current_item_completed: None, current_item_total: None }),
{
    FileOperationEventDto::Queued {
        operation_id: operation_id.to_owned(),
        sequence: 0,
        action,
        completed_items: 0,
        total_items,
        completed_bytes: None,
        total_bytes: None,
        current_item_completed: None,
        current_item_total: None,
    }
}

/// The progress of one running operation, from which its events are made.
pub struct OperationEventEmitter {
    operation_id: String,
    action: FileOperationKindDto,
    sequence: u64,
    completed_items: u64,
    total_items: u64,
    completed_bytes: Option<u64>,
    total_bytes: Option<u64>,
    current_item_completed: Option<u64>,
    current_item_total: Option<u64>,
}

pub struct EmitterView {
    pub operation_id: Seq<char>,
    pub action: FileOperationKindDto,
    pub sequence: u64,
    pub completed_items: u64,
    pub total_items: u64,
    pub completed_bytes: Option<u64>,
    pub total_bytes: Option<u64>,
    pub current_item_completed: Option<u64>,
    pub current_item_total: Option<u64>,
}

impl View for OperationEventEmitter {
    type V = EmitterView;

    closed spec fn view(&self) -> EmitterView {
        EmitterView {
            operation_id: self.operation_id@,
            action: self.action,
            sequence: self.sequence,
            completed_items: self.completed_items,
            total_items: self.total_items,
            completed_bytes: self.completed_bytes,
            total_bytes: self.total_bytes,
            current_item_completed: self.current_item_completed,
            current_item_total: self.current_item_total,
        }
    }
}

/// Progress never runs ahead of its total.
pub open spec fn emitter_wf(v: EmitterView) -> bool {
    &&& v.completed_items <= v.total_items
    &&& v.completed_bytes is Some == v.total_bytes is Some
    &&& (v.completed_bytes is Some ==> v.completed_bytes->0 <= v.total_bytes->0)
    &&& v.current_item_completed is Some == v.current_item_total is Some
    &&& (v.current_item_completed is Some ==> v.current_item_completed->0 <= v.current_item_total->0)
}

/// The header of the next event from this progress.
pub open spec fn state_header(v: EmitterView) -> EventHeader {
    EventHeader {
        operation_id: v.operation_id,
        sequence: v.sequence,
        action: v.action,
        completed_items: v.completed_items,
        total_items: v.total_items,
        completed_bytes: opt_decimal(v.completed_bytes),
        total_bytes: opt_decimal(v.total_bytes),
        current_item_completed: v.current_item_completed,
        current_item_total: v.current_item_total,
    }
}

/// The progress after one more event: the sequence number moves on, stopping at its maximum.
pub open spec fn advanced(v: EmitterView) -> EmitterView {
    EmitterView { sequence: if v.sequence < u64::MAX { (v.sequence + 1) as u64 } else { v.sequence }, ..v }
}

/// The progress at the start of an item: no byte or sub-item progress yet.
pub open spec fn item_begun(v: EmitterView) -> EmitterView {
    EmitterView { completed_bytes: None, total_bytes: None, current_item_completed: None, current_item_total: None, ..v }
}

fn opt_decimal_string(o: Option<u64>) -> (r: Option<String>)
    ensures
        opt_text(r) == opt_decimal(o),
{
    match o {
        Some(v) => Some(decimal_string(v)),
        None => None,
    }
}

impl OperationEventEmitter {
    /// Progress for an operation whose queued event (sequence zero) was sent.
    pub fn new(operation_id: String, action: FileOperationKindDto, total_items: u64) -> (r: OperationEventEmitter)
        ensures
            r@ == (EmitterView { operation_id: operation_id@, action, sequence: 1, completed_items: 0, total_items,
                completed_bytes: None, total_bytes: None, current_item_completed: None, current_item_total: None }),
            emitter_wf(r@),
    {
        OperationEventEmitter {
            operation_id,
            action,
            sequence: 1,
            completed_items: 0,
            total_items,
            completed_bytes: None,
            total_bytes: None,
            current_item_completed: None,
            current_item_total: None,
        }
    }

    fn next_sequence(&mut self) -> (r: u64)
        ensures
            r == old(self)@.sequence,
            final(self)@ == advanced(old(self)@),
    {
        let sequence = self.sequence;
        self.sequence = self.sequence.saturating_add(1);
        sequence
    }

    /// A running event with the current progress.
    pub fn running(&mut self) -> (r: FileOperationEventDto)
        ensures
            r is Running,
            header(r) == state_header(old(self)@),
            final(self)@ == advanced(old(self)@),
    {
        let sequence = self.next_sequence();
        FileOperationEventDto::Running {
            operation_id: self.operation_id.clone(),
            sequence,
            action: self.action,
            completed_items: self.completed_items,
            total_items: self.total_items,
            completed_bytes: opt_decimal_string(self.completed_bytes),
            total_bytes: opt_decimal_string(self.total_bytes),
            current_item_completed: self.current_item_completed,
            current_item_total: self.current_item_total,
        }
    }

    /// An event that asks the user to confirm.
    pub fn awaiting_confirmation(&mut self, prompt: FileOperationPromptDto) -> (r: FileOperationEventDto)
        ensures
            r matches FileOperationEventDto::AwaitingConfirmation { prompt: p, .. } && p == prompt,
            header(r) == state_header(old(self)@),
            final(self)@ == advanced(old(self)@),
    {
        let sequence = self.next_sequence();
        FileOperationEventDto::AwaitingConfirmation {
            operation_id: self.operation_id.clone(),
            sequence,
            action: self.action,
            completed_items: self.completed_items,
            total_items: self.total_items,
            completed_bytes: opt_decimal_string(self.completed_bytes),
            total_bytes: opt_decimal_string(self.total_bytes),
            current_item_completed: self.current_item_completed,
            current_item_total: self.current_item_total,
            prompt,
        }
    }

    /// An event that asks the user to resolve a conflict.
    pub fn awaiting_conflict(&mut self, prompt: FileOperationPromptDto) -> (r: FileOperationEventDto)
        ensures
            r matches FileOperationEventDto::AwaitingConflict { prompt: p, .. } && p == prompt,
            header(r) == state_header(old(self)@),
            final(self)@ == advanced(old(self)@),
    {
        let sequence = self.next_sequence();
        FileOperationEventDto::AwaitingConflict {
            operation_id: self.operation_id.clone(),
            sequence,
            action: self.action,
            completed_items: self.completed_items,
            total_items: self.total_items,
            completed_bytes: opt_decimal_string(self.completed_bytes),
            total_bytes: opt_decimal_string(self.total_bytes),
            current_item_completed: self.current_item_completed,
            current_item_total: self.current_item_total,
            prompt,
        }
    }

    /// Records progress within the current item and reports it; progress beyond its total is
    /// refused.
    pub fn progress(&mut self, completed_items: u64, total_items: u64) -> (r: Result<FileOperationEventDto, ExplorerError>)
        requires
            emitter_wf(old(self)@),
        ensures
            emitter_wf(final(self)@),
            total_items == 0 || completed_items > total_items ==> r == Err::<FileOperationEventDto, ExplorerError>(
                ExplorerError::StateUnavailable) && final(self)@ == old(self)@,
            !(total_items == 0 || completed_items > total_items) ==> ({
                let v = EmitterView { current_item_completed: Some(completed_items), current_item_total: Some(total_items), ..old(self)@ };
                &&& r is Ok && r->Ok_0 is Running
                &&& header(r->Ok_0) == state_header(v)
                &&& final(self)@ == advanced(v)
            }),
    {
        if total_items == 0 || completed_items > total_items {
            return Err(ExplorerError::StateUnavailable);
        }
        self.current_item_completed = Some(completed_items);
        self.current_item_total = Some(total_items);
        Ok(self.running())
    }

    /// Clears the byte and sub-item progress of the previous item.
    pub fn begin_item(&mut self)
        ensures
            final(self)@ == item_begun(old(self)@),
    {
        self.completed_bytes = None;
        self.total_bytes = None;
        self.current_item_completed = None;
        self.current_item_total = None;
    }

    /// Counts one more item as done; while items remain, the new progress is reported.
    pub fn settle_item(&mut self) -> (r: Result<Option<FileOperationEventDto>, ExplorerError>)
        requires
            emitter_wf(old(self)@),
        ensures
            emitter_wf(final(self)@),
            old(self)@.completed_items >= old(self)@.total_items ==> r == Err::<Option<FileOperationEventDto>, ExplorerError>(
                ExplorerError::StateUnavailable) && final(self)@ == old(self)@,
            old(self)@.completed_items < old(self)@.total_items ==> ({
                let v = item_begun(EmitterView { completed_items: (old(self)@.completed_items + 1) as u64, ..old(self)@ });
                &&& r is Ok
                &&& if v.completed_items < v.total_items {
                    r->Ok_0 is Some && r->Ok_0->0 is Running && header(r->Ok_0->0) == state_header(v) && final(self)@ == advanced(v)
                } else {
                    r->Ok_0 is None && final(self)@ == v
                }
            }),
    {
        if self.completed_items >= self.total_items {
            return Err(ExplorerError::StateUnavailable);
        }
        self.completed_items = self.completed_items + 1;
        self.begin_item();
        if self.completed_items < self.total_items {
            Ok(Some(self.running()))
        } else {
            Ok(None)
        }
    }

    /// Records and reports the bytes done of the current item; more bytes than the total
    /// are refused.
    pub fn byte_progress(&mut self, completed_bytes: u64, total_bytes: u64) -> (r: Result<FileOperationEventDto, ExplorerError>)
        requires
            emitter_wf(old(self)@),
        ensures
            emitter_wf(final(self)@),
            completed_bytes > total_bytes ==> r == Err::<FileOperationEventDto, ExplorerError>(ExplorerError::StateUnavailable)
                && final(self)@ == old(self)@,
            completed_bytes <= total_bytes ==> ({
                let v = EmitterView { completed_bytes: Some(completed_bytes), total_bytes: Some(total_bytes), ..old(self)@ };
                &&& r is Ok && r->Ok_0 is Running
                &&& header(r->Ok_0) == state_header(v)
                &&& final(self)@ == advanced(v)
            }),
    {
        if completed_bytes > total_bytes {
            return Err(ExplorerError::StateUnavailable);
        }
        self.completed_bytes = Some(completed_bytes);
        self.total_bytes = Some(total_bytes);
        Ok(self.running())
    }

    /// The final event. A completed operation reports everything done; a cancelled or
    /// failed one reports the progress it reached.
    pub fn terminal(&mut self, terminal: OperationTerminal) -> (r: FileOperationEventDto)
        ensures
            final(self)@ == advanced(old(self)@),
            match terminal {
                OperationTerminal::Completed(o) => r matches FileOperationEventDto::Completed { outcome, .. } && outcome == o
                    && header(r) == (EventHeader {
                        completed_items: old(self)@.total_items,
                        completed_bytes: opt_decimal(old(self)@.total_bytes),
                        current_item_completed: old(self)@.current_item_total,
                        ..state_header(old(self)@)
                    }),
                OperationTerminal::Cancelled(o) => r matches FileOperationEventDto::Cancelled { outcome, .. } && outcome == o
                    && header(r) == state_header(old(self)@),
                OperationTerminal::Failed { error, outcome: o } => r matches FileOperationEventDto::Failed { error: e, outcome, .. }
                    && e == error && outcome == o && header(r) == state_header(old(self)@),
            },
    {
        let sequence = self.next_sequence();
        match terminal {
            OperationTerminal::Completed(outcome) => FileOperationEventDto::Completed {
                operation_id: self.operation_id.clone(),
                sequence,
                action: self.action,
                completed_items: self.total_items,
                total_items: self.total_items,
                completed_bytes: opt_decimal_string(self.total_bytes),
                total_bytes: opt_decimal_string(self.total_bytes),
                current_item_completed: self.current_item_total,
                current_item_total: self.current_item_total,
                outcome,
            },
            OperationTerminal::Cancelled(outcome) => FileOperationEventDto::Cancelled {
                operation_id: self.operation_id.clone(),
                sequence,
                action: self.action,
                completed_items: self.completed_items,
                total_items: self.total_items,
                completed_bytes: opt_decimal_string(self.completed_bytes),
                total_bytes: opt_decimal_string(self.total_bytes),
                current_item_completed: self.current_item_completed,
                current_item_total: self.current_item_total,
                outcome,
            },
            OperationTerminal::Failed { error, outcome } => FileOperationEventDto::Failed {
                operation_id: self.operation_id.clone(),
                sequence,
                action: self.action,
                completed_items: self.completed_items,
                total_items: self.total_items,
                completed_bytes: opt_decimal_string(self.completed_bytes),
                total_bytes: opt_decimal_string(self.total_bytes),
                current_item_completed: self.current_item_completed,
                current_item_total: self.current_item_total,
                error,
                outcome,
            },
        }
    }
}

/// Each event of an operation carries a larger sequence number than the one before, until
/// the counter reaches its maximum, where it stays.
pub proof fn lemma_sequence_advances(v: EmitterView)
    ensures
        v.sequence < u64::MAX ==> advanced(v).sequence == v.sequence + 1,
        v.sequence == u64::MAX ==> advanced(v).sequence == v.sequence,
        advanced(v).completed_items == v.completed_items,
        emitter_wf(v) ==> emitter_wf(advanced(v)),
{
}

/// The decision an operation waits for: its id and the responses it accepts.
pub struct PendingPrompt {
    pub id: String,
    pub allowed_responses: Vec<FileOperationPromptResponseDto>,
}

/// The state of one operation that its requests may touch: whether it was cancelled and
/// the decision it waits for, if any.
pub struct ActiveOperation {
    cancelled: bool,
    prompt: Option<PendingPrompt>,
}

impl ActiveOperation {
    pub closed spec fn is_cancelled(&self) -> bool {
        self.cancelled
    }

    /// The pending decision as (id, accepted responses).
    pub closed spec fn pending(&self) -> Option<(Seq<char>, Seq<FileOperationPromptResponseDto>)> {
        match self.prompt {
            Some(p) => Some((p.id@, p.allowed_responses@)),
            None => None,
        }
    }

    pub fn new() -> (r: ActiveOperation)
        ensures
            !r.is_cancelled(),
            r.pending() is None,
    {
        ActiveOperation { cancelled: false, prompt: None }
    }

    pub fn cancel(&mut self)
        ensures
            final(self).is_cancelled(),
            final(self).pending() == old(self).pending(),
    {
        self.cancelled = true;
    }

    pub fn ensure_not_cancelled(&self) -> (r: Result<(), ExplorerError>)
        ensures
            r is Err <==> self.is_cancelled(),
            r is Err ==> r == Err::<(), ExplorerError>(ExplorerError::Cancelled),
    {
        if self.cancelled {
            Err(ExplorerError::Cancelled)
        } else {
            Ok(())
        }
    }

    /// Starts waiting for a decision; only one may be pending at a time.
    pub fn begin_prompt(&mut self, prompt_id: String, allowed_responses: Vec<FileOperationPromptResponseDto>) -> (r: Result<(), ExplorerError>)
        ensures
            final(self).is_cancelled() == old(self).is_cancelled(),
            old(self).pending() is Some ==> r == Err::<(), ExplorerError>(ExplorerError::StateUnavailable)
                && final(self).pending() == old(self).pending(),
            old(self).pending() is None ==> r is Ok && final(self).pending() == Some((prompt_id@, allowed_responses@)),
    {
        if self.prompt.is_some() {
            return Err(ExplorerError::StateUnavailable);
        }
        self.prompt = Some(PendingPrompt { id: prompt_id, allowed_responses });
        Ok(())
    }

    /// Accepts a response to the pending decision: it must name that decision and be one of
    /// its responses. An accepted response ends the wait; a refused one changes nothing.
    pub fn respond(&mut self, prompt_id: &str, response: FileOperationPromptResponseDto) -> (r: Result<FileOperationPromptResponseDto, ExplorerError>)
        ensures
            final(self).is_cancelled() == old(self).is_cancelled(),
            match old(self).pending() {
                Some((id, allowed)) => if id != prompt_id@ {
                    r == Err::<FileOperationPromptResponseDto, ExplorerError>(ExplorerError::InvalidReference)
                        && final(self).pending() == old(self).pending()
                } else if !allowed.contains(response) {
                    r is Err && (r->Err_0 matches ExplorerError::InvalidConfiguration(m)
                        && m@ == "That response is not available for this filesystem decision."@)
                        && final(self).pending() == old(self).pending()
                } else {
                    r == Ok::<FileOperationPromptResponseDto, ExplorerError>(response) && final(self).pending() is None
                },
                None => r == Err::<FileOperationPromptResponseDto, ExplorerError>(ExplorerError::InvalidReference)
                    && final(self).pending() is None,
            },
    {
        let matches = match &self.prompt {
            Some(p) => str_eq(p.id.as_str(), prompt_id),
            None => false,
        };
        if !matches {
            return Err(ExplorerError::InvalidReference);
        }
        let allowed = match &self.prompt {
            Some(p) => {
                let mut found = false;
                let mut i: usize = 0;
                while i < p.allowed_responses.len()
                    invariant
                        i <= p.allowed_responses.len(),
                        found <==> exists|j: int| 0 <= j < i && p.allowed_responses@[j] == response,
                    decreases p.allowed_responses.len() - i,
                {
                    if p.allowed_responses[i] == response {
                        found = true;
                    }
                    i = i + 1;
                }
                found
            },
            None => false,
        };
        if !allowed {
            return Err(ExplorerError::InvalidConfiguration(
                "That response is not available for this filesystem decision.".to_owned(),
            ));
        }
        self.prompt = None;
        Ok(response)
    }

    pub fn clear_prompt(&mut self)
        ensures
            final(self).is_cancelled() == old(self).is_cancelled(),
            final(self).pending() is None,
    {
        self.prompt = None;
    }
}

/// The items of a batch outcome, if the terminal carries one.
pub open spec fn terminal_items(t: OperationTerminal) -> Option<Seq<FileOperationBatchItemDto>> {
    match t {
        OperationTerminal::Completed(FileOperationOutcomeDto::Batch { items, .. }) => Some(items@),
        OperationTerminal::Cancelled(Some(FileOperationOutcomeDto::Batch { items, .. })) => Some(items@),
        OperationTerminal::Failed { outcome: Some(FileOperationOutcomeDto::Batch { items, .. }), .. } => Some(items@),
        _ => None,
    }
}

/// The items report on the sources one for one, in order.
pub open spec fn accounts_for(items: Seq<FileOperationBatchItemDto>, sources: Seq<EntryRefDto>) -> bool {
    &&& items.len() == sources.len()
    &&& forall|j: int| 0 <= j < items.len() ==> item_source(#[trigger] items[j]) == entry_view(sources[j])
}

/// Items for the first sources, followed by not-started items for the rest, report on every
/// source in order.
pub proof fn lemma_not_started_accounts(items: Seq<FileOperationBatchItemDto>, sources: Seq<EntryRefDto>, all: Seq<FileOperationBatchItemDto>)
    requires
        items.len() <= sources.len(),
        forall|j: int| 0 <= j < items.len() ==> item_source(#[trigger] items[j]) == entry_view(sources[j]),
        with_not_started(items, sources, items.len() as int, all),
    ensures
        accounts_for(all, sources),
{
    assert forall|j: int| 0 <= j < all.len() implies item_source(#[trigger] all[j]) == entry_view(sources[j]) by {
        if j < items.len() {
            assert(all[j] == all.take(items.len() as int)[j]);
        }
    }
}

/// What the batch does after an item.
pub enum BatchStep {
    Continue(Option<FileOperationEventDto>),
    Finished(OperationTerminal),
}

/// The bookkeeping of a batch: the item results so far and how many succeeded or failed.
pub struct BatchRun {
    items: Vec<FileOperationBatchItemDto>,
    successful: usize,
    failures: usize,
}

impl BatchRun {
    pub closed spec fn done(&self) -> Seq<FileOperationBatchItemDto> {
        self.items@
    }

    pub closed spec fn successes(&self) -> nat {
        self.successful as nat
    }

    pub closed spec fn failed_items(&self) -> nat {
        self.failures as nat
    }

    /// The items so far report on the first sources, in order.
    pub open spec fn covers(&self, sources: Seq<EntryRefDto>) -> bool {
        &&& self.done().len() <= sources.len()
        &&& forall|j: int| 0 <= j < self.done().len() ==> item_source(#[trigger] self.done()[j]) == entry_view(sources[j])
        &&& self.successes() + self.failed_items() <= self.done().len()
    }

    pub fn new() -> (r: BatchRun)
        ensures
            r.done().len() == 0,
            r.successes() == 0,
            r.failed_items() == 0,
    {
        BatchRun { items: Vec::new(), successful: 0, failures: 0 }
    }

    proof fn lemma_pushed_covers(&self, before: Seq<FileOperationBatchItemDto>, sources: Seq<EntryRefDto>)
        requires
            before.len() < sources.len(),
            self.done().len() == before.len() + 1,
            self.done().take(before.len() as int) == before,
            forall|j: int| 0 <= j < before.len() ==> item_source(#[trigger] before[j]) == entry_view(sources[j]),
            item_source(self.done().last()) == entry_view(sources[before.len() as int]),
        ensures
            forall|j: int| 0 <= j < self.done().len() ==> item_source(#[trigger] self.done()[j]) == entry_view(sources[j]),
    {
        assert forall|j: int| 0 <= j < self.done().len() implies item_source(#[trigger] self.done()[j]) == entry_view(sources[j]) by {
            if j < before.len() {
                assert(self.done()[j] == self.done().take(before.len() as int)[j]);
            }
        }
    }

    /// The batch was cancelled before its next item started.
    pub fn cancelled(self, sources: &Vec<EntryRefDto>) -> (r: OperationTerminal)
        requires
            self.covers(sources@),
        ensures
            r matches OperationTerminal::Cancelled(Some(FileOperationOutcomeDto::Batch { status, .. }))
                && status == FileOperationBatchStatusDto::Cancelled,
            terminal_items(r) is Some && accounts_for(terminal_items(r)->0, sources@),
    {
        let next = self.items.len();
        let ghost items = self.items@;
        let outcome = cancelled_batch_outcome(sources, self.items, next);
        proof {
            lemma_not_started_accounts(items, sources@, outcome->Batch_items@);
        }
        OperationTerminal::Cancelled(Some(outcome))
    }

    /// Records the result of the next source. A cancellation or a failure that stops the
    /// batch finishes it, as does a progress error; otherwise the batch goes on, with the
    /// progress event to send, if any.
    pub fn record(
        &mut self,
        sources: &Vec<EntryRefDto>,
        result: Result<FileOperationOutcomeDto, ExplorerError>,
        events: &mut OperationEventEmitter,
    ) -> (r: BatchStep)
        requires
            old(self).covers(sources@),
            old(self).done().len() < sources@.len(),
            sources@.len() <= MAX_OPERATION_SOURCES,
            emitter_wf(old(events)@),
        ensures
            emitter_wf(final(events)@),
            match r {
                BatchStep::Continue(_) => final(self).covers(sources@) && final(self).done().len() == old(self).done().len() + 1,
                BatchStep::Finished(t) => terminal_items(t) is Some && accounts_for(terminal_items(t)->0, sources@),
            },
            result is Ok ==> r is Continue ==> final(self).successes() == old(self).successes() + 1
                && final(self).done().last() is Completed,
            result == Err::<FileOperationOutcomeDto, ExplorerError>(ExplorerError::Cancelled) ==> (r matches BatchStep::Finished(
                OperationTerminal::Cancelled(Some(_)))),
            (result is Err && result != Err::<FileOperationOutcomeDto, ExplorerError>(ExplorerError::Cancelled)
                && stops_batch(result->Err_0)) ==> (r matches BatchStep::Finished(OperationTerminal::Failed { .. })),
            result is Ok && old(events)@.completed_items < old(events)@.total_items ==> r is Continue,
            (result is Err && result != Err::<FileOperationOutcomeDto, ExplorerError>(ExplorerError::Cancelled)
                && !stops_batch(result->Err_0) && old(events)@.completed_items < old(events)@.total_items) ==> (r is Continue
                && final(self).failed_items() == old(self).failed_items() + 1 && final(self).successes() == old(self).successes()
                && final(self).done().last() is Failed),
            (result is Err && result != Err::<FileOperationOutcomeDto, ExplorerError>(ExplorerError::Cancelled)
                && stops_batch(result->Err_0) && old(self).successes() > 0) ==> (r matches BatchStep::Finished(
                OperationTerminal::Failed { error: e, .. }) && e.code == ExplorerErrorCode::PartialCompletion && e.message@
                == partial_message(old(self).successes(), sources@.len())),
            (result is Err && result != Err::<FileOperationOutcomeDto, ExplorerError>(ExplorerError::Cancelled)
                && stops_batch(result->Err_0) && old(self).successes() == 0 && old(events)@.completed_items
                < old(events)@.total_items) ==> (r matches BatchStep::Finished(OperationTerminal::Failed { error: e, .. })
                && e.code == crate::filesystem::error_code(result->Err_0) && e.message@ == crate::filesystem::error_message(
                result->Err_0)),
    {
        let index = self.items.len();
        let source = copy_entry(&sources[index]);
        let ghost before = self.items@;
        match result {
            Ok(outcome) => {
                self.successful = self.successful + 1;
                self.items.push(FileOperationBatchItemDto::Completed { source, outcome: Box::new(outcome) });
                proof {
                    assert(self.items@.take(before.len() as int) =~= before);
                    self.lemma_pushed_covers(before, sources@);
                }
                match events.settle_item() {
                    Ok(event) => BatchStep::Continue(event),
                    Err(error) => {
                        let mut items: Vec<FileOperationBatchItemDto> = Vec::new();
                        std::mem::swap(&mut items, &mut self.items);
                        let ghost kept = items@;
                        let t = failed_batch_terminal(sources, items, index + 1, self.successful, ExplorerErrorDto::from(error));
                        proof {
                            lemma_not_started_accounts(kept, sources@, terminal_items(t)->0);
                        }
                        BatchStep::Finished(t)
                    },
                }
            },
            Err(ExplorerError::Cancelled) => {
                self.items.push(FileOperationBatchItemDto::Cancelled { source });
                proof {
                    assert(self.items@.take(before.len() as int) =~= before);
                    self.lemma_pushed_covers(before, sources@);
                }
                let mut items: Vec<FileOperationBatchItemDto> = Vec::new();
                std::mem::swap(&mut items, &mut self.items);
                let ghost kept = items@;
                let outcome = cancelled_batch_outcome(sources, items, index + 1);
                proof {
                    lemma_not_started_accounts(kept, sources@, outcome->Batch_items@);
                }
                BatchStep::Finished(OperationTerminal::Cancelled(Some(outcome)))
            },
            Err(error) => {
                let stop = should_stop_batch(&error);
                let dto = ExplorerErrorDto::from(error);
                let reported = ExplorerErrorDto { code: dto.code, message: dto.message.clone() };
                self.failures = self.failures + 1;
                self.items.push(FileOperationBatchItemDto::Failed { source, error: reported });
                proof {
                    assert(self.items@.take(before.len() as int) =~= before);
                    self.lemma_pushed_covers(before, sources@);
                }
                match events.settle_item() {
                    Ok(event) => {
                        if stop {
                            let mut items: Vec<FileOperationBatchItemDto> = Vec::new();
                            std::mem::swap(&mut items, &mut self.items);
                            let ghost kept = items@;
                            let t = failed_batch_terminal(sources, items, index + 1, self.successful, dto);
                            proof {
                                lemma_not_started_accounts(kept, sources@, terminal_items(t)->0);
                            }
                            BatchStep::Finished(t)
                        } else {
                            BatchStep::Continue(event)
                        }
                    },
                    Err(progress_error) => {
                        let mut items: Vec<FileOperationBatchItemDto> = Vec::new();
                        std::mem::swap(&mut items, &mut self.items);
                        let ghost kept = items@;
                        let t = failed_batch_terminal(sources, items, index + 1, self.successful,
                            ExplorerErrorDto::from(progress_error));
                        proof {
                            lemma_not_started_accounts(kept, sources@, terminal_items(t)->0);
                        }
                        BatchStep::Finished(t)
                    },
                }
            },
        }
    }

    /// Every source was run: completed if none failed, partial otherwise.
    pub fn finish(self, sources: &Vec<EntryRefDto>) -> (r: OperationTerminal)
        requires
            self.covers(sources@),
            self.done().len() == sources@.len(),
        ensures
            terminal_items(r) is Some && accounts_for(terminal_items(r)->0, sources@),
            self.failed_items() == 0 ==> (r matches OperationTerminal::Completed(FileOperationOutcomeDto::Batch { status, .. })
                && status == FileOperationBatchStatusDto::Completed),
            self.failed_items() > 0 ==> (r matches OperationTerminal::Failed { error: e, .. }
                && e.code == ExplorerErrorCode::PartialCompletion
                && e.message@ == partial_message(self.successes(), sources@.len())),
    {
        completed_batch_terminal(self.items, self.successful, self.failures, sources.len())
    }
}

} // verus!
