//! Taking the files of one request into a directory, step by step.
//!
//! The fields of a request come one after the other, and each file in
//! chunks. The caller reads the fields and writes the files, and reports
//! each outcome as an [`Event`]; the ingestion answers with the next
//! [`Action`]. A file is whole or absent: whenever a file cannot be
//! finished, the next action is to delete what there is of it.

use vstd::prelude::*;
use crate::bytes::ByteCount;
use crate::config::{files_directory_of, TokenConfig};
use crate::error::Error;
use crate::path::{join_paths, joined, location, sanitize_path, sanitized};
use crate::path::lemma_joined_path_stays_below;
use crate::sink::{FileSink, FileSinkView};

verus! {

/// What the caller reports.
#[derive(Debug)]
pub enum Event {
    /// Nothing yet: the ingestion is to start.
    Begin,
    /// The next field, with the file name that it declares, if any.
    Field { file_name: Option<String> },
    /// The request has no more fields.
    EndOfFields,
    /// The file was created.
    Created,
    /// A chunk of `len` bytes was read and written to the file.
    Chunk { len: usize },
    /// The field has no more chunks.
    EndOfChunks,
    /// The file was flushed and closed.
    Closed,
    /// The partial file was deleted, or could not be.
    Removed,
    /// The action failed.
    Failed(Error),
}

/// What the caller is to do next.
#[derive(Debug)]
pub enum Action {
    /// Read the next field of the request.
    NextField,
    /// Create the file at this path.
    Create(String),
    /// Read the next chunk of the field and write it to the file.
    NextChunk,
    /// Flush and close the file.
    Close,
    /// Delete the partial file at this path.
    Remove(String),
    /// Stop: `written` bytes stand on disk as whole files.
    Finish { written: ByteCount, outcome: Result<(), Error> },
}

/// An event as plain values.
pub enum EventView {
    Begin,
    Field { file_name: Option<Seq<char>> },
    EndOfFields,
    Created,
    Chunk { len: usize },
    EndOfChunks,
    Closed,
    Removed,
    Failed(Error),
}

/// An action as plain values.
pub enum ActionView {
    NextField,
    Create(Seq<char>),
    NextChunk,
    Close,
    Remove(Seq<char>),
    Finish { written: ByteCount, outcome: Result<(), Error> },
}

impl View for Event {
    type V = EventView;

    open spec fn view(&self) -> EventView {
        match *self {
            Event::Begin => EventView::Begin,
            Event::Field { file_name } => EventView::Field {
                file_name: match file_name {
                    Some(name) => Some(name@),
                    None => None,
                },
            },
            Event::EndOfFields => EventView::EndOfFields,
            Event::Created => EventView::Created,
            Event::Chunk { len } => EventView::Chunk { len },
            Event::EndOfChunks => EventView::EndOfChunks,
            Event::Closed => EventView::Closed,
            Event::Removed => EventView::Removed,
            Event::Failed(e) => EventView::Failed(e),
        }
    }
}

impl View for Action {
    type V = ActionView;

    open spec fn view(&self) -> ActionView {
        match *self {
            Action::NextField => ActionView::NextField,
            Action::Create(path) => ActionView::Create(path@),
            Action::NextChunk => ActionView::NextChunk,
            Action::Close => ActionView::Close,
            Action::Remove(path) => ActionView::Remove(path@),
            Action::Finish { written, outcome } => ActionView::Finish { written, outcome },
        }
    }
}

/// How far an ingestion has come.
pub enum Phase {
    /// Not started.
    Idle,
    /// The next field is being read.
    AwaitingField,
    /// The file at `path` is being created.
    Creating { path: Seq<char> },
    /// The next chunk is being read and written to the file of `sink`.
    Writing { sink: FileSinkView },
    /// The file of `sink` is being flushed and closed.
    Closing { sink: FileSinkView },
    /// A partial file is being deleted, after `error`.
    Removing { error: Error },
    /// The ingestion is over.
    Finished { outcome: Result<(), Error> },
}

/// An ingestion as plain values.
pub struct IngestView {
    /// The directory of the token whose files directory takes the files.
    pub token_directory: Seq<char>,
    /// The bytes of the files that have been finished.
    pub total: ByteCount,
    pub phase: Phase,
}

impl Phase {
    /// Whether a file is open that is not yet whole.
    pub open spec fn has_open_file(self) -> bool {
        self is Writing || self is Closing
    }

    /// The path of the file that is open.
    pub open spec fn open_path(self) -> Seq<char> {
        match self {
            Phase::Writing { sink } => sink.path,
            Phase::Closing { sink } => sink.path,
            _ => Seq::empty(),
        }
    }
}

/// The path at which the file of a field is written: what is kept of its
/// declared name, below the files directory of the token.
pub open spec fn upload_path_of(token_directory: Seq<char>, file_name: Seq<char>) -> Seq<char> {
    join_paths(files_directory_of(token_directory), joined(sanitized(file_name)))
}

impl IngestView {
    /// This ingestion in another phase.
    pub open spec fn at(self, phase: Phase) -> IngestView {
        IngestView { phase, ..self }
    }

    /// This ingestion at its end.
    pub open spec fn ended(self, outcome: Result<(), Error>) -> (IngestView, ActionView) {
        (
            self.at(Phase::Finished { outcome }),
            ActionView::Finish { written: self.total, outcome },
        )
    }

    /// The state and the action that follow an event.
    ///
    /// A field without a file name is passed over. A field with one is
    /// written to a file of its own, and counts once that file has been
    /// closed. The first failure ends the ingestion: the files that were
    /// finished stay, and the file that was open is deleted first. An event
    /// that does not answer the pending action counts as an I/O failure.
    pub open spec fn next(self, event: EventView) -> (IngestView, ActionView) {
        match (self.phase, event) {
            (Phase::Idle, EventView::Begin) => (
                self.at(Phase::AwaitingField),
                ActionView::NextField,
            ),
            (Phase::AwaitingField, EventView::Field { file_name: None }) => (
                self,
                ActionView::NextField,
            ),
            (Phase::AwaitingField, EventView::Field { file_name: Some(name) }) => {
                let path = upload_path_of(self.token_directory, name);
                (self.at(Phase::Creating { path }), ActionView::Create(path))
            },
            (Phase::AwaitingField, EventView::EndOfFields) => self.ended(Ok(())),
            (Phase::AwaitingField, EventView::Failed(e)) => self.ended(Err(e)),
            (Phase::Creating { path }, EventView::Created) => (
                self.at(Phase::Writing { sink: FileSinkView { path, size: ByteCount(0) } }),
                ActionView::NextChunk,
            ),
            (Phase::Creating { .. }, EventView::Failed(e)) => self.ended(Err(e)),
            (Phase::Writing { sink }, EventView::Chunk { len }) => (
                self.at(
                    Phase::Writing {
                        sink: FileSinkView { size: ByteCount((sink.size@ + len) as usize), ..sink },
                    },
                ),
                ActionView::NextChunk,
            ),
            (Phase::Writing { sink }, EventView::EndOfChunks) => (
                self.at(Phase::Closing { sink }),
                ActionView::Close,
            ),
            (Phase::Writing { sink }, EventView::Failed(e)) => (
                self.at(Phase::Removing { error: e }),
                ActionView::Remove(sink.path),
            ),
            (Phase::Closing { sink }, EventView::Closed) => (
                IngestView {
                    total: ByteCount((self.total@ + sink.size@) as usize),
                    phase: Phase::AwaitingField,
                    ..self
                },
                ActionView::NextField,
            ),
            (Phase::Closing { sink }, EventView::Failed(e)) => (
                self.at(Phase::Removing { error: e }),
                ActionView::Remove(sink.path),
            ),
            (Phase::Removing { error }, _) => self.ended(Err(error)),
            (Phase::Finished { outcome }, _) => (
                self,
                ActionView::Finish { written: self.total, outcome },
            ),
            _ => if self.phase.has_open_file() {
                (
                    self.at(Phase::Removing { error: Error::IoFailure }),
                    ActionView::Remove(self.phase.open_path()),
                )
            } else {
                self.ended(Err(Error::IoFailure))
            },
        }
    }

    /// Whether the count that `event` asks for stays in the range of the
    /// machine word.
    pub open spec fn in_range(self, event: EventView) -> bool {
        match (self.phase, event) {
            (Phase::Writing { sink }, EventView::Chunk { len }) => sink.size@ + len <= usize::MAX,
            (Phase::Closing { sink }, EventView::Closed) => self.total@ + sink.size@
                <= usize::MAX,
            _ => true,
        }
    }
}

/// The phase as the ingestion holds it.
enum Stage {
    Idle,
    AwaitingField,
    Creating { path: String },
    Writing { sink: FileSink },
    Closing { sink: FileSink },
    Removing { error: Error },
    Finished { outcome: Result<(), Error> },
}

impl View for Stage {
    type V = Phase;

    closed spec fn view(&self) -> Phase {
        match *self {
            Stage::Idle => Phase::Idle,
            Stage::AwaitingField => Phase::AwaitingField,
            Stage::Creating { path } => Phase::Creating { path: path@ },
            Stage::Writing { sink } => Phase::Writing { sink: sink@ },
            Stage::Closing { sink } => Phase::Closing { sink: sink@ },
            Stage::Removing { error } => Phase::Removing { error },
            Stage::Finished { outcome } => Phase::Finished { outcome },
        }
    }
}

/// The ingestion of the files of one request into the files directory of
/// one token.
pub struct Ingest {
    places: TokenConfig,
    total: ByteCount,
    stage: Stage,
}

impl View for Ingest {
    type V = IngestView;

    closed spec fn view(&self) -> IngestView {
        IngestView { token_directory: self.places@, total: self.total, phase: self.stage@ }
    }
}

impl Ingest {
    /// An ingestion into the files directory of the token at `places`.
    pub fn new(places: TokenConfig) -> (r: Ingest)
        ensures
            r@ == (IngestView {
                token_directory: places@,
                total: ByteCount(0),
                phase: Phase::Idle,
            }),
    {
        Ingest { places, total: ByteCount(0), stage: Stage::Idle }
    }

    /// The bytes of the files that have been finished so far.
    pub fn total(&self) -> (r: ByteCount)
        ensures
            r == self@.total,
    {
        self.total
    }

    /// Whether `step` can take `event`: see `in_range`.
    pub fn accepts(&self, event: &Event) -> (r: bool)
        ensures
            r == self@.in_range(event@),
    {
        match (&self.stage, event) {
            (Stage::Writing { sink }, Event::Chunk { len }) => sink.fits(*len),
            (Stage::Closing { sink }, Event::Closed) => self.total.checked_add(
                sink.size(),
            ).is_some(),
            _ => true,
        }
    }

    /// Takes an event and says what to do next.
    pub fn step(&mut self, event: Event) -> (action: Action)
        requires
            old(self)@.in_range(event@),
        ensures
            (final(self)@, action@) == old(self)@.next(event@),
    {
        let mut stage = Stage::Idle;
        std::mem::swap(&mut self.stage, &mut stage);
        let (stage, action) = match (stage, event) {
            (Stage::Idle, Event::Begin) => (Stage::AwaitingField, Action::NextField),
            (Stage::AwaitingField, Event::Field { file_name: None }) => (
                Stage::AwaitingField,
                Action::NextField,
            ),
            (Stage::AwaitingField, Event::Field { file_name: Some(name) }) => {
                let kept = sanitize_path(name.as_str());
                let path = self.places.upload_path(&kept);
                (Stage::Creating { path: path.clone() }, Action::Create(path))
            },
            (Stage::AwaitingField, Event::EndOfFields) => self.end(Ok(())),
            (Stage::AwaitingField, Event::Failed(e)) => self.end(Err(e)),
            (Stage::Creating { path }, Event::Created) => (
                Stage::Writing { sink: FileSink::new(path) },
                Action::NextChunk,
            ),
            (Stage::Creating { .. }, Event::Failed(e)) => self.end(Err(e)),
            (Stage::Writing { sink }, Event::Chunk { len }) => {
                let mut sink = sink;
                sink.write(len);
                (Stage::Writing { sink }, Action::NextChunk)
            },
            (Stage::Writing { sink }, Event::EndOfChunks) => (
                Stage::Closing { sink },
                Action::Close,
            ),
            (Stage::Writing { sink }, Event::Failed(e)) => (
                Stage::Removing { error: e },
                Action::Remove(sink.discard()),
            ),
            (Stage::Closing { sink }, Event::Closed) => {
                self.total.add_assign(sink.finalize());
                (Stage::AwaitingField, Action::NextField)
            },
            (Stage::Closing { sink }, Event::Failed(e)) => (
                Stage::Removing { error: e },
                Action::Remove(sink.discard()),
            ),
            (Stage::Removing { error }, _) => self.end(Err(error)),
            (Stage::Finished { outcome }, _) => self.end(outcome),
            (Stage::Writing { sink }, _) => (
                Stage::Removing { error: Error::IoFailure },
                Action::Remove(sink.discard()),
            ),
            (Stage::Closing { sink }, _) => (
                Stage::Removing { error: Error::IoFailure },
                Action::Remove(sink.discard()),
            ),
            _ => self.end(Err(Error::IoFailure)),
        };
        self.stage = stage;
        action
    }

    /// The end of the ingestion.
    fn end(&self, outcome: Result<(), Error>) -> (r: (Stage, Action))
        ensures
            r.0@ == (Phase::Finished { outcome }),
            r.1@ == (ActionView::Finish { written: self.total, outcome }),
    {
        (Stage::Finished { outcome }, Action::Finish { written: self.total, outcome })
    }
}

/// Where a run of events leads.
pub open spec fn run(state: IngestView, events: Seq<EventView>) -> IngestView
    decreases events.len(),
{
    if events.len() == 0 {
        state
    } else {
        run(state, events.drop_last()).next(events.last()).0
    }
}

/// The events of chunks of these lengths, one after the other.
pub open spec fn chunks(lens: Seq<usize>) -> Seq<EventView> {
    Seq::new(lens.len(), |i: int| EventView::Chunk { len: lens[i] })
}

/// The sum of the lengths.
pub open spec fn sum(lens: Seq<usize>) -> int
    decreases lens.len(),
{
    if lens.len() == 0 {
        0
    } else {
        sum(lens.drop_last()) + lens.last()
    }
}

/// What is reported of one field whose file arrives whole: the field, the
/// file created, its chunks, their end, the file closed.
pub open spec fn whole_file(file_name: Seq<char>, lens: Seq<usize>) -> Seq<EventView> {
    seq![EventView::Field { file_name: Some(file_name) }, EventView::Created] + chunks(lens)
        + seq![EventView::EndOfChunks, EventView::Closed]
}

/// What is reported of one field whose file breaks off after some chunks.
pub open spec fn broken_file(file_name: Seq<char>, lens: Seq<usize>, error: Error) -> Seq<
    EventView,
> {
    seq![EventView::Field { file_name: Some(file_name) }, EventView::Created] + chunks(lens)
        + seq![EventView::Failed(error)]
}

/// The sum of lengths is not negative and grows with each length.
pub proof fn lemma_sum_grows(lens: Seq<usize>)
    ensures
        0 <= sum(lens),
        lens.len() > 0 ==> sum(lens.drop_last()) <= sum(lens),
    decreases lens.len(),
{
    if lens.len() > 0 {
        lemma_sum_grows(lens.drop_last());
    }
}

/// Running two runs in turn is running the one after the other.
pub proof fn lemma_run_concat(state: IngestView, first: Seq<EventView>, second: Seq<EventView>)
    ensures
        run(state, first + second) == run(run(state, first), second),
    decreases second.len(),
{
    if second.len() > 0 {
        lemma_run_concat(state, first, second.drop_last());
        assert((first + second).drop_last() =~= first + second.drop_last());
    }
}

/// Chunks that are written to an open file are counted in its sink, and
/// nowhere else.
pub proof fn lemma_chunks_are_counted(state: IngestView, lens: Seq<usize>)
    requires
        state.phase is Writing,
        state.phase->Writing_sink.size@ + sum(lens) <= usize::MAX,
    ensures
        run(state, chunks(lens)) == state.at(
            Phase::Writing {
                sink: FileSinkView {
                    size: ByteCount((state.phase->Writing_sink.size@ + sum(lens)) as usize),
                    ..state.phase->Writing_sink
                },
            },
        ),
    decreases lens.len(),
{
    if lens.len() > 0 {
        let shorter = lens.drop_last();
        lemma_sum_grows(lens);
        lemma_sum_grows(shorter);
        lemma_chunks_are_counted(state, shorter);
        assert(chunks(lens).drop_last() =~= chunks(shorter));
    }
}

/// A file that arrives whole counts in full: after it, the ingestion waits
/// for the next field, and its count has grown by the bytes of the file.
pub proof fn lemma_whole_file_counts(state: IngestView, file_name: Seq<char>, lens: Seq<usize>)
    requires
        state.phase is AwaitingField,
        state.total@ + sum(lens) <= usize::MAX,
    ensures
        run(state, whole_file(file_name, lens)) == (IngestView {
            total: ByteCount((state.total@ + sum(lens)) as usize),
            ..state
        }),
{
    let path = upload_path_of(state.token_directory, file_name);
    let head = seq![EventView::Field { file_name: Some(file_name) }, EventView::Created];
    let tail = seq![EventView::EndOfChunks, EventView::Closed];
    let opened = state.at(Phase::Writing { sink: FileSinkView { path, size: ByteCount(0) } });
    lemma_sum_grows(lens);
    assert(run(state, head) == opened) by {
        reveal_with_fuel(run, 3);
    }
    lemma_chunks_are_counted(opened, lens);
    let written = run(opened, chunks(lens));
    assert(run(written, tail) == (IngestView {
        total: ByteCount((state.total@ + sum(lens)) as usize),
        ..state
    })) by {
        reveal_with_fuel(run, 3);
    }
    lemma_run_concat(state, head, chunks(lens));
    lemma_run_concat(state, head + chunks(lens), tail);
}

/// A file that breaks off counts for nothing and does not stay: the next
/// action is to delete it, and then the ingestion ends with the count that
/// it had before the file, and with the failure that broke the file off.
pub proof fn lemma_broken_file_goes(
    state: IngestView,
    file_name: Seq<char>,
    lens: Seq<usize>,
    error: Error,
)
    requires
        state.phase is AwaitingField,
        sum(lens) <= usize::MAX,
    ensures
        ({
            let events = broken_file(file_name, lens, error);
            let broken = run(state, events.drop_last()).next(events.last());
            let ended = broken.0.next(EventView::Removed);
            &&& broken.1 == ActionView::Remove(upload_path_of(state.token_directory, file_name))
            &&& ended.1 == ActionView::Finish { written: state.total, outcome: Err(error) }
            &&& ended.0 == state.at(Phase::Finished { outcome: Err(error) })
        }),
{
    let path = upload_path_of(state.token_directory, file_name);
    let head = seq![EventView::Field { file_name: Some(file_name) }, EventView::Created];
    let events = broken_file(file_name, lens, error);
    let opened = state.at(Phase::Writing { sink: FileSinkView { path, size: ByteCount(0) } });
    assert(run(state, head) == opened) by {
        reveal_with_fuel(run, 3);
    }
    lemma_chunks_are_counted(opened, lens);
    lemma_run_concat(state, head, chunks(lens));
    assert(events.drop_last() =~= head + chunks(lens));
}

/// Whatever name a field declares, its file is created in the files
/// directory of the token or below it.
pub proof fn lemma_files_stay_below(state: IngestView, file_name: Seq<char>)
    requires
        state.phase is AwaitingField,
    ensures
        ({
            let (_, action) = state.next(EventView::Field { file_name: Some(file_name) });
            let files = files_directory_of(state.token_directory);
            &&& action is Create
            &&& location(action->Create_0) == location(files) + sanitized(file_name)
            &&& location(files).is_prefix_of(location(action->Create_0))
        }),
{
    lemma_joined_path_stays_below(files_directory_of(state.token_directory), file_name);
}

/// No partial file stays: while a file is open, the ingestion does not end,
/// and whatever is reported but the progress of that file has the file
/// deleted.
pub proof fn lemma_partial_files_go(state: IngestView, event: EventView)
    requires
        state.phase.has_open_file(),
    ensures
        ({
            let (after, action) = state.next(event);
            let progress = match (state.phase, event) {
                (Phase::Writing { .. }, EventView::Chunk { .. }) => true,
                (Phase::Writing { .. }, EventView::EndOfChunks) => true,
                (Phase::Closing { .. }, EventView::Closed) => true,
                _ => false,
            };
            &&& !(action is Finish)
            &&& !progress ==> action == ActionView::Remove(state.phase.open_path())
            &&& !progress ==> after.phase is Removing
        }),
{
}

/// The count of finished bytes changes only when a file is closed, and then
/// by the size of that file.
pub proof fn lemma_total_counts_closed_files(state: IngestView, event: EventView)
    requires
        state.in_range(event),
    ensures
        ({
            let (after, _) = state.next(event);
            if state.phase is Closing && event is Closed {
                after.total@ == state.total@ + state.phase->Closing_sink.size@
            } else {
                after.total == state.total
            }
        }),
        state.next(event).0.token_directory == state.token_directory,
{
}

} // verus!
