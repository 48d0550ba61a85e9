use vstd::prelude::*;

use crate::error::{DownloadError, ErrorView};
use crate::request::{DownloadRequest, RequestView};

verus! {

/// Which stage of its life a transfer is at.
#[derive(Clone, Copy, Debug, PartialEq, Eq, Structural)]
pub enum Stage {
    /// The fetch request is out; no response has arrived yet.
    AwaitingResponse,
    /// The service answered with the object; the destination file is
    /// about to be created.
    CreatingFile,
    /// The destination file exists; body chunks are being written into it.
    WritingBody,
    /// The whole body has been written; the transfer succeeded.
    Done,
    /// The transfer failed; `error` says why.
    Failed,
}

/// What the runner must do next, as decided by the machine.
#[derive(Clone, Copy, Debug, PartialEq, Eq, Structural)]
pub enum Action {
    /// Create (or truncate) the destination file.
    CreateFile,
    /// Pull the next chunk off the body stream and write it to the file.
    ReadChunk,
    /// The transfer is complete: report success.
    Finish,
    /// The transfer failed: report the error.
    Report,
}

/// One observation the runner hands to the machine: the outcome of the
/// outside work the last action asked for.
pub enum Event {
    /// The service answered with the object and its declared content length.
    ResponseOk { content_length: u64 },
    /// The service reported that the object or bucket does not exist.
    ResponseNotFound,
    /// The service reported an authorization failure.
    ResponseAccessDenied,
    /// Any other non-success response, with the service's diagnostic message.
    ResponseService { message: String },
    /// The destination file was created (or truncated).
    FileCreated,
    /// The destination file could not be created.
    FileCreateFailed { message: String },
    /// One body chunk arrived and was written to the destination file.
    ChunkWritten { data: Vec<u8> },
    /// A write to the destination file failed.
    WriteFailed { message: String },
    /// The body stream itself errored mid-transfer.
    StreamFailed { message: String },
    /// The body stream ended cleanly.
    BodyEnd,
}

/// Mathematical picture of an `Event`.
pub enum EventView {
    ResponseOk { content_length: nat },
    ResponseNotFound,
    ResponseAccessDenied,
    ResponseService { message: Seq<char> },
    FileCreated,
    FileCreateFailed { message: Seq<char> },
    ChunkWritten { data: Seq<u8> },
    WriteFailed { message: Seq<char> },
    StreamFailed { message: Seq<char> },
    BodyEnd,
}

impl View for Event {
    type V = EventView;

    open spec fn view(&self) -> EventView {
        match self {
            Event::ResponseOk { content_length } => EventView::ResponseOk {
                content_length: *content_length as nat,
            },
            Event::ResponseNotFound => EventView::ResponseNotFound,
            Event::ResponseAccessDenied => EventView::ResponseAccessDenied,
            Event::ResponseService { message } => EventView::ResponseService {
                message: message@,
            },
            Event::FileCreated => EventView::FileCreated,
            Event::FileCreateFailed { message } => EventView::FileCreateFailed {
                message: message@,
            },
            Event::ChunkWritten { data } => EventView::ChunkWritten { data: data@ },
            Event::WriteFailed { message } => EventView::WriteFailed { message: message@ },
            Event::StreamFailed { message } => EventView::StreamFailed { message: message@ },
            Event::BodyEnd => EventView::BodyEnd,
        }
    }
}

/// The message a transfer fails with when the body ends cleanly before
/// the declared content length was reached.
pub open spec fn truncated_body_message() -> Seq<char> {
    "response body ended before the declared content length"@
}

/// Mathematical picture of a transfer: the request it serves, the stage,
/// the declared content length, the bytes written to the destination so
/// far, what has already happened, and the error if it failed.
pub struct TransferView {
    pub request: RequestView,
    pub stage: Stage,
    /// The content length the service declared; zero until the response arrives.
    pub total: nat,
    /// The bytes handed to the destination file so far, in order.
    pub written: Seq<u8>,
    /// Whether a response (success or failure) has arrived for the fetch.
    pub fetched: bool,
    /// Whether the destination file has been created.
    pub file_created: bool,
    pub error: Option<ErrorView>,
}

impl TransferView {
    /// The state of a transfer just after the fetch request was issued.
    pub open spec fn init(request: RequestView) -> TransferView {
        TransferView {
            request,
            stage: Stage::AwaitingResponse,
            total: 0,
            written: Seq::empty(),
            fetched: false,
            file_created: false,
            error: None,
        }
    }

    /// Which events the machine can take in this state. The runner only
    /// ever observes an event that answers the action the machine asked
    /// for, so each event is tied to the stage that awaits it; a chunk is
    /// taken only while it still fits under the declared content length.
    pub open spec fn accepts(self, e: EventView) -> bool {
        match e {
            EventView::ResponseOk { content_length } => self.stage == Stage::AwaitingResponse
                && content_length <= u64::MAX,
            EventView::ResponseNotFound => self.stage == Stage::AwaitingResponse,
            EventView::ResponseAccessDenied => self.stage == Stage::AwaitingResponse,
            EventView::ResponseService { .. } => self.stage == Stage::AwaitingResponse,
            EventView::FileCreated => self.stage == Stage::CreatingFile,
            EventView::FileCreateFailed { .. } => self.stage == Stage::CreatingFile,
            EventView::ChunkWritten { data } => self.stage == Stage::WritingBody
                && self.written.len() + data.len() <= self.total,
            EventView::WriteFailed { .. } => self.stage == Stage::WritingBody,
            EventView::StreamFailed { .. } => self.stage == Stage::WritingBody,
            EventView::BodyEnd => self.stage == Stage::WritingBody,
        }
    }

    /// The transition relation: the state after taking event `e`.
    pub open spec fn step(self, e: EventView) -> TransferView {
        match e {
            EventView::ResponseOk { content_length } => TransferView {
                stage: Stage::CreatingFile,
                total: content_length,
                fetched: true,
                ..self
            },
            EventView::ResponseNotFound => TransferView {
                stage: Stage::Failed,
                fetched: true,
                error: Some(ErrorView::NotFound),
                ..self
            },
            EventView::ResponseAccessDenied => TransferView {
                stage: Stage::Failed,
                fetched: true,
                error: Some(ErrorView::AccessDenied),
                ..self
            },
            EventView::ResponseService { message } => TransferView {
                stage: Stage::Failed,
                fetched: true,
                error: Some(ErrorView::Service { message }),
                ..self
            },
            EventView::FileCreated => TransferView {
                stage: Stage::WritingBody,
                file_created: true,
                ..self
            },
            EventView::FileCreateFailed { message } => TransferView {
                stage: Stage::Failed,
                error: Some(ErrorView::Io { message }),
                ..self
            },
            EventView::ChunkWritten { data } => TransferView {
                written: self.written + data,
                ..self
            },
            EventView::WriteFailed { message } => TransferView {
                stage: Stage::Failed,
                error: Some(ErrorView::Io { message }),
                ..self
            },
            EventView::StreamFailed { message } => TransferView {
                stage: Stage::Failed,
                error: Some(ErrorView::Stream { message }),
                ..self
            },
            EventView::BodyEnd => if self.written.len() == self.total {
                TransferView { stage: Stage::Done, ..self }
            } else {
                TransferView {
                    stage: Stage::Failed,
                    error: Some(ErrorView::Stream { message: truncated_body_message() }),
                    ..self
                }
            },
        }
    }

    /// The action the machine asks for after taking event `e`.
    pub open spec fn action_of(self, e: EventView) -> Action {
        match e {
            EventView::ResponseOk { .. } => Action::CreateFile,
            EventView::FileCreated => Action::ReadChunk,
            EventView::ChunkWritten { .. } => Action::ReadChunk,
            EventView::BodyEnd => if self.written.len() == self.total {
                Action::Finish
            } else {
                Action::Report
            },
            _ => Action::Report,
        }
    }

    /// What holds of every reachable transfer state.
    pub open spec fn inv(self) -> bool {
        &&& self.total <= u64::MAX
        &&& match self.stage {
            Stage::AwaitingResponse => !self.fetched && !self.file_created && self.total == 0
                && self.written.len() == 0 && self.error is None,
            Stage::CreatingFile => self.fetched && !self.file_created
                && self.written.len() == 0 && self.error is None,
            Stage::WritingBody => self.fetched && self.file_created
                && self.written.len() <= self.total && self.error is None,
            Stage::Done => self.fetched && self.file_created
                && self.written.len() == self.total && self.error is None,
            Stage::Failed => self.error is Some && (self.file_created ==> self.fetched)
                && (!self.file_created ==> self.written.len() == 0)
                && (match self.error->0 {
                    ErrorView::NotFound => !self.file_created,
                    ErrorView::AccessDenied => !self.file_created,
                    ErrorView::Service { .. } => !self.file_created,
                    _ => true,
                }),
        }
    }
}

/// Taking an accepted event from a state that satisfies the invariant
/// lands in a state that satisfies it again: the invariant holds of
/// every reachable transfer state.
pub proof fn lemma_step_preserves_inv(v: TransferView, e: EventView)
    requires
        v.inv(),
        v.accepts(e),
    ensures
        v.step(e).inv(),
{
}

/// The state after feeding `events` to `v`, in order.
pub open spec fn run(v: TransferView, events: Seq<EventView>) -> TransferView
    decreases events.len(),
{
    if events.len() == 0 {
        v
    } else {
        run(v.step(events.first()), events.drop_first())
    }
}

/// The bytes of a sequence of chunks, concatenated in order.
pub open spec fn concat_of(chunks: Seq<Seq<u8>>) -> Seq<u8>
    decreases chunks.len(),
{
    if chunks.len() == 0 {
        Seq::empty()
    } else {
        chunks.first() + concat_of(chunks.drop_first())
    }
}

/// The events of an untroubled download: the service answers with
/// declared length `total`, the destination file is created, the body
/// arrives as `chunks`, and the stream ends cleanly.
pub open spec fn happy_events(total: nat, chunks: Seq<Seq<u8>>) -> Seq<EventView> {
    seq![
        EventView::ResponseOk { content_length: total },
        EventView::FileCreated,
    ] + chunks.map_values(|c: Seq<u8>| EventView::ChunkWritten { data: c }) + seq![
        EventView::BodyEnd,
    ]
}

proof fn lemma_run_append(v: TransferView, a: Seq<EventView>, b: Seq<EventView>)
    ensures
        run(v, a + b) == run(run(v, a), b),
    decreases a.len(),
{
    if a.len() == 0 {
        assert(a + b =~= b);
    } else {
        assert((a + b).first() == a.first());
        assert((a + b).drop_first() =~= a.drop_first() + b);
        lemma_run_append(v.step(a.first()), a.drop_first(), b);
    }
}

proof fn lemma_feed_chunks(v: TransferView, chunks: Seq<Seq<u8>>)
    requires
        v.inv(),
        v.stage == Stage::WritingBody,
        v.written.len() + concat_of(chunks).len() <= v.total,
    ensures
        run(v, chunks.map_values(|c: Seq<u8>| EventView::ChunkWritten { data: c })) == (
        TransferView { written: v.written + concat_of(chunks), ..v }),
    decreases chunks.len(),
{
    let evs = chunks.map_values(|c: Seq<u8>| EventView::ChunkWritten { data: c });
    if chunks.len() == 0 {
        assert(v.written + concat_of(chunks) =~= v.written);
    } else {
        let c = chunks.first();
        let e = EventView::ChunkWritten { data: c };
        assert(evs.first() == e);
        assert(v.accepts(e));
        let w = v.step(e);
        lemma_step_preserves_inv(v, e);
        lemma_feed_chunks(w, chunks.drop_first());
        assert(evs.drop_first() =~= chunks.drop_first().map_values(
            |ch: Seq<u8>| EventView::ChunkWritten { data: ch },
        ));
        assert(w.written + concat_of(chunks.drop_first()) =~= v.written + concat_of(chunks));
    }
}

/// Round-trip fidelity: a download whose fetch succeeds with declared
/// content length `total` and whose body arrives whole — as chunks that
/// together hold exactly `total` bytes — runs to `Done`, and the bytes
/// written to the destination file are exactly the body's bytes, whose
/// length equals the declared content length.
pub proof fn lemma_download_round_trip(request: RequestView, total: nat, chunks: Seq<Seq<u8>>)
    requires
        total <= u64::MAX,
        concat_of(chunks).len() == total,
    ensures
        ({
            let w = run(TransferView::init(request), happy_events(total, chunks));
            &&& w.stage == Stage::Done
            &&& w.written == concat_of(chunks)
            &&& w.written.len() == total
        }),
{
    let v0 = TransferView::init(request);
    let e_ok = EventView::ResponseOk { content_length: total };
    let pre = seq![e_ok, EventView::FileCreated];
    let mids = chunks.map_values(|c: Seq<u8>| EventView::ChunkWritten { data: c });
    let end = seq![EventView::BodyEnd];
    assert(happy_events(total, chunks) =~= (pre + mids) + end);
    lemma_run_append(v0, pre + mids, end);
    lemma_run_append(v0, pre, mids);

    let v1 = v0.step(e_ok);
    let v2 = v1.step(EventView::FileCreated);
    assert(pre.drop_first() =~= seq![EventView::FileCreated]);
    assert(run(v0, pre) == run(v1, pre.drop_first()));
    assert(run(v1, pre.drop_first()) == run(v2, pre.drop_first().drop_first()));
    assert(pre.drop_first().drop_first() =~= Seq::<EventView>::empty());
    assert(run(v0, pre) == v2);

    lemma_step_preserves_inv(v0, e_ok);
    lemma_step_preserves_inv(v1, EventView::FileCreated);
    lemma_feed_chunks(v2, chunks);
    let v3 = run(v2, mids);
    assert(v3.written =~= concat_of(chunks));

    assert(end.first() == EventView::BodyEnd);
    assert(end.drop_first() =~= Seq::<EventView>::empty());
    assert(run(v3, end) == run(v3.step(EventView::BodyEnd), end.drop_first()));
    assert(run(v3, end) == v3.step(EventView::BodyEnd));
}

/// A not-found (or access-denied, or other service) failure leaves no
/// destination file behind: in every reachable state whose error says the
/// service refused the fetch, the destination file was never created and
/// no byte was written. In particular a nonexistent key fails the
/// transfer before any file exists.
pub proof fn lemma_service_refusal_leaves_no_file(v: TransferView)
    requires
        v.inv(),
        v.error is Some,
        (v.error->0 matches ErrorView::NotFound) || (v.error->0 matches ErrorView::AccessDenied)
            || (v.error->0 matches ErrorView::Service { .. }),
    ensures
        v.stage == Stage::Failed,
        !v.file_created,
        v.written.len() == 0,
{
}

/// The destination file is created only after the fetch has already
/// succeeded: every state that can observe a file-creation failure has
/// fetched, and taking that failure ends the transfer with an `Io` error
/// while no byte has been written.
pub proof fn lemma_create_failure_comes_after_fetch(v: TransferView, message: Seq<char>)
    requires
        v.inv(),
        v.accepts(EventView::FileCreateFailed { message }),
    ensures
        v.fetched,
        ({
            let w = v.step(EventView::FileCreateFailed { message });
            &&& w.stage == Stage::Failed
            &&& w.error == Some(ErrorView::Io { message })
            &&& w.written.len() == 0
        }),
{
}

/// A mid-stream connection drop after a partial write fails the transfer
/// with `Stream` and leaves the partial bytes as they are: the created
/// destination file stays shorter than the declared content length and is
/// not cleaned up — there is no atomic-replace guarantee.
pub proof fn lemma_mid_stream_drop_leaves_partial_file(v: TransferView, message: Seq<char>)
    requires
        v.inv(),
        v.stage == Stage::WritingBody,
        v.written.len() < v.total,
    ensures
        ({
            let w = v.step(EventView::StreamFailed { message });
            &&& w.stage == Stage::Failed
            &&& w.error == Some(ErrorView::Stream { message })
            &&& w.written == v.written
            &&& w.written.len() < w.total
            &&& w.file_created
        }),
{
}

/// One download transfer: transfers exactly one object from the storage
/// service to a local file. The machine holds the decisions; the runner
/// around it performs the network and file I/O each action asks for and
/// hands the outcome back as the next event.
pub struct Transfer {
    request: DownloadRequest,
    stage: Stage,
    total: u64,
    written_len: u64,
    written: Ghost<Seq<u8>>,
    fetched: bool,
    file_created: bool,
    error: Option<DownloadError>,
}

impl View for Transfer {
    type V = TransferView;

    closed spec fn view(&self) -> TransferView {
        TransferView {
            request: self.request@,
            stage: self.stage,
            total: self.total as nat,
            written: self.written@,
            fetched: self.fetched,
            file_created: self.file_created,
            error: match self.error {
                Some(ref e) => Some(e@),
                None => None,
            },
        }
    }
}

impl Transfer {
    /// Well-formedness: the byte counter tracks the written bytes, and the
    /// abstract state satisfies the reachable-state invariant.
    pub closed spec fn wf(&self) -> bool {
        self.written_len as nat == self.written@.len() && self@.inv()
    }

    /// Begins a transfer for `request`: the runner has just issued the
    /// fetch request and now awaits the response.
    pub fn begin(request: DownloadRequest) -> (t: Transfer)
        requires
            request@.wf(),
        ensures
            t.wf(),
            t@ == TransferView::init(request@),
    {
        Transfer {
            request,
            stage: Stage::AwaitingResponse,
            total: 0,
            written_len: 0,
            written: Ghost(Seq::empty()),
            fetched: false,
            file_created: false,
            error: None,
        }
    }

    /// The request this transfer serves.
    pub fn request(&self) -> (r: &DownloadRequest)
        ensures
            r@ == self@.request,
    {
        &self.request
    }

    /// The stage the transfer is at.
    pub fn stage(&self) -> (s: Stage)
        ensures
            s == self@.stage,
    {
        self.stage
    }

    /// The content length the service declared; zero until the response arrived.
    pub fn total(&self) -> (n: u64)
        ensures
            n as nat == self@.total,
    {
        self.total
    }

    /// How many bytes have been written to the destination file so far.
    pub fn written_len(&self) -> (n: u64)
        requires
            self.wf(),
        ensures
            n as nat == self@.written.len(),
    {
        self.written_len
    }

    /// Whether a response (success or failure) has arrived for the fetch.
    pub fn fetched(&self) -> (b: bool)
        ensures
            b == self@.fetched,
    {
        self.fetched
    }

    /// Whether the destination file has been created.
    pub fn file_created(&self) -> (b: bool)
        ensures
            b == self@.file_created,
    {
        self.file_created
    }

    /// The error the transfer failed with, if it failed.
    pub fn error(&self) -> (r: &Option<DownloadError>)
        ensures
            match r {
                Some(e) => self@.error == Some(e@),
                None => self@.error is None,
            },
    {
        &self.error
    }

    /// Whether the machine can take `event` now. The runner checks this
    /// before each `step` call.
    pub fn can_accept(&self, event: &Event) -> (b: bool)
        requires
            self.wf(),
        ensures
            b == self@.accepts(event@),
    {
        match event {
            Event::ResponseOk { .. } => self.stage == Stage::AwaitingResponse,
            Event::ResponseNotFound => self.stage == Stage::AwaitingResponse,
            Event::ResponseAccessDenied => self.stage == Stage::AwaitingResponse,
            Event::ResponseService { .. } => self.stage == Stage::AwaitingResponse,
            Event::FileCreated => self.stage == Stage::CreatingFile,
            Event::FileCreateFailed { .. } => self.stage == Stage::CreatingFile,
            Event::ChunkWritten { data } => self.stage == Stage::WritingBody
                && data.len() as u64 <= self.total - self.written_len,
            Event::WriteFailed { .. } => self.stage == Stage::WritingBody,
            Event::StreamFailed { .. } => self.stage == Stage::WritingBody,
            Event::BodyEnd => self.stage == Stage::WritingBody,
        }
    }

    /// Takes one event and returns the next action: the verified heart of
    /// the download operation. The state moves exactly as the transition
    /// relation `TransferView::step` says.
    pub fn step(&mut self, event: Event) -> (action: Action)
        requires
            old(self).wf(),
            old(self)@.accepts(event@),
        ensures
            final(self).wf(),
            final(self)@ == old(self)@.step(event@),
            action == old(self)@.action_of(event@),
    {
        proof {
            lemma_step_preserves_inv(self@, event@);
        }
        match event {
            Event::ResponseOk { content_length } => {
                self.stage = Stage::CreatingFile;
                self.total = content_length;
                self.fetched = true;
                Action::CreateFile
            },
            Event::ResponseNotFound => {
                self.stage = Stage::Failed;
                self.fetched = true;
                self.error = Some(DownloadError::NotFound);
                Action::Report
            },
            Event::ResponseAccessDenied => {
                self.stage = Stage::Failed;
                self.fetched = true;
                self.error = Some(DownloadError::AccessDenied);
                Action::Report
            },
            Event::ResponseService { message } => {
                self.stage = Stage::Failed;
                self.fetched = true;
                self.error = Some(DownloadError::Service { message });
                Action::Report
            },
            Event::FileCreated => {
                self.stage = Stage::WritingBody;
                self.file_created = true;
                Action::ReadChunk
            },
            Event::FileCreateFailed { message } => {
                self.stage = Stage::Failed;
                self.error = Some(DownloadError::Io { message });
                Action::Report
            },
            Event::ChunkWritten { data } => {
                self.written_len = self.written_len + data.len() as u64;
                self.written = Ghost(self.written@ + data@);
                Action::ReadChunk
            },
            Event::WriteFailed { message } => {
                self.stage = Stage::Failed;
                self.error = Some(DownloadError::Io { message });
                Action::Report
            },
            Event::StreamFailed { message } => {
                self.stage = Stage::Failed;
                self.error = Some(DownloadError::Stream { message });
                Action::Report
            },
            Event::BodyEnd => {
                if self.written_len == self.total {
                    self.stage = Stage::Done;
                    Action::Finish
                } else {
                    self.stage = Stage::Failed;
                    self.error = Some(
                        DownloadError::Stream {
                            message: "response body ended before the declared content length"
                                .to_owned(),
                        },
                    );
                    Action::Report
                }
            },
        }
    }
}

} // verus!
