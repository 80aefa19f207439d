//! The decisions of a session's read loop: what each read of the byte
//! stream turns into, and when the stream is over.

use vstd::prelude::*;
use vstd::utf8::{decode_utf8, valid_utf8};

verus! {

/// What `String::from_utf8_lossy` of the standard library makes of bytes.
pub uninterp spec fn utf8_lossy(bytes: Seq<u8>) -> Seq<char>;

/// `String::from_utf8_lossy` of the standard library. The contract names
/// the result, and says what the documentation promises: bytes that are
/// valid UTF-8 are decoded as they stand.
#[verifier::external_body]
pub(crate) fn decode_lossy(bytes: &Vec<u8>) -> (text: String)
    ensures
        text@ == utf8_lossy(bytes@),
        valid_utf8(bytes@) ==> text@ == decode_utf8(bytes@),
{
    String::from_utf8_lossy(bytes).into_owned()
}

/// How a read of the stream came back.
#[derive(Debug, Clone, PartialEq, Eq)]
pub enum ReadOutcome {
    /// The read returned these bytes; none at all means end of stream.
    Read(Vec<u8>),
    /// Nothing is there to read right now.
    WouldBlock,
    /// The read failed with this message.
    Failed(String),
}

/// A read as plain values.
pub enum ReadView {
    Read(Seq<u8>),
    WouldBlock,
    Failed(Seq<char>),
}

impl ReadOutcome {
    /// The outcome as plain values.
    pub open spec fn as_view(self) -> ReadView {
        match self {
            ReadOutcome::Read(bytes) => ReadView::Read(bytes@),
            ReadOutcome::WouldBlock => ReadView::WouldBlock,
            ReadOutcome::Failed(message) => ReadView::Failed(message@),
        }
    }
}

/// Why a stream is over.
#[derive(Debug, Clone, PartialEq, Eq)]
pub enum ExitCause {
    /// The other side closed the stream.
    Closed,
    /// A read failed with this message.
    Failed(String),
}

/// A cause as plain values.
pub enum ExitCauseView {
    Closed,
    Failed(Seq<char>),
}

impl ExitCause {
    /// The cause as plain values.
    pub open spec fn as_view(self) -> ExitCauseView {
        match self {
            ExitCause::Closed => ExitCauseView::Closed,
            ExitCause::Failed(message) => ExitCauseView::Failed(message@),
        }
    }
}

/// What the read loop does after a read.
#[derive(Debug, Clone, PartialEq, Eq)]
pub enum StreamAction {
    /// Publish this text as output and read on.
    Emit(String),
    /// Wait a moment and read on.
    Wait,
    /// Publish the end of the session, release its identifier, and leave
    /// the loop.
    Exit(ExitCause),
    /// The end was published before: leave the loop and publish nothing.
    Stop,
}

/// How the loop goes on after an action.
#[derive(Debug, Clone, Copy, PartialEq, Eq, Structural)]
pub enum LoopNext {
    /// Read again at once.
    ReadOn,
    /// Wait a moment, then read again.
    Wait,
    /// Leave the loop.
    Leave,
}

/// An event that the loop publishes, as plain values.
pub enum StreamEvent {
    Output(Seq<char>),
    Exit(ExitCauseView),
}

impl StreamAction {
    /// How the loop goes on after the action.
    pub open spec fn next(self) -> LoopNext {
        match self {
            StreamAction::Emit(_) => LoopNext::ReadOn,
            StreamAction::Wait => LoopNext::Wait,
            StreamAction::Exit(_) => LoopNext::Leave,
            StreamAction::Stop => LoopNext::Leave,
        }
    }

    /// Tells how the loop goes on after the action.
    pub fn loop_next(&self) -> (next: LoopNext)
        ensures
            next == self.next(),
    {
        match self {
            StreamAction::Emit(_) => LoopNext::ReadOn,
            StreamAction::Wait => LoopNext::Wait,
            StreamAction::Exit(_) => LoopNext::Leave,
            StreamAction::Stop => LoopNext::Leave,
        }
    }

    /// The event that the action publishes, if any.
    pub open spec fn event(self) -> Option<StreamEvent> {
        match self {
            StreamAction::Emit(text) => Some(StreamEvent::Output(text@)),
            StreamAction::Exit(cause) => Some(StreamEvent::Exit(cause.as_view())),
            StreamAction::Wait => None,
            StreamAction::Stop => None,
        }
    }
}

/// Whether the read ends the stream: it failed, or it returned no bytes.
pub open spec fn ends_stream(read: ReadView) -> bool {
    match read {
        ReadView::Read(bytes) => bytes.len() == 0,
        ReadView::WouldBlock => false,
        ReadView::Failed(_) => true,
    }
}

/// The event that a read is published as while the stream is running.
pub open spec fn event_of(read: ReadView) -> Option<StreamEvent> {
    match read {
        ReadView::Read(bytes) => if bytes.len() == 0 {
            Some(StreamEvent::Exit(ExitCauseView::Closed))
        } else {
            Some(StreamEvent::Output(utf8_lossy(bytes)))
        },
        ReadView::WouldBlock => None,
        ReadView::Failed(message) => Some(StreamEvent::Exit(ExitCauseView::Failed(message))),
    }
}

/// How the loop goes on after a read.
pub open spec fn next_of(exited: bool, read: ReadView) -> LoopNext {
    if exited || ends_stream(read) {
        LoopNext::Leave
    } else if read is WouldBlock {
        LoopNext::Wait
    } else {
        LoopNext::ReadOn
    }
}

/// One step of the loop: whether the stream is over afterwards, and the
/// event published. Once the stream is over nothing is published.
pub open spec fn step(exited: bool, read: ReadView) -> (bool, Option<StreamEvent>) {
    if exited {
        (true, None)
    } else {
        (ends_stream(read), event_of(read))
    }
}

/// The events published for the reads, in order, from the given state.
pub open spec fn events_from(exited: bool, reads: Seq<ReadView>) -> Seq<StreamEvent>
    decreases reads.len(),
{
    if reads.len() == 0 {
        Seq::empty()
    } else {
        let (next, event) = step(exited, reads[0]);
        let rest = events_from(next, reads.drop_first());
        match event {
            Some(e) => seq![e] + rest,
            None => rest,
        }
    }
}

/// The events published for the reads of a session from its start.
pub open spec fn events(reads: Seq<ReadView>) -> Seq<StreamEvent> {
    events_from(false, reads)
}

/// For each published event, the index of the read it came from.
pub open spec fn sources_from(exited: bool, reads: Seq<ReadView>, base: int) -> Seq<int>
    decreases reads.len(),
{
    if reads.len() == 0 {
        Seq::empty()
    } else {
        let (next, event) = step(exited, reads[0]);
        let rest = sources_from(next, reads.drop_first(), base + 1);
        match event {
            Some(e) => seq![base] + rest,
            None => rest,
        }
    }
}

/// For each event of a session from its start, the index of the read it
/// came from.
pub open spec fn sources(reads: Seq<ReadView>) -> Seq<int> {
    sources_from(false, reads, 0)
}

/// Nothing is published once the stream is over.
pub proof fn lemma_silent_after_exit(reads: Seq<ReadView>)
    ensures
        events_from(true, reads) == Seq::<StreamEvent>::empty(),
    decreases reads.len(),
{
    if reads.len() > 0 {
        lemma_silent_after_exit(reads.drop_first());
    }
}

/// An exit event is the last event: nothing follows it, so there is at
/// most one.
pub proof fn lemma_exit_is_last(reads: Seq<ReadView>, i: int)
    requires
        0 <= i < events(reads).len(),
        events(reads)[i] is Exit,
    ensures
        i == events(reads).len() - 1,
    decreases reads.len(),
{
    if reads.len() > 0 {
        let rest = reads.drop_first();
        if ends_stream(reads[0]) {
            lemma_silent_after_exit(rest);
        } else {
            match event_of(reads[0]) {
                Some(e) => {
                    assert(events(reads) == seq![e] + events(rest));
                    assert(e is Output);
                    assert(events(reads)[i] == events(rest)[i - 1]);
                    lemma_exit_is_last(rest, i - 1);
                },
                None => {
                    lemma_exit_is_last(rest, i);
                },
            }
        }
    }
}

/// A session whose stream ended publishes exactly one exit event, as its
/// last event.
pub proof fn lemma_exit_exactly_once(reads: Seq<ReadView>, k: int)
    requires
        0 <= k < reads.len(),
        ends_stream(reads[k]),
    ensures
        events(reads).len() > 0,
        events(reads).last() is Exit,
        forall|i: int| 0 <= i < events(reads).len() - 1 ==> #[trigger] events(reads)[i] is Output,
    decreases reads.len(),
{
    let rest = reads.drop_first();
    if ends_stream(reads[0]) {
        lemma_silent_after_exit(rest);
        assert(events(reads) =~= seq![event_of(reads[0])->0]);
    } else {
        assert(k > 0);
        assert(rest[k - 1] == reads[k]);
        lemma_exit_exactly_once(rest, k - 1);
        match event_of(reads[0]) {
            Some(e) => {
                assert(events(reads) == seq![e] + events(rest));
                assert(events(reads).last() == events(rest).last());
                assert forall|i: int| 0 <= i < events(reads).len() - 1 implies #[trigger] events(
                    reads,
                )[i] is Output by {
                    if i > 0 {
                        assert(events(reads)[i] == events(rest)[i - 1]);
                    }
                }
            },
            None => {},
        }
    }
}

/// From any state on, events are published in the order in which the
/// bytes arrived; `base` is the index of the first of the reads.
pub proof fn lemma_events_in_arrival_order(exited: bool, reads: Seq<ReadView>, base: int)
    ensures
        sources_from(exited, reads, base).len() == events_from(exited, reads).len(),
        forall|i: int|
            0 <= i < events_from(exited, reads).len() ==> {
                let at = #[trigger] sources_from(exited, reads, base)[i] - base;
                &&& 0 <= at < reads.len()
                &&& event_of(reads[at]) == Some(events_from(exited, reads)[i])
            },
        forall|i: int, j: int|
            0 <= i < j < events_from(exited, reads).len() ==> #[trigger] sources_from(
                exited,
                reads,
                base,
            )[i] < #[trigger] sources_from(exited, reads, base)[j],
    decreases reads.len(),
{
    if reads.len() > 0 {
        let rest = reads.drop_first();
        let (next, event) = step(exited, reads[0]);
        lemma_events_in_arrival_order(next, rest, base + 1);
        let src = sources_from(exited, reads, base);
        let rsrc = sources_from(next, rest, base + 1);
        let ev = events_from(exited, reads);
        let rev = events_from(next, rest);
        match event {
            Some(e) => {
                assert(src == seq![base] + rsrc);
                assert(ev == seq![e] + rev);
                assert forall|i: int| 0 <= i < ev.len() implies {
                    let at = #[trigger] src[i] - base;
                    &&& 0 <= at < reads.len()
                    &&& event_of(reads[at]) == Some(ev[i])
                } by {
                    if i > 0 {
                        assert(src[i] == rsrc[i - 1]);
                        assert(ev[i] == rev[i - 1]);
                        let at = rsrc[i - 1] - (base + 1);
                        assert(rest[at] == reads[at + 1]);
                    }
                }
                assert forall|i: int, j: int| 0 <= i < j < ev.len() implies #[trigger] src[i]
                    < #[trigger] src[j] by {
                    assert(src[j] == rsrc[j - 1]);
                    let at = rsrc[j - 1] - (base + 1);
                    assert(0 <= at);
                    if i > 0 {
                        assert(src[i] == rsrc[i - 1]);
                    }
                }
            },
            None => {
                assert forall|i: int| 0 <= i < ev.len() implies {
                    let at = #[trigger] src[i] - base;
                    &&& 0 <= at < reads.len()
                    &&& event_of(reads[at]) == Some(ev[i])
                } by {
                    let at = rsrc[i] - (base + 1);
                    assert(rest[at] == reads[at + 1]);
                }
            },
        }
    }
}

/// The events of a session are published in the order in which its bytes
/// arrived: each event is the one of a read, and of two events the later
/// one comes from the later read.
pub proof fn lemma_output_in_arrival_order(reads: Seq<ReadView>)
    ensures
        sources(reads).len() == events(reads).len(),
        forall|i: int|
            0 <= i < events(reads).len() ==> {
                let at = #[trigger] sources(reads)[i];
                &&& 0 <= at < reads.len()
                &&& event_of(reads[at]) == Some(events(reads)[i])
            },
        forall|i: int, j: int|
            0 <= i < j < events(reads).len() ==> #[trigger] sources(reads)[i] < #[trigger] sources(
                reads,
            )[j],
{
    lemma_events_in_arrival_order(false, reads, 0);
}

/// The state of one session's read loop: whether its end was published.
#[derive(Debug, Clone)]
pub struct StreamReader {
    exited: bool,
}

impl StreamReader {
    /// Whether the end of the stream was published.
    pub closed spec fn is_over(&self) -> bool {
        self.exited
    }

    /// The loop of a session that has just started.
    pub fn new() -> (reader: StreamReader)
        ensures
            !reader.is_over(),
    {
        StreamReader { exited: false }
    }

    /// Tells whether the end of the stream was published.
    pub fn exited(&self) -> (b: bool)
        ensures
            b == self.is_over(),
    {
        self.exited
    }

    /// Decides what to do with text that was read and decoded.
    pub fn on_text(&mut self, text: String) -> (action: StreamAction)
        ensures
            final(self).is_over() == old(self).is_over(),
            action == (if old(self).is_over() {
                StreamAction::Stop
            } else {
                StreamAction::Emit(text)
            }),
    {
        if self.exited {
            StreamAction::Stop
        } else {
            StreamAction::Emit(text)
        }
    }

    /// Decides what to do at the end of the stream.
    pub fn on_end(&mut self, cause: ExitCause) -> (action: StreamAction)
        ensures
            final(self).is_over(),
            action == (if old(self).is_over() {
                StreamAction::Stop
            } else {
                StreamAction::Exit(cause)
            }),
    {
        if self.exited {
            StreamAction::Stop
        } else {
            self.exited = true;
            StreamAction::Exit(cause)
        }
    }

    /// Decides what to do after a read: bytes become output, no bytes or a
    /// failure end the stream, and a read that would block is waited
    /// out. After the end every read is answered with `Stop`.
    pub fn on_read(&mut self, outcome: ReadOutcome) -> (action: StreamAction)
        ensures
            final(self).is_over() == step(old(self).is_over(), outcome.as_view()).0,
            action.event() == step(old(self).is_over(), outcome.as_view()).1,
            action is Stop <==> old(self).is_over(),
            action.next() == next_of(old(self).is_over(), outcome.as_view()),
    {
        if self.exited {
            return StreamAction::Stop;
        }
        match outcome {
            ReadOutcome::Read(bytes) => {
                if bytes.len() == 0 {
                    self.on_end(ExitCause::Closed)
                } else {
                    let text = decode_lossy(&bytes);
                    self.on_text(text)
                }
            },
            ReadOutcome::WouldBlock => StreamAction::Wait,
            ReadOutcome::Failed(message) => self.on_end(ExitCause::Failed(message)),
        }
    }
}

} // verus!
