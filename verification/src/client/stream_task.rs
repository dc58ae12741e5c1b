//! Sending a request body over an HTTP/2 stream.
//!
//! The stream and the body are awaited outside; [`StreamTask`] decides what to do next from what
//! they answer.
use bytes::Bytes;
use vstd::prelude::*;

use crate::common::body::StreamHint;

verus! {

/// The answer that the task waits for.
#[derive(Debug, Clone, Copy, PartialEq, Eq, Structural)]
pub enum StreamStage {
    /// How much may be sent, after one byte was reserved.
    Capacity,
    /// New capacity, there being none.
    MoreCapacity,
    /// Whether the peer has reset the stream, before data is fetched.
    Reset,
    /// The hint of the body.
    Hint,
    /// The only chunk of the body.
    FixedData,
    /// The next of many chunks of the body.
    StreamData,
    /// The end of a send.
    Sending,
    /// Whether the peer has reset the stream, after all data was sent.
    LastReset,
    /// Nothing: the task is over.
    Finished,
}

/// How far a [`StreamTask`] has come.
#[derive(Debug, Clone, Copy, PartialEq, Eq, Structural)]
pub struct StreamState {
    pub data_done: bool,
    pub stage: StreamStage,
}

/// An answer to a [`StreamAction`]. `P` is the error type of the stream, `E` that of the body.
pub enum StreamEvent<P, E> {
    /// The capacity of the stream.
    Capacity(usize),
    /// New capacity; nothing where the stream no longer sends.
    MoreCapacity(Option<Result<usize, P>>),
    /// Whether the peer has reset the stream.
    Reset(bool),
    /// The hint of the body.
    Hint(StreamHint),
    /// The next chunk of the body; nothing at its end.
    Data(Option<Result<Bytes, E>>),
    /// The send is over, well or not.
    Sent,
}

/// What is to be done with the stream or the body.
pub enum StreamAction {
    /// Reserve so many bytes and read the capacity.
    ReserveCapacity(usize),
    /// Wait for capacity.
    PollCapacity,
    /// Look whether the peer has reset the stream, without waiting.
    PollReset,
    /// Read the hint of the body.
    ReadHint,
    /// Wait for the next chunk of the body.
    NextData,
    /// Send a chunk. Whether that works is not asked.
    SendData { data: Bytes, end_of_stream: bool },
    /// Stop.
    Finish,
}

/// A [`StreamAction`], its data taken for the bytes that it holds.
pub ghost enum StreamActionView {
    ReserveCapacity(nat),
    PollCapacity,
    PollReset,
    ReadHint,
    NextData,
    SendData(Seq<u8>, bool),
    Finish,
}

impl View for StreamAction {
    type V = StreamActionView;

    open spec fn view(&self) -> StreamActionView {
        match self {
            StreamAction::ReserveCapacity(bytes) => StreamActionView::ReserveCapacity(
                *bytes as nat,
            ),
            StreamAction::PollCapacity => StreamActionView::PollCapacity,
            StreamAction::PollReset => StreamActionView::PollReset,
            StreamAction::ReadHint => StreamActionView::ReadHint,
            StreamAction::NextData => StreamActionView::NextData,
            StreamAction::SendData { data, end_of_stream } => StreamActionView::SendData(
                crate::trusted::bytes_content(*data),
                *end_of_stream,
            ),
            StreamAction::Finish => StreamActionView::Finish,
        }
    }
}

impl StreamState {
    /// The state of a task that has done nothing yet, but for reserving capacity.
    pub open spec fn initial() -> StreamState {
        StreamState { data_done: false, stage: StreamStage::Capacity }
    }

    /// Whether `event` answers what the task waits for.
    pub open spec fn awaits<P, E>(self, event: StreamEvent<P, E>) -> bool {
        match event {
            StreamEvent::Capacity(_) => self.stage == StreamStage::Capacity,
            StreamEvent::MoreCapacity(_) => self.stage == StreamStage::MoreCapacity,
            StreamEvent::Reset(_) => self.stage == StreamStage::Reset || self.stage
                == StreamStage::LastReset,
            StreamEvent::Hint(_) => self.stage == StreamStage::Hint,
            StreamEvent::Data(_) => self.stage == StreamStage::FixedData || self.stage
                == StreamStage::StreamData,
            StreamEvent::Sent => self.stage == StreamStage::Sending,
        }
    }

    /// The state with another stage.
    pub open spec fn at(self, stage: StreamStage) -> StreamState {
        StreamState { stage, ..self }
    }

    /// A chunk goes out; with `end`, it is the last.
    pub open spec fn sending(self, data: Seq<u8>, end: bool) -> (StreamState, StreamActionView) {
        (
            StreamState { data_done: self.data_done || end, stage: StreamStage::Sending },
            StreamActionView::SendData(data, end),
        )
    }

    /// One chunk is dealt with: on to the next, or to a last look at the stream.
    pub open spec fn again(self) -> (StreamState, StreamActionView) {
        if self.data_done {
            (self.at(StreamStage::LastReset), StreamActionView::PollReset)
        } else {
            (self.at(StreamStage::Capacity), StreamActionView::ReserveCapacity(1))
        }
    }

    /// The task is over.
    pub open spec fn over(self) -> (StreamState, StreamActionView) {
        (self.at(StreamStage::Finished), StreamActionView::Finish)
    }

    /// What an awaited event leads to.
    pub open spec fn after<P, E>(self, event: StreamEvent<P, E>) -> (
        StreamState,
        StreamActionView,
    ) {
        match event {
            StreamEvent::Capacity(n) => if n == 0 {
                (self.at(StreamStage::MoreCapacity), StreamActionView::PollCapacity)
            } else {
                (self.at(StreamStage::Reset), StreamActionView::PollReset)
            },
            StreamEvent::MoreCapacity(Some(Ok(n))) => if n == 0 {
                (self, StreamActionView::PollCapacity)
            } else {
                (self.at(StreamStage::Hint), StreamActionView::ReadHint)
            },
            StreamEvent::MoreCapacity(_) => self.over(),
            StreamEvent::Reset(reset) => if reset || self.stage == StreamStage::LastReset {
                self.over()
            } else {
                (self.at(StreamStage::Hint), StreamActionView::ReadHint)
            },
            StreamEvent::Hint(StreamHint::Empty) => self.sending(Seq::empty(), true),
            StreamEvent::Hint(StreamHint::Fixed) => (
                self.at(StreamStage::FixedData),
                StreamActionView::NextData,
            ),
            StreamEvent::Hint(StreamHint::Stream) => (
                self.at(StreamStage::StreamData),
                StreamActionView::NextData,
            ),
            StreamEvent::Data(Some(Ok(data))) => self.sending(
                crate::trusted::bytes_content(data),
                self.stage == StreamStage::FixedData,
            ),
            StreamEvent::Data(_) => if self.stage == StreamStage::FixedData {
                self.again()
            } else {
                self.sending(Seq::empty(), true)
            },
            StreamEvent::Sent => self.again(),
        }
    }

    /// One chunk is dealt with.
    fn again_exec(&mut self) -> (action: StreamAction)
        ensures
            (*final(self), action@) == old(self).again(),
    {
        if self.data_done {
            self.stage = StreamStage::LastReset;
            StreamAction::PollReset
        } else {
            self.stage = StreamStage::Capacity;
            StreamAction::ReserveCapacity(1)
        }
    }

    /// Takes the answer to the action before, and says what to do next.
    pub fn step<P, E>(&mut self, event: StreamEvent<P, E>) -> (action: StreamAction)
        requires
            old(self).awaits(event),
        ensures
            (*final(self), action@) == old(self).after(event),
    {
        match event {
            StreamEvent::Capacity(n) => {
                if n == 0 {
                    self.stage = StreamStage::MoreCapacity;
                    StreamAction::PollCapacity
                } else {
                    self.stage = StreamStage::Reset;
                    StreamAction::PollReset
                }
            },
            StreamEvent::MoreCapacity(Some(Ok(n))) => {
                if n == 0 {
                    StreamAction::PollCapacity
                } else {
                    self.stage = StreamStage::Hint;
                    StreamAction::ReadHint
                }
            },
            StreamEvent::MoreCapacity(_) => {
                self.stage = StreamStage::Finished;
                StreamAction::Finish
            },
            StreamEvent::Reset(reset) => {
                if reset || self.stage == StreamStage::LastReset {
                    self.stage = StreamStage::Finished;
                    StreamAction::Finish
                } else {
                    self.stage = StreamStage::Hint;
                    StreamAction::ReadHint
                }
            },
            StreamEvent::Hint(StreamHint::Empty) => {
                self.stage = StreamStage::Sending;
                self.data_done = true;
                StreamAction::SendData { data: Bytes::new(), end_of_stream: true }
            },
            StreamEvent::Hint(StreamHint::Fixed) => {
                self.stage = StreamStage::FixedData;
                StreamAction::NextData
            },
            StreamEvent::Hint(StreamHint::Stream) => {
                self.stage = StreamStage::StreamData;
                StreamAction::NextData
            },
            StreamEvent::Data(Some(Ok(data))) => {
                let end_of_stream = self.stage == StreamStage::FixedData;
                self.stage = StreamStage::Sending;
                self.data_done = self.data_done || end_of_stream;
                StreamAction::SendData { data, end_of_stream }
            },
            StreamEvent::Data(_) => {
                if self.stage == StreamStage::FixedData {
                    self.again_exec()
                } else {
                    self.stage = StreamStage::Sending;
                    self.data_done = true;
                    StreamAction::SendData { data: Bytes::new(), end_of_stream: true }
                }
            },
            StreamEvent::Sent => self.again_exec(),
        }
    }
}

/// Sends a request body over an HTTP/2 stream. `W` is the stream, `B` the body.
pub struct StreamTask<W, B> {
    pub stream_pipe: W,
    pub body: B,
    pub state: StreamState,
}

impl<W, B> StreamTask<W, B> {
    pub fn new(stream_pipe: W, body: B) -> (task: Self)
        ensures
            task == (StreamTask { stream_pipe, body, state: StreamState::initial() }),
    {
        StreamTask {
            stream_pipe,
            body,
            state: StreamState { data_done: false, stage: StreamStage::Capacity },
        }
    }

    /// The first thing to do with the stream.
    pub fn begin(&self) -> (action: StreamAction)
        requires
            self.state == StreamState::initial(),
        ensures
            action@ == StreamActionView::ReserveCapacity(1),
    {
        StreamAction::ReserveCapacity(1)
    }

    /// Drives the task on: takes the answer to the action before, and says what to do next.
    pub fn drive<P, E>(&mut self, event: StreamEvent<P, E>) -> (action: StreamAction)
        requires
            old(self).state.awaits(event),
        ensures
            (final(self).state, action@) == old(self).state.after(event),
            final(self).stream_pipe == old(self).stream_pipe,
            final(self).body == old(self).body,
    {
        self.state.step(event)
    }
}

/// The state of a task after it was given `events`.
pub open spec fn state_after<P, E>(events: Seq<StreamEvent<P, E>>) -> StreamState
    decreases events.len(),
{
    if events.len() == 0 {
        StreamState::initial()
    } else {
        state_after(events.drop_last()).after(events.last()).0
    }
}

/// All that a task asked for until it was given `events`, the first action included.
pub open spec fn actions_of<P, E>(events: Seq<StreamEvent<P, E>>) -> Seq<StreamActionView>
    decreases events.len(),
{
    if events.len() == 0 {
        seq![StreamActionView::ReserveCapacity(1)]
    } else {
        actions_of(events.drop_last()).push(
            state_after(events.drop_last()).after(events.last()).1,
        )
    }
}

/// Whether each of `events` answers the action before it.
pub open spec fn is_history<P, E>(events: Seq<StreamEvent<P, E>>) -> bool
    decreases events.len(),
{
    events.len() > 0 ==> {
        &&& is_history(events.drop_last())
        &&& state_after(events.drop_last()).awaits(events.last())
    }
}

/// The bytes that the body yielded.
pub open spec fn bytes_yielded<P, E>(events: Seq<StreamEvent<P, E>>) -> Seq<u8>
    decreases events.len(),
{
    if events.len() == 0 {
        Seq::empty()
    } else {
        bytes_yielded(events.drop_last()) + (match events.last() {
            StreamEvent::Data(Some(Ok(data))) => crate::trusted::bytes_content(data),
            _ => Seq::empty(),
        })
    }
}

/// The bytes that were handed to the stream.
pub open spec fn bytes_sent(actions: Seq<StreamActionView>) -> Seq<u8>
    decreases actions.len(),
{
    if actions.len() == 0 {
        Seq::empty()
    } else {
        bytes_sent(actions.drop_last()) + (match actions.last() {
            StreamActionView::SendData(data, _) => data,
            _ => Seq::empty(),
        })
    }
}

/// Whether capacity was reserved before the action at `j`, and nothing was sent since.
pub open spec fn is_reserved(actions: Seq<StreamActionView>, j: int) -> bool {
    exists|i: int|
        {
            &&& 0 <= i < j
            &&& #[trigger] actions[i] is ReserveCapacity
            &&& forall|k: int| i < k < j ==> !(#[trigger] actions[k] is SendData)
        }
}

/// Whether an action sends the last chunk.
pub open spec fn ends_stream(action: StreamActionView) -> bool {
    action matches StreamActionView::SendData(_, end) && end
}

/// The stream is ended at most once, and no chunk is sent after its end. The task knows that it
/// is done with the data exactly when it has ended the stream.
pub proof fn law_stream_ends_once<P, E>(events: Seq<StreamEvent<P, E>>)
    requires
        is_history(events),
    ensures
        forall|i: int, j: int|
            0 <= i < j < actions_of(events).len() && ends_stream(#[trigger] actions_of(events)[i])
                ==> !(#[trigger] actions_of(events)[j] is SendData),
        state_after(events).data_done <==> exists|i: int|
            0 <= i < actions_of(events).len() && ends_stream(#[trigger] actions_of(events)[i]),
        state_after(events).data_done ==> (state_after(events).stage is Sending || state_after(
            events,
        ).stage is LastReset || state_after(events).stage is Finished),
    decreases events.len(),
{
    if events.len() > 0 {
        let before = events.drop_last();
        law_stream_ends_once(before);
        let old_actions = actions_of(before);
        let new_actions = actions_of(events);
        assert forall|i: int| 0 <= i < old_actions.len() implies #[trigger] new_actions[i]
            == old_actions[i] by {}
        if state_after(events).data_done && !state_after(before).data_done {
            assert(ends_stream(new_actions[old_actions.len() as int]));
        }
        if state_after(before).data_done {
            let i = choose|i: int| 0 <= i < old_actions.len() && ends_stream(old_actions[i]);
            assert(ends_stream(new_actions[i]));
        }
    }
}

/// The stream gets the bytes that the body yields: all of them, in order, and no others.
pub proof fn law_bytes_relayed<P, E>(events: Seq<StreamEvent<P, E>>)
    requires
        is_history(events),
    ensures
        bytes_sent(actions_of(events)) == bytes_yielded(events),
    decreases events.len(),
{
    if events.len() == 0 {
        reveal_with_fuel(bytes_sent, 2);
        assert(seq![StreamActionView::ReserveCapacity(1)].drop_last() =~= Seq::empty());
    } else {
        let before = events.drop_last();
        law_bytes_relayed(before);
        assert(actions_of(events).drop_last() =~= actions_of(before));
    }
}

/// Each time that a chunk is fetched or sent, capacity was reserved since the last one was sent, and
/// so it is at any time while a chunk is sought. What is reserved is one byte, and nothing is
/// reserved once the stream was ended.
pub proof fn law_capacity_reserved<P, E>(events: Seq<StreamEvent<P, E>>)
    requires
        is_history(events),
    ensures
        actions_of(events).len() == events.len() + 1,
        forall|j: int|
            0 <= j < actions_of(events).len() && (#[trigger] actions_of(events)[j] is NextData
                || actions_of(events)[j] is SendData) ==> is_reserved(actions_of(events), j),
        forall|j: int|
            0 <= j < actions_of(events).len() && #[trigger] actions_of(events)[j] is ReserveCapacity
                ==> actions_of(events)[j] == StreamActionView::ReserveCapacity(1),
        forall|i: int, j: int|
            0 <= i < j < actions_of(events).len() && ends_stream(#[trigger] actions_of(events)[i])
                ==> !(#[trigger] actions_of(events)[j] is ReserveCapacity),
        !(state_after(events).stage is Sending || state_after(events).stage is LastReset
            || state_after(events).stage is Finished) ==> is_reserved(
            actions_of(events),
            actions_of(events).len() as int,
        ),
    decreases events.len(),
{
    let actions = actions_of(events);
    if events.len() == 0 {
        assert(actions[0] is ReserveCapacity);
    } else {
        let before = events.drop_last();
        let old_actions = actions_of(before);
        law_capacity_reserved(before);
        law_stream_ends_once(before);
        assert forall|i: int| 0 <= i < old_actions.len() implies #[trigger] actions[i]
            == old_actions[i] by {}
        assert forall|j: int| 0 <= j <= old_actions.len() && is_reserved(
            old_actions,
            j,
        ) implies #[trigger] is_reserved(actions, j) by {
            let i = choose|i: int|
                {
                    &&& 0 <= i < j
                    &&& #[trigger] old_actions[i] is ReserveCapacity
                    &&& forall|k: int| i < k < j ==> !(#[trigger] old_actions[k] is SendData)
                };
            assert(actions[i] is ReserveCapacity);
        }
        let last = old_actions.len() as int;
        if actions[last] is ReserveCapacity {
            assert(is_reserved(actions, last + 1));
        } else if is_reserved(actions, last) && !(actions[last] is SendData) {
            let i = choose|i: int|
                {
                    &&& 0 <= i < last
                    &&& #[trigger] actions[i] is ReserveCapacity
                    &&& forall|k: int| i < k < last ==> !(#[trigger] actions[k] is SendData)
                };
            assert(actions[i] is ReserveCapacity);
            assert(is_reserved(actions, last + 1));
        }
    }
}

/// A task that stops without ending the stream was stopped by the peer: the stream was reset, or
/// it gave no more capacity.
pub proof fn law_unended_only_by_peer<P, E>(events: Seq<StreamEvent<P, E>>)
    requires
        is_history(events),
        state_after(events).stage is Finished,
        !state_after(events).data_done,
    ensures
        events.len() > 0,
        events.last() matches StreamEvent::Reset(true) || (events.last()
            matches StreamEvent::MoreCapacity(capacity) && !(capacity matches Some(Ok(_)))),
{
    let before = events.drop_last();
    if state_after(before).stage is LastReset {
        lemma_last_reset_done(before);
    }
}

/// The last look at the stream comes only after its end.
proof fn lemma_last_reset_done<P, E>(events: Seq<StreamEvent<P, E>>)
    requires
        is_history(events),
        state_after(events).stage is LastReset,
    ensures
        state_after(events).data_done,
{
}

/// A task asks for nothing after it has finished, and waits for no answer.
pub proof fn law_finish_is_final<P, E>(events: Seq<StreamEvent<P, E>>, event: StreamEvent<P, E>)
    requires
        is_history(events),
    ensures
        actions_of(events).last() is Finish <==> state_after(events).stage is Finished,
        state_after(events).stage is Finished ==> !is_history(events.push(event)),
    decreases events.len(),
{
    assert(events.push(event).drop_last() =~= events);
    if events.len() > 0 {
        law_finish_is_final(events.drop_last(), event);
    }
}

} // verus!
