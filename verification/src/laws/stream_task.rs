//! Laws on sending a request body over an HTTP/2 stream.
use bytes::Bytes;
use vstd::prelude::*;

use crate::client::stream_task::{
    StreamAction, StreamEvent, StreamStage, StreamState, StreamTask,
};
use crate::common::body::StreamHint;

verus! {

/// Whether an action sends these bytes; with `end`, as the last.
pub open spec fn is_sending(action: StreamAction, bytes: Seq<u8>, end: bool) -> bool {
    action matches StreamAction::SendData { data, end_of_stream } && crate::trusted::bytes_content(
        data,
    ) == bytes && end_of_stream == end
}

/// A new task has its stream and its body, and has sent nothing. It begins by reserving one byte.
pub proof fn law_task_begins<W, B>(stream_pipe: W, body: B)
    ensures
        forall|task: StreamTask<W, B>| #[trigger]
            call_ensures(StreamTask::<W, B>::new, (stream_pipe, body), task) ==> {
                &&& task.stream_pipe == stream_pipe
                &&& task.body == body
                &&& !task.state.data_done
                &&& task.state.stage is Capacity
                &&& call_requires(StreamTask::<W, B>::begin, (&task,))
            },
        forall|task: StreamTask<W, B>, action: StreamAction| #[trigger]
            call_ensures(StreamTask::<W, B>::begin, (&task,), action) ==> action
                == StreamAction::ReserveCapacity(1),
{
}

/// With capacity the task looks whether the stream was reset; without, it waits for some, for as
/// long as there is none, and stops where there will be none.
pub proof fn law_task_waits_for_capacity<W, B, P, E>(n: usize, e: P)
    ensures
        forall|task: &mut StreamTask<W, B>|
            task.state.stage is Capacity ==> #[trigger] call_requires(
                StreamTask::<W, B>::drive::<P, E>,
                (task, StreamEvent::<P, E>::Capacity(n)),
            ),
        forall|task: &mut StreamTask<W, B>, capacity: Option<Result<usize, P>>|
            task.state.stage is MoreCapacity ==> #[trigger] call_requires(
                StreamTask::<W, B>::drive::<P, E>,
                (task, StreamEvent::<P, E>::MoreCapacity(capacity)),
            ),
        forall|task: &mut StreamTask<W, B>, action: StreamAction|
            task.state.stage is Capacity && #[trigger] call_ensures(
                StreamTask::<W, B>::drive::<P, E>,
                (task, StreamEvent::<P, E>::Capacity(n)),
                action,
            ) ==> {
                &&& n > 0 ==> action is PollReset && final(task).state.stage is Reset
                &&& n == 0 ==> action is PollCapacity && final(task).state.stage is MoreCapacity
                &&& final(task).state.data_done == task.state.data_done
            },
        forall|task: &mut StreamTask<W, B>, action: StreamAction|
            task.state.stage is MoreCapacity && #[trigger] call_ensures(
                StreamTask::<W, B>::drive::<P, E>,
                (task, StreamEvent::<P, E>::MoreCapacity(Some(Ok(n)))),
                action,
            ) ==> {
                &&& n > 0 ==> action is ReadHint && final(task).state.stage is Hint
                &&& n == 0 ==> action is PollCapacity && final(task).state.stage is MoreCapacity
                &&& final(task).state.data_done == task.state.data_done
            },
        forall|task: &mut StreamTask<W, B>, action: StreamAction|
            task.state.stage is MoreCapacity && #[trigger] call_ensures(
                StreamTask::<W, B>::drive::<P, E>,
                (task, StreamEvent::<P, E>::MoreCapacity(Some(Err(e)))),
                action,
            ) ==> action is Finish && final(task).state.stage is Finished,
        forall|task: &mut StreamTask<W, B>, action: StreamAction|
            task.state.stage is MoreCapacity && #[trigger] call_ensures(
                StreamTask::<W, B>::drive::<P, E>,
                (task, StreamEvent::<P, E>::MoreCapacity(None)),
                action,
            ) ==> action is Finish && final(task).state.stage is Finished,
{
}

/// A stream that was reset is given up. One that was not is served, and left once all was sent.
pub proof fn law_task_heeds_the_reset<W, B, P, E>()
    ensures
        forall|task: &mut StreamTask<W, B>, reset: bool|
            task.state.stage is Reset || task.state.stage is LastReset ==> #[trigger] call_requires(
                StreamTask::<W, B>::drive::<P, E>,
                (task, StreamEvent::<P, E>::Reset(reset)),
            ),
        forall|task: &mut StreamTask<W, B>, action: StreamAction|
            task.state.stage is Reset && #[trigger] call_ensures(
                StreamTask::<W, B>::drive::<P, E>,
                (task, StreamEvent::<P, E>::Reset(false)),
                action,
            ) ==> {
                &&& action is ReadHint
                &&& final(task).state.stage is Hint
                &&& final(task).state.data_done == task.state.data_done
            },
        forall|task: &mut StreamTask<W, B>, action: StreamAction|
            task.state.stage is Reset && #[trigger] call_ensures(
                StreamTask::<W, B>::drive::<P, E>,
                (task, StreamEvent::<P, E>::Reset(true)),
                action,
            ) ==> action is Finish && final(task).state.stage is Finished,
        forall|task: &mut StreamTask<W, B>, reset: bool, action: StreamAction|
            task.state.stage is LastReset && #[trigger] call_ensures(
                StreamTask::<W, B>::drive::<P, E>,
                (task, StreamEvent::<P, E>::Reset(reset)),
                action,
            ) ==> action is Finish && final(task).state.stage is Finished,
{
}

/// A body that hints at no data ends the stream at once, with no bytes. Of any other, a chunk is
/// fetched: the only one, or the next.
pub proof fn law_task_heeds_the_hint<W, B, P, E>()
    ensures
        forall|task: &mut StreamTask<W, B>, hint: StreamHint|
            task.state.stage is Hint ==> #[trigger] call_requires(
                StreamTask::<W, B>::drive::<P, E>,
                (task, StreamEvent::<P, E>::Hint(hint)),
            ),
        forall|task: &mut StreamTask<W, B>, action: StreamAction|
            task.state.stage is Hint && #[trigger] call_ensures(
                StreamTask::<W, B>::drive::<P, E>,
                (task, StreamEvent::<P, E>::Hint(StreamHint::Empty)),
                action,
            ) ==> {
                &&& is_sending(action, Seq::empty(), true)
                &&& final(task).state.stage is Sending
                &&& final(task).state.data_done
            },
        forall|task: &mut StreamTask<W, B>, action: StreamAction|
            task.state.stage is Hint && #[trigger] call_ensures(
                StreamTask::<W, B>::drive::<P, E>,
                (task, StreamEvent::<P, E>::Hint(StreamHint::Fixed)),
                action,
            ) ==> {
                &&& action is NextData
                &&& final(task).state.stage is FixedData
                &&& final(task).state.data_done == task.state.data_done
            },
        forall|task: &mut StreamTask<W, B>, action: StreamAction|
            task.state.stage is Hint && #[trigger] call_ensures(
                StreamTask::<W, B>::drive::<P, E>,
                (task, StreamEvent::<P, E>::Hint(StreamHint::Stream)),
                action,
            ) ==> {
                &&& action is NextData
                &&& final(task).state.stage is StreamData
                &&& final(task).state.data_done == task.state.data_done
            },
{
}

/// Each chunk is sent as it came, whatever its bytes: the only one ends the stream, one of many
/// leaves it open.
pub proof fn law_task_sends_the_chunk<W, B, P, E>(data: Bytes)
    ensures
        forall|task: &mut StreamTask<W, B>, chunk: Option<Result<Bytes, E>>|
            task.state.stage is FixedData || task.state.stage is StreamData
                ==> #[trigger] call_requires(
                StreamTask::<W, B>::drive::<P, E>,
                (task, StreamEvent::<P, E>::Data(chunk)),
            ),
        forall|task: &mut StreamTask<W, B>, action: StreamAction|
            task.state.stage is FixedData && #[trigger] call_ensures(
                StreamTask::<W, B>::drive::<P, E>,
                (task, StreamEvent::<P, E>::Data(Some(Ok(data)))),
                action,
            ) ==> {
                &&& is_sending(action, crate::trusted::bytes_content(data), true)
                &&& final(task).state.stage is Sending
                &&& final(task).state.data_done
            },
        forall|task: &mut StreamTask<W, B>, action: StreamAction|
            task.state.stage is StreamData && #[trigger] call_ensures(
                StreamTask::<W, B>::drive::<P, E>,
                (task, StreamEvent::<P, E>::Data(Some(Ok(data)))),
                action,
            ) ==> {
                &&& is_sending(action, crate::trusted::bytes_content(data), false)
                &&& final(task).state.stage is Sending
                &&& final(task).state.data_done == task.state.data_done
            },
{
}

/// Where many chunks were hinted at, the end of the body, or an error of it, ends the stream with no
/// bytes. Where one was, and there is none, it is sought again.
pub proof fn law_task_ends_with_the_body<W, B, P, E>(data: Option<Result<Bytes, E>>)
    requires
        !(data matches Some(Ok(_))),
    ensures
        forall|task: &mut StreamTask<W, B>, action: StreamAction|
            task.state.stage is StreamData && #[trigger] call_ensures(
                StreamTask::<W, B>::drive::<P, E>,
                (task, StreamEvent::<P, E>::Data(data)),
                action,
            ) ==> {
                &&& is_sending(action, Seq::empty(), true)
                &&& final(task).state.stage is Sending
                &&& final(task).state.data_done
            },
        forall|task: &mut StreamTask<W, B>, action: StreamAction|
            task.state.stage is FixedData && !task.state.data_done && #[trigger] call_ensures(
                StreamTask::<W, B>::drive::<P, E>,
                (task, StreamEvent::<P, E>::Data(data)),
                action,
            ) ==> {
                &&& action == StreamAction::ReserveCapacity(1)
                &&& final(task).state.stage is Capacity
                &&& !final(task).state.data_done
            },
{
}

/// After a chunk, one byte is reserved for the next; after the last, the stream is looked at once
/// more.
pub proof fn law_task_goes_on<W, B, P, E>()
    ensures
        forall|task: &mut StreamTask<W, B>|
            task.state.stage is Sending ==> #[trigger] call_requires(
                StreamTask::<W, B>::drive::<P, E>,
                (task, StreamEvent::<P, E>::Sent),
            ),
        forall|task: &mut StreamTask<W, B>, action: StreamAction|
            task.state.stage is Sending && #[trigger] call_ensures(
                StreamTask::<W, B>::drive::<P, E>,
                (task, StreamEvent::<P, E>::Sent),
                action,
            ) ==> {
                &&& !task.state.data_done ==> action == StreamAction::ReserveCapacity(1) && final(task).state.stage is Capacity
                &&& task.state.data_done ==> action is PollReset && final(task).state.stage is LastReset
                &&& final(task).state.data_done == task.state.data_done
            },
{
}

/// Whatever is answered, the task has the same stream and the same body, and does the same as its
/// state alone would.
pub proof fn law_task_keeps_its_ends<W, B, P, E>(event: StreamEvent<P, E>)
    ensures
        forall|task: &mut StreamTask<W, B>, action: StreamAction| #[trigger]
            call_ensures(StreamTask::<W, B>::drive::<P, E>, (task, event), action) ==> final(task).stream_pipe == task.stream_pipe && final(task).body == task.body,
        forall|
            task: &mut StreamTask<W, B>,
            state: &mut StreamState,
            action: StreamAction,
            other: StreamAction,
        |
            task.state == *state && #[trigger] call_ensures(
                StreamTask::<W, B>::drive::<P, E>,
                (task, event),
                action,
            ) && #[trigger] call_ensures(StreamState::step::<P, E>, (state, event), other) ==> final(task).state == *final(state) && action@ == other@,
{
}

} // verus!
