//! Sending request bodies over HTTP/2 streams.
use bytes::Bytes;
use monoio_http_client::client::stream_task::{
    StreamAction, StreamEvent, StreamStage, StreamState, StreamTask,
};
use monoio_http_client::common::body::StreamHint;

type Event = StreamEvent<&'static str, &'static str>;

fn task() -> StreamTask<&'static str, u32> {
    StreamTask::new("pipe", 5)
}

/// A task that has capacity and reads a hint.
fn hinted(hint: StreamHint) -> (StreamTask<&'static str, u32>, StreamAction) {
    let mut task = task();
    let _ = task.begin();
    assert!(matches!(task.drive(Event::Capacity(9)), StreamAction::PollReset));
    assert!(matches!(task.drive(Event::Reset(false)), StreamAction::ReadHint));
    let action = task.drive(Event::Hint(hint));
    (task, action)
}

fn chunk(text: &'static str) -> Event {
    StreamEvent::Data(Some(Ok(Bytes::from_static(text.as_bytes()))))
}

fn sent(action: StreamAction) -> (Bytes, bool) {
    match action {
        StreamAction::SendData { data, end_of_stream } => (data, end_of_stream),
        _ => panic!(),
    }
}

#[test]
fn new_task_reserves_capacity() {
    let task = task();
    assert_eq!(task.state, StreamState { data_done: false, stage: StreamStage::Capacity });
    assert_eq!(task.stream_pipe, "pipe");
    assert_eq!(task.body, 5);
    assert!(matches!(task.begin(), StreamAction::ReserveCapacity(1)));
}

#[test]
fn empty_body_is_one_empty_last_chunk() {
    let (mut task, action) = hinted(StreamHint::Empty);
    let (data, end) = sent(action);
    assert!(data.is_empty());
    assert!(end);
    assert!(task.state.data_done);
    assert!(matches!(task.drive(Event::Sent), StreamAction::PollReset));
    assert!(matches!(task.drive(Event::Reset(false)), StreamAction::Finish));
    assert_eq!(task.state.stage, StreamStage::Finished);
}

#[test]
fn fixed_body_is_one_last_chunk() {
    let (mut task, action) = hinted(StreamHint::Fixed);
    assert!(matches!(action, StreamAction::NextData));
    let (data, end) = sent(task.drive(chunk("all")));
    assert_eq!(data, Bytes::from_static(b"all"));
    assert!(end);
    assert!(matches!(task.drive(Event::Sent), StreamAction::PollReset));
    assert!(matches!(task.drive(Event::Reset(true)), StreamAction::Finish));
}

#[test]
fn fixed_body_without_data_is_tried_again() {
    let (mut task, _) = hinted(StreamHint::Fixed);
    assert!(matches!(task.drive(Event::Data(None)), StreamAction::ReserveCapacity(1)));
    assert!(!task.state.data_done);
    let (mut task, _) = hinted(StreamHint::Fixed);
    assert!(matches!(task.drive(Event::Data(Some(Err("bad")))), StreamAction::ReserveCapacity(1)));
}

#[test]
fn streamed_bytes_are_relayed_in_order() {
    let (mut task, mut action) = hinted(StreamHint::Stream);
    let mut bytes: Vec<u8> = vec![];
    let mut reserved = 1;
    let mut sends = 0;
    let mut chunks = vec!["ab", "", "cde"].into_iter();
    let mut ended = false;
    loop {
        action = match action {
            StreamAction::ReserveCapacity(bytes) => {
                assert_eq!(bytes, 1);
                assert!(!ended);
                reserved += 1;
                task.drive(Event::Capacity(1))
            }
            StreamAction::PollReset => task.drive(Event::Reset(false)),
            StreamAction::ReadHint => task.drive(Event::Hint(StreamHint::Stream)),
            StreamAction::NextData => match chunks.next() {
                Some(text) => task.drive(chunk(text)),
                None => task.drive(Event::Data(None)),
            },
            StreamAction::SendData { data, end_of_stream } => {
                assert!(!ended);
                assert!(reserved > sends);
                ended = end_of_stream;
                bytes.extend_from_slice(&data);
                sends += 1;
                task.drive(Event::Sent)
            }
            StreamAction::Finish => break,
            StreamAction::PollCapacity => panic!(),
        };
    }
    assert_eq!(bytes, b"abcde");
    assert_eq!(sends, 4);
    assert_eq!(reserved, 4);
    assert!(ended);
    assert_eq!(task.state, StreamState { data_done: true, stage: StreamStage::Finished });
}

#[test]
fn failed_chunk_ends_a_stream() {
    let (mut task, _) = hinted(StreamHint::Stream);
    let (data, end) = sent(task.drive(Event::Data(Some(Err("bad")))));
    assert!(data.is_empty());
    assert!(end);
    assert!(task.state.data_done);
}

#[test]
fn without_capacity_the_task_waits_for_it() {
    let mut task = task();
    assert!(matches!(task.drive(Event::Capacity(0)), StreamAction::PollCapacity));
    assert!(matches!(task.drive(Event::MoreCapacity(Some(Ok(0)))), StreamAction::PollCapacity));
    assert!(matches!(task.drive(Event::MoreCapacity(Some(Ok(1)))), StreamAction::ReadHint));
}

#[test]
fn the_peer_stops_a_task() {
    let mut first = task();
    let _ = first.drive(Event::Capacity(0));
    assert!(matches!(first.drive(Event::MoreCapacity(Some(Err("gone")))), StreamAction::Finish));
    let mut second = task();
    let _ = second.drive(Event::Capacity(0));
    assert!(matches!(second.drive(Event::MoreCapacity(None)), StreamAction::Finish));
    let mut third = task();
    let _ = third.drive(Event::Capacity(3));
    assert!(matches!(third.drive(Event::Reset(true)), StreamAction::Finish));
    assert!(!third.state.data_done);
    assert_eq!(third.state.stage, StreamStage::Finished);
}
