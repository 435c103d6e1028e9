use tunio::frame::truncated_prefix;
use tunio::queue::read_frame;
use tunio::queue::read_from_attempt;
use tunio::queue::ReadOutcome;
use tunio::queue::RecvAttempt;

fn data_bytes(outcome: ReadOutcome) -> Vec<u8> {
    match outcome {
        ReadOutcome::Data(data) => data,
        other => panic!("expected data, got {:?}", other),
    }
}

#[test]
fn truncated_prefix_cuts_to_capacity() {
    assert_eq!(truncated_prefix(&vec![1, 2, 3, 4, 5], 3), vec![1, 2, 3]);
    assert_eq!(truncated_prefix(&vec![1, 2, 3], 8), vec![1, 2, 3]);
    assert_eq!(truncated_prefix(&vec![1, 2, 3], 0), Vec::<u8>::new());
    assert_eq!(truncated_prefix(&Vec::new(), 4), Vec::<u8>::new());
}

#[test]
fn attempt_decisions_cover_all_three_channel_states() {
    let outcome = read_from_attempt(RecvAttempt::Frame(vec![1, 2, 3, 4]), 2);
    assert_eq!(data_bytes(outcome), vec![1, 2]);
    assert_eq!(read_from_attempt(RecvAttempt::Empty, 2), ReadOutcome::WouldBlock);
    assert_eq!(
        read_from_attempt(RecvAttempt::Disconnected, 2),
        ReadOutcome::EndOfStream
    );
}

#[test]
fn live_channel_delivers_sent_frames_in_order() {
    let (frames_tx, frames_rx) = crossbeam_channel::bounded::<Vec<u8>>(16);
    frames_tx.send(vec![1, 2, 3]).unwrap();
    frames_tx.send(vec![4, 5]).unwrap();
    assert_eq!(data_bytes(read_frame(&frames_rx, 8)), vec![1, 2, 3]);
    assert_eq!(data_bytes(read_frame(&frames_rx, 8)), vec![4, 5]);
}

#[test]
fn live_channel_truncates_to_the_given_capacity() {
    let (frames_tx, frames_rx) = crossbeam_channel::bounded::<Vec<u8>>(16);
    frames_tx.send(vec![1, 2, 3, 4, 5, 6]).unwrap();
    assert_eq!(data_bytes(read_frame(&frames_rx, 4)), vec![1, 2, 3, 4]);
}

#[test]
fn empty_live_channel_would_block() {
    let (_frames_tx, frames_rx) = crossbeam_channel::bounded::<Vec<u8>>(16);
    assert_eq!(read_frame(&frames_rx, 8), ReadOutcome::WouldBlock);
}

#[test]
fn dropped_producer_is_end_of_stream() {
    let (frames_tx, frames_rx) = crossbeam_channel::bounded::<Vec<u8>>(16);
    frames_tx.send(vec![9]).unwrap();
    drop(frames_tx);
    // A frame already queued is still drained after the producer is gone.
    assert_eq!(data_bytes(read_frame(&frames_rx, 8)), vec![9]);
    // Only then does the read observe end of stream.
    assert_eq!(read_frame(&frames_rx, 8), ReadOutcome::EndOfStream);
}

#[test]
fn cloned_producers_must_all_be_gone_for_end_of_stream() {
    let (frames_tx, frames_rx) = crossbeam_channel::bounded::<Vec<u8>>(16);
    let second_tx = frames_tx.clone();
    for i in 0..5u8 {
        frames_tx.send(vec![i; 3]).unwrap();
    }
    drop(frames_tx);
    for i in 0..5u8 {
        assert_eq!(data_bytes(read_frame(&frames_rx, 8)), vec![i; 3]);
    }
    // One producer handle remains: the channel is empty but not ended.
    assert_eq!(read_frame(&frames_rx, 8), ReadOutcome::WouldBlock);
    drop(second_tx);
    assert_eq!(read_frame(&frames_rx, 8), ReadOutcome::EndOfStream);
}
