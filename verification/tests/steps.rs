use tunio::device::layer_request_flags;
use tunio::device::readiness_step;
use tunio::device::Layer;
use tunio::device::RawIo;
use tunio::device::ReadinessStep;
use tunio::device::IFF_NO_PI_FLAG;
use tunio::device::IFF_TAP_FLAG;
use tunio::device::IFF_TUN_FLAG;
use tunio::reader::classify_recv_error;
use tunio::reader::classify_wait;
use tunio::reader::reader_step;
use tunio::reader::ReaderAction;
use tunio::reader::RecvPoll;
use tunio::reader::WaitVerdict;
use tunio::reader::ERROR_NO_MORE_ITEMS_CODE;
use tunio::reader::WAIT_DATA_READY_EVENT;
use tunio::reader::WAIT_SHUTDOWN_EVENT;
use tunio::write::classify_send;
use tunio::write::WriteStatus;
use tunio::write::ERROR_BUFFER_OVERFLOW_CODE;

#[test]
fn handshake_flags_select_the_framing_mode() {
    assert_eq!(layer_request_flags(Layer::L2), IFF_TAP_FLAG | IFF_NO_PI_FLAG);
    assert_eq!(layer_request_flags(Layer::L3), IFF_TUN_FLAG | IFF_NO_PI_FLAG);
    assert_eq!(layer_request_flags(Layer::L2), 0x1002);
    assert_eq!(layer_request_flags(Layer::L3), 0x1001);
}

#[test]
fn readiness_loop_retries_only_on_stale_readiness() {
    assert_eq!(
        readiness_step(RawIo::Transferred(120)),
        ReadinessStep::Complete(120)
    );
    assert_eq!(readiness_step(RawIo::NotReady), ReadinessStep::AwaitReadiness);
    assert_eq!(readiness_step(RawIo::Failed(5)), ReadinessStep::Fail(5));
}

#[test]
fn reader_delivers_packets_unchanged() {
    match reader_step(RecvPoll::Packet(vec![1, 2, 3])) {
        ReaderAction::Deliver(bytes) => assert_eq!(bytes, vec![1, 2, 3]),
        other => panic!("expected delivery, got {:?}", other),
    }
}

#[test]
fn reader_waits_when_no_data_and_retries_other_errors() {
    assert!(matches!(
        reader_step(RecvPoll::NoData),
        ReaderAction::WaitForEvents
    ));
    assert!(matches!(reader_step(RecvPoll::Failure(31)), ReaderAction::Retry));
}

#[test]
fn no_more_items_means_no_data_everything_else_is_a_failure() {
    assert!(matches!(
        classify_recv_error(ERROR_NO_MORE_ITEMS_CODE),
        RecvPoll::NoData
    ));
    assert!(matches!(classify_recv_error(6), RecvPoll::Failure(6)));
    assert!(matches!(classify_recv_error(0), RecvPoll::Failure(0)));
}

#[test]
fn wait_outcomes_map_to_exit_poll_or_abort() {
    assert_eq!(classify_wait(WAIT_SHUTDOWN_EVENT), WaitVerdict::ExitThread);
    assert_eq!(classify_wait(WAIT_DATA_READY_EVENT), WaitVerdict::PollDriver);
    // Any other wait outcome is an invariant violation and aborts the thread.
    assert_eq!(classify_wait(0xFFFF_FFFF), WaitVerdict::AbortThread(0xFFFF_FFFF));
    assert_eq!(classify_wait(2), WaitVerdict::AbortThread(2));
}

#[test]
fn ring_full_surfaces_as_would_block_not_failure() {
    assert_eq!(
        classify_send(false, ERROR_BUFFER_OVERFLOW_CODE, 64),
        WriteStatus::WouldBlock
    );
}

#[test]
fn other_send_failures_keep_their_code() {
    assert_eq!(classify_send(false, 87, 64), WriteStatus::Failed(87));
    assert_eq!(classify_send(false, 0, 0), WriteStatus::Failed(0));
}

#[test]
fn successful_allocation_writes_the_whole_payload() {
    assert_eq!(classify_send(true, 0, 1500), WriteStatus::Written(1500));
    assert_eq!(classify_send(true, ERROR_BUFFER_OVERFLOW_CODE, 0), WriteStatus::Written(0));
}
