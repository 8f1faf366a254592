use ipc::channel::{
    bytes_equal, check_attach, check_layout, event_offsets, read_payload, region_size,
    write_payload, DATA_START, OWNER_EVENT_OFFSET, PEER_EVENT_OFFSET,
};
use ipc::error::IpcError;
use ipc::lifecycle::{Lifecycle, RunnerState};
use ipc::payload::{get_payload, REQUEST_BYTE, RESPONSE_BYTE};
use ipc::protocol::{check_request, echo_reply, Phase, RoundTrip};
use ipc::report::ExecutionResult;
use ipc::shmem::ShmemRegion;

#[test]
fn payload_has_requested_length_and_differs() {
    for size in [1usize, 2, 4, 1024, 65536] {
        let (request, response) = get_payload(size);
        assert_eq!(request.len(), size);
        assert_eq!(response.len(), size);
        assert_ne!(request, response);
        assert_ne!(request[0], response[0]);
    }
}

#[test]
fn payload_is_repeatable() {
    let first = get_payload(4096);
    let second = get_payload(4096);
    assert_eq!(first, second);
    let (request, response) = get_payload(3);
    assert_eq!(request, vec![REQUEST_BYTE; 3]);
    assert_eq!(response, vec![RESPONSE_BYTE; 3]);
}

#[test]
fn payload_of_size_zero_is_empty() {
    let (request, response) = get_payload(0);
    assert!(request.is_empty());
    assert!(response.is_empty());
}

#[test]
fn region_size_adds_the_event_bytes() {
    assert_eq!(region_size(4), Some(8));
    assert_eq!(region_size(0), Some(DATA_START));
    assert_eq!(region_size(usize::MAX), None);
    assert_eq!(region_size(usize::MAX - 4), Some(usize::MAX));
}

#[test]
fn event_offsets_swap_with_ownership() {
    assert_eq!(event_offsets(true), (OWNER_EVENT_OFFSET, PEER_EVENT_OFFSET));
    assert_eq!(event_offsets(false), (2, 0));
}

#[test]
fn layout_check_accepts_only_exact_length() {
    assert_eq!(check_layout(8, 4), Ok(()));
    assert_eq!(check_layout(7, 4), Err(IpcError::LayoutMismatch));
    assert_eq!(check_layout(9, 4), Err(IpcError::LayoutMismatch));
    assert_eq!(check_layout(2, 0), Err(IpcError::LayoutMismatch));
    assert_eq!(check_layout(4, 0), Ok(()));
}

#[test]
fn attach_check_tells_missing_from_mismatched() {
    assert_eq!(check_attach(None, 4), Err(IpcError::ResourceError));
    assert_eq!(check_attach(Some(12), 4), Err(IpcError::LayoutMismatch));
    assert_eq!(check_attach(Some(8), 4), Ok(()));
}

#[test]
fn write_payload_keeps_events_and_tail() {
    let mut region = vec![7u8, 8, 9, 10, 0, 0, 0, 0, 42];
    write_payload(&mut region, b"ping");
    assert_eq!(region, vec![7u8, 8, 9, 10, b'p', b'i', b'n', b'g', 42]);
    assert_eq!(read_payload(&region, 4), b"ping");
    assert_eq!(read_payload(&region, 5), &[b'p', b'i', b'n', b'g', 42]);
}

#[test]
fn bytes_equal_compares_content_and_length() {
    assert!(bytes_equal(b"pong", b"pong"));
    assert!(!bytes_equal(b"pong", b"ping"));
    assert!(!bytes_equal(b"pon", b"pong"));
    assert!(bytes_equal(b"", b""));
}

#[test]
fn round_trip_counts_exactly_n() {
    let mut rt = RoundTrip::new(1000, true);
    let mut sent: usize = 0;
    while rt.wants_request() {
        rt.request_sent();
        sent += 1;
        assert_eq!(rt.phase(), Phase::AwaitingResponse);
        assert_eq!(rt.response_received(b"pong", b"pong"), Ok(()));
    }
    assert_eq!(sent, 1000);
    assert_eq!(rt.completed(), 1000);
    assert_eq!(rt.total(), 1000);
    assert_eq!(rt.phase(), Phase::Finished);
}

#[test]
fn round_trip_of_zero_is_finished() {
    let rt = RoundTrip::new(0, true);
    assert!(!rt.wants_request());
    assert_eq!(rt.phase(), Phase::Finished);
    assert_eq!(rt.completed(), 0);
}

#[test]
fn malformed_response_aborts_the_run() {
    let mut rt = RoundTrip::new(5, true);
    rt.request_sent();
    assert_eq!(rt.response_received(b"pong", b"pong"), Ok(()));
    rt.request_sent();
    assert_eq!(
        rt.response_received(b"pung", b"pong"),
        Err(IpcError::ProtocolViolation)
    );
    assert_eq!(rt.phase(), Phase::Aborted);
    assert!(!rt.wants_request());
    assert_eq!(rt.completed(), 1);
}

#[test]
fn unvalidated_run_accepts_any_response() {
    let mut rt = RoundTrip::new(2, false);
    rt.request_sent();
    assert_eq!(rt.response_received(b"xxxx", b"pong"), Ok(()));
    rt.request_sent();
    assert_eq!(rt.response_received(b"", b"pong"), Ok(()));
    assert_eq!(rt.phase(), Phase::Finished);
    assert_eq!(rt.completed(), 2);
}

#[test]
fn failed_wait_stops_with_timeout() {
    let mut rt = RoundTrip::new(3, true);
    rt.request_sent();
    assert_eq!(rt.wait_failed(), IpcError::TimeoutError);
    assert_eq!(rt.phase(), Phase::Aborted);
    assert_eq!(rt.completed(), 0);
}

#[test]
fn handshake_over_a_local_region() {
    let data_size: usize = 16;
    let (request, response) = get_payload(data_size);
    let mut region = vec![0u8; region_size(data_size).unwrap()];
    let mut rt = RoundTrip::new(10, true);
    let mut consumer_seen: usize = 0;
    while rt.wants_request() {
        write_payload(&mut region, &request);
        rt.request_sent();
        // the consumer holds the turn
        let received = read_payload(&region, data_size).to_vec();
        assert_eq!(check_request(&received, &request, true), Ok(()));
        consumer_seen += 1;
        write_payload(&mut region, &response);
        // the driver holds the turn again
        let answer = read_payload(&region, data_size).to_vec();
        assert_eq!(rt.response_received(&answer, &response), Ok(()));
    }
    assert_eq!(consumer_seen, 10);
    assert_eq!(rt.completed(), 10);
}

#[test]
fn consumer_rejects_unexpected_request() {
    assert_eq!(check_request(b"ping", b"ping", true), Ok(()));
    assert_eq!(
        check_request(b"pong", b"ping", true),
        Err(IpcError::ProtocolViolation)
    );
    assert_eq!(check_request(b"pong", b"ping", false), Ok(()));
}

#[test]
fn echo_reply_pairs_messages() {
    assert_eq!(echo_reply(b"ping", b"ping", b"pong"), Some(&b"pong"[..]));
    assert_eq!(echo_reply(b"pong", b"ping", b"pong"), Some(&b"ping"[..]));
    assert_eq!(echo_reply(b"pang", b"ping", b"pong"), None);
}

#[test]
fn throughput_is_cycles_per_second() {
    let res = ExecutionResult::new("Memory mapped file".to_string(), 2_000_000_000, 1000);
    assert_eq!(res.throughput(), Some(500));
    assert_eq!(res.name, "Memory mapped file");
    let res = ExecutionResult::new("x".to_string(), 3, 1);
    assert_eq!(res.throughput(), Some(333_333_333));
    let res = ExecutionResult::new("x".to_string(), 0, 1000);
    assert_eq!(res.throughput(), None);
    let res = ExecutionResult::new("x".to_string(), 1, usize::MAX);
    assert_eq!(
        res.throughput(),
        Some(usize::MAX as u128 * 1_000_000_000)
    );
}

#[test]
fn ping_pong_thousand_round_trips() {
    let mut region = vec![0u8; region_size(4).unwrap()];
    let mut rt = RoundTrip::new(1000, true);
    let start = std::time::Instant::now();
    while rt.wants_request() {
        write_payload(&mut region, b"ping");
        rt.request_sent();
        assert_eq!(read_payload(&region, 4), b"ping");
        write_payload(&mut region, b"pong");
        let answer = read_payload(&region, 4).to_vec();
        assert_eq!(rt.response_received(&answer, b"pong"), Ok(()));
    }
    let elapsed = start.elapsed().as_nanos().max(1);
    let res = ExecutionResult::new("Memory mapped file".to_string(), elapsed, rt.completed());
    assert_eq!(res.cycles, 1000);
    assert!(res.elapsed_nanos > 0);
    assert_eq!(res.throughput(), Some(1000u128 * 1_000_000_000 / elapsed));
}

#[test]
fn shmem_region_create_and_attach() {
    let owner = ShmemRegion::create(16).unwrap();
    assert!(owner.is_owner());
    assert_eq!(owner.data_size(), 16);
    assert_eq!(owner.len(), 20);
    let id = owner.os_id();
    assert!(!id.is_empty());
    let peer = ShmemRegion::open(&id, 16).unwrap();
    assert!(!peer.is_owner());
    assert_eq!(peer.len(), 20);
    assert_eq!(peer.os_id(), id);
}

#[test]
fn shmem_attach_with_wrong_size_fails_fast() {
    let owner = ShmemRegion::create(16).unwrap();
    let id = owner.os_id();
    assert_eq!(
        ShmemRegion::open(&id, 8).err(),
        Some(IpcError::LayoutMismatch)
    );
    assert_eq!(
        ShmemRegion::open(&id, 32).err(),
        Some(IpcError::LayoutMismatch)
    );
}

#[test]
fn shmem_open_missing_identifier_fails() {
    assert_eq!(
        ShmemRegion::open("/ipc_bench_no_such_segment_7f3a", 4).err(),
        Some(IpcError::ResourceError)
    );
}

#[test]
fn shmem_reopen_after_teardown_fails() {
    let owner = ShmemRegion::create(4).unwrap();
    let id = owner.os_id();
    drop(owner);
    assert_eq!(
        ShmemRegion::open(&id, 4).err(),
        Some(IpcError::ResourceError)
    );
}

#[test]
fn shmem_create_of_largest_size_fails() {
    assert_eq!(
        ShmemRegion::create(usize::MAX).err(),
        Some(IpcError::ResourceError)
    );
}

#[test]
fn lifecycle_with_child_kills_it_once() {
    let mut lc = Lifecycle::new();
    assert_eq!(lc.state(), RunnerState::Created);
    lc.child_spawned();
    assert!(lc.owns_child());
    lc.warmed_up();
    lc.start_run();
    assert_eq!(lc.state(), RunnerState::Running);
    lc.finish_run(1234);
    assert_eq!(lc.state(), RunnerState::Completed);
    assert_eq!(lc.elapsed_nanos(), 1234);
    lc.start_run();
    lc.finish_run(99);
    assert_eq!(lc.elapsed_nanos(), 99);
    assert!(lc.tear_down());
    assert_eq!(lc.state(), RunnerState::TornDown);
    assert!(!lc.owns_child());
}

#[test]
fn lifecycle_without_child_kills_nothing() {
    let mut lc = Lifecycle::new();
    lc.warmed_up();
    assert_eq!(lc.state(), RunnerState::WarmedUp);
    assert!(!lc.tear_down());
    assert_eq!(lc.elapsed_nanos(), 0);
}
