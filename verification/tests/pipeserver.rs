use wlw_server::server::pipeserver::connection::{ConnectionState, Operation};
use wlw_server::server::pipeserver::list::{Completion, PollStep};
use wlw_server::server::pipeserver::{PipeServer, ServerAction, ServerState, GROWTH_INCREMENT};
use wlw_server::windows::wrappers::{Error, ErrorOrigin, IoState, WaitResult};

const STOP: usize = 1000;
const RESPONSE_READY: usize = 1001;

fn signals(first: usize, amount: usize) -> Vec<usize> {
    (0..amount).map(|i| 2000 + first + i).collect()
}

/// Grows by the increment and issues the wait for a client on every new slot, each
/// wait staying pending.
fn grow_and_connect(server: &mut PipeServer) {
    assert_eq!(server.next_action(), ServerAction::Grow(GROWTH_INCREMENT));
    let first = server.connections().len();
    let new = signals(first, GROWTH_INCREMENT);
    assert!(server.connections().can_grow(new.len()));
    assert_eq!(server.grow(&new), first);
    for index in first..first + GROWTH_INCREMENT {
        assert_eq!(server.next_action(), ServerAction::Connect(index));
        match server.begin_connect() {
            PollStep::Perform { index: at, operation, payload } => {
                assert_eq!(at, index);
                assert_eq!(operation, Operation::Connect);
                assert!(payload.is_empty());
            }
            _ => panic!("expected the wait for a client"),
        }
        let completion = Completion::Issued(Ok(IoState::Pending));
        assert!(server.connections().admits(&completion));
        assert!(matches!(server.resume(completion), PollStep::Continue));
    }
}

fn resume(server: &mut PipeServer, completion: Completion) -> PollStep {
    assert_eq!(server.next_action(), ServerAction::Resume);
    assert!(server.connections().admits(&completion));
    server.resume(completion)
}

fn poll(server: &mut PipeServer, object: u32) -> PollStep {
    assert_eq!(server.next_action(), ServerAction::Wait);
    assert!(server.connections().admits_wait(WaitResult::Object(object)));
    server.poll(WaitResult::Object(object))
}

fn expect(step: PollStep, index: usize, operation: Operation) -> Vec<u8> {
    match step {
        PollStep::Perform { index: at, operation: op, payload } => {
            assert_eq!(at, index);
            assert_eq!(op, operation);
            payload
        }
        _ => panic!("expected an operation"),
    }
}

#[test]
fn new_server_grows_first() {
    let server = PipeServer::new("wlw_test", STOP, RESPONSE_READY, 4, 4);
    assert_eq!(server.state(), ServerState::Running);
    assert_eq!(server.connections().pipe_name(), "\\\\.\\pipe\\wlw_test");
    assert_eq!(server.connections().events(), &vec![STOP, RESPONSE_READY]);
    assert_eq!(server.connections().len(), 0);
    assert_eq!(server.connections().num_free_connections(), 0);
    assert_eq!(server.next_action(), ServerAction::Grow(16));
}

#[test]
fn grow_adds_slots_and_signals() {
    let mut server = PipeServer::new("wlw_test", STOP, RESPONSE_READY, 4, 4);
    grow_and_connect(&mut server);
    assert_eq!(server.connections().len(), 16);
    assert_eq!(server.connections().num_free_connections(), 16);
    assert_eq!(server.connections().events().len(), 18);
    assert_eq!(server.connections().events()[0], STOP);
    assert_eq!(server.connections().events()[1], RESPONSE_READY);
    for i in 0..16 {
        assert_eq!(server.connections().events()[i + 2], 2000 + i);
        let slot = server.connections().connection(i).unwrap();
        assert_eq!(slot.state(), ConnectionState::Connecting);
        assert_eq!(slot.id(), 0);
    }
    assert!(server.connections().connection(16).is_none());
    assert_eq!(server.next_action(), ServerAction::Wait);
}

#[test]
fn create_and_stop() {
    let mut server = PipeServer::new("wlw_test_create_and_stop", STOP, RESPONSE_READY, 8, 8);
    grow_and_connect(&mut server);
    assert!(matches!(poll(&mut server, 0), PollStep::Stop));
    assert_eq!(server.state(), ServerState::Stopped);
    assert_eq!(server.next_action(), ServerAction::Exit);
    assert_eq!(server.connections().num_free_connections(), 16);
    let late = Error { origin: ErrorOrigin::WaitForMultipleObjects, code: 6 };
    assert_eq!(server.fail(late), None);
    assert_eq!(server.state(), ServerState::Stopped);
}

#[test]
fn trivial_reqres() {
    let mut server = PipeServer::new("wlw_test_trivial_reqres", STOP, RESPONSE_READY, 4, 4);
    grow_and_connect(&mut server);

    // A client connects to slot 0 and sends [3, 2, 1, 0].
    expect(poll(&mut server, 2), 0, Operation::GetOverlappedResult);
    expect(resume(&mut server, Completion::Transferred(Ok(0))), 0, Operation::Read);
    assert_eq!(server.connections().num_free_connections(), 15);
    assert!(matches!(
        resume(&mut server, Completion::Issued(Ok(IoState::Pending))),
        PollStep::Continue
    ));
    assert_eq!(server.connections().connection(0).unwrap().state(), ConnectionState::Reading);
    expect(poll(&mut server, 2), 0, Operation::GetOverlappedResult);
    expect(resume(&mut server, Completion::Transferred(Ok(4))), 0, Operation::ResetSignal);
    let request = match resume(
        &mut server,
        Completion::SignalReset { result: Ok(()), message: vec![3, 2, 1, 0] },
    ) {
        PollStep::Dispatch(request) => request,
        _ => panic!("expected a request"),
    };
    assert_eq!(request.message, vec![3, 2, 1, 0]);
    assert_eq!(request.signal(), RESPONSE_READY);
    assert_eq!(
        server.connections().connection(0).unwrap().state(),
        ConnectionState::AwaitingResponse
    );

    // The application answers [0, 1, 2, 3].
    assert!(request.respond(vec![0, 1, 2, 3]).is_ok());
    let payload = expect(poll(&mut server, 1), 0, Operation::Write);
    assert_eq!(payload, vec![0, 1, 2, 3]);
    assert!(matches!(
        resume(&mut server, Completion::Issued(Ok(IoState::Pending))),
        PollStep::Continue
    ));
    assert_eq!(server.connections().connection(0).unwrap().state(), ConnectionState::Writing);
    expect(poll(&mut server, 2), 0, Operation::GetOverlappedResult);
    expect(resume(&mut server, Completion::Transferred(Ok(4))), 0, Operation::Read);
    assert!(matches!(
        resume(&mut server, Completion::Issued(Ok(IoState::Pending))),
        PollStep::Continue
    ));
    assert_eq!(server.connections().connection(0).unwrap().state(), ConnectionState::Reading);
    assert_eq!(server.connections().connection(0).unwrap().id(), 0);
}

/// Drives slot `index`, which waits for a client, through the arrival of a client
/// and of the request `record`, and returns the request as the application gets it.
fn accept_request(
    server: &mut PipeServer,
    index: usize,
    record: Vec<u8>,
) -> wlw_server::server::pipeserver::router::Request {
    let object = index as u32 + 2;
    expect(poll(server, object), index, Operation::GetOverlappedResult);
    expect(resume(server, Completion::Transferred(Ok(0))), index, Operation::Read);
    // The client has written already: the read finishes at once.
    expect(resume(server, Completion::Issued(Ok(IoState::Finished))), index, Operation::ResetSignal);
    match resume(server, Completion::SignalReset { result: Ok(()), message: record }) {
        PollStep::Dispatch(request) => request,
        _ => panic!("expected a request"),
    }
}

fn finish_write(server: &mut PipeServer, index: usize, size: usize) {
    assert!(matches!(
        resume(server, Completion::Issued(Ok(IoState::Pending))),
        PollStep::Continue
    ));
    expect(poll(server, index as u32 + 2), index, Operation::GetOverlappedResult);
    expect(resume(server, Completion::Transferred(Ok(size))), index, Operation::Read);
    assert!(matches!(
        resume(server, Completion::Issued(Ok(IoState::Pending))),
        PollStep::Continue
    ));
}

#[test]
fn twenty_clients_on_capacity_sixteen_all_echo() {
    let mut server = PipeServer::new("wlw_test_load", STOP, RESPONSE_READY, 4, 4);
    grow_and_connect(&mut server);
    let mut requests = Vec::new();
    for i in 0..20usize {
        if i == 16 {
            // Every slot serves a client: the pool grows before the next wait.
            assert_eq!(server.connections().num_free_connections(), 0);
            grow_and_connect(&mut server);
            assert_eq!(server.connections().len(), 32);
            assert_eq!(server.connections().events().len(), 34);
            assert_eq!(server.connections().num_free_connections(), 16);
        }
        let byte = i as u8;
        let request = accept_request(&mut server, i, vec![byte, byte, byte, byte]);
        assert_eq!(request.message, vec![byte, byte, byte, byte]);
        requests.push(request);
    }
    assert_eq!(server.connections().num_free_connections(), 12);
    // The application echoes, last request first.
    for request in requests.into_iter().rev() {
        let echo = request.message.clone();
        assert!(request.respond(echo.clone()).is_ok());
        let (index, payload) = match poll(&mut server, 1) {
            PollStep::Perform { index, operation, payload } => {
                assert_eq!(operation, Operation::Write);
                (index, payload)
            }
            _ => panic!("expected a write"),
        };
        assert_eq!(payload, echo);
        assert_eq!(payload, vec![index as u8; 4]);
        finish_write(&mut server, index, 4);
    }
    for i in 0..20 {
        let slot = server.connections().connection(i).unwrap();
        assert_eq!(slot.state(), ConnectionState::Reading);
        assert_eq!(slot.id(), 0);
    }
}

#[test]
fn acknowledge_reads_without_writing() {
    let mut server = PipeServer::new("wlw_test_ack", STOP, RESPONSE_READY, 4, 4);
    grow_and_connect(&mut server);
    let request = accept_request(&mut server, 3, vec![9, 9, 9, 9]);
    assert!(request.acknowledge().is_ok());
    let payload = expect(poll(&mut server, 1), 3, Operation::Read);
    assert!(payload.is_empty());
    assert!(matches!(
        resume(&mut server, Completion::Issued(Ok(IoState::Pending))),
        PollStep::Continue
    ));
    assert_eq!(server.connections().connection(3).unwrap().state(), ConnectionState::Reading);
}

#[test]
fn failure_reconnects_one_slot_and_moves_its_id_on() {
    let mut server = PipeServer::new("wlw_test_break", STOP, RESPONSE_READY, 4, 4);
    grow_and_connect(&mut server);
    let first = accept_request(&mut server, 0, vec![1, 1, 1, 1]);
    let second = accept_request(&mut server, 1, vec![2, 2, 2, 2]);
    assert_eq!(server.connections().num_free_connections(), 14);

    // Slot 0 answers, and the client breaks the pipe during the write.
    assert!(first.respond(vec![5, 5, 5, 5]).is_ok());
    expect(poll(&mut server, 1), 0, Operation::Write);
    let broken = Error { origin: ErrorOrigin::WriteFile, code: 109 };
    expect(resume(&mut server, Completion::Issued(Err(broken))), 0, Operation::Disconnect);
    let slot = server.connections().connection(0).unwrap();
    assert_eq!(slot.id(), 1);
    assert_eq!(slot.state(), ConnectionState::Disconnected);
    assert_eq!(server.connections().num_free_connections(), 13);
    expect(resume(&mut server, Completion::Settled(Ok(()))), 0, Operation::Connect);
    assert!(matches!(
        resume(&mut server, Completion::Issued(Ok(IoState::Pending))),
        PollStep::Continue
    ));
    assert_eq!(server.connections().connection(0).unwrap().state(), ConnectionState::Connecting);

    // Slot 1 is where it was, and its conversation goes on.
    let other = server.connections().connection(1).unwrap();
    assert_eq!(other.id(), 0);
    assert_eq!(other.state(), ConnectionState::AwaitingResponse);
    assert!(second.respond(vec![6, 6, 6, 6]).is_ok());
    let payload = expect(poll(&mut server, 1), 1, Operation::Write);
    assert_eq!(payload, vec![6, 6, 6, 6]);
    finish_write(&mut server, 1, 4);
    assert_eq!(server.connections().events().len(), 18);
}

#[test]
fn stale_response_is_dropped() {
    let mut server = PipeServer::new("wlw_test_stale", STOP, RESPONSE_READY, 4, 4);
    grow_and_connect(&mut server);
    let request = accept_request(&mut server, 2, vec![7, 7, 7, 7]);
    let late = request.response(Some(vec![8, 8, 8, 8]));
    assert_eq!(late.index(), 2);
    assert_eq!(late.id(), 0);
    assert_eq!(late.message(), &Some(vec![8, 8, 8, 8]));
    assert!(server.connections().routes(&late));

    // The application acknowledges, and the read that follows fails: the slot gives
    // the client up.
    assert!(request.acknowledge().is_ok());
    expect(poll(&mut server, 1), 2, Operation::Read);
    let broken = Error { origin: ErrorOrigin::ReadFile, code: 109 };
    expect(resume(&mut server, Completion::Issued(Err(broken))), 2, Operation::Disconnect);
    // Dropping the client fails too: the slot waits for the next client all the same.
    let refused = Error { origin: ErrorOrigin::DisconnectNamedPipe, code: 6 };
    expect(resume(&mut server, Completion::Settled(Err(refused))), 2, Operation::Connect);
    assert!(matches!(
        resume(&mut server, Completion::Issued(Ok(IoState::Pending))),
        PollStep::Continue
    ));
    let slot = server.connections().connection(2).unwrap();
    assert_eq!(slot.id(), 1);
    assert_eq!(slot.state(), ConnectionState::Connecting);
    assert_eq!(server.connections().num_free_connections(), 14);

    // The response to the old client is still taken, and changes nothing.
    assert!(server.connections().routes(&late));
    assert_eq!(server.next_action(), ServerAction::Wait);
    assert_eq!(server.connections().pending(), None);
}

#[test]
fn wrong_count_of_bytes_reconnects() {
    let mut server = PipeServer::new("wlw_test_size", STOP, RESPONSE_READY, 4, 8);
    grow_and_connect(&mut server);
    expect(poll(&mut server, 2), 0, Operation::GetOverlappedResult);
    expect(resume(&mut server, Completion::Transferred(Ok(0))), 0, Operation::Read);
    assert!(matches!(
        resume(&mut server, Completion::Issued(Ok(IoState::Pending))),
        PollStep::Continue
    ));
    expect(poll(&mut server, 2), 0, Operation::GetOverlappedResult);
    // Three bytes where a request has four.
    expect(resume(&mut server, Completion::Transferred(Ok(3))), 0, Operation::Disconnect);
    assert_eq!(server.connections().connection(0).unwrap().id(), 1);
    expect(resume(&mut server, Completion::Settled(Ok(()))), 0, Operation::Connect);
    // A client is there already, and its record is too long.
    expect(resume(&mut server, Completion::Issued(Ok(IoState::Finished))), 0, Operation::Read);
    expect(resume(&mut server, Completion::Issued(Ok(IoState::Finished))), 0, Operation::ResetSignal);
    expect(
        resume(&mut server, Completion::SignalReset { result: Ok(()), message: vec![0; 5] }),
        0,
        Operation::Connect,
    );
    assert_eq!(server.connections().connection(0).unwrap().id(), 1);
    assert_eq!(server.connections().connection(0).unwrap().state(), ConnectionState::Disconnected);
    // The response is checked against the size of a response.
    expect(resume(&mut server, Completion::Issued(Ok(IoState::Finished))), 0, Operation::Read);
    expect(resume(&mut server, Completion::Issued(Ok(IoState::Finished))), 0, Operation::ResetSignal);
    let request = match resume(
        &mut server,
        Completion::SignalReset { result: Ok(()), message: vec![4, 3, 2, 1] },
    ) {
        PollStep::Dispatch(request) => request,
        _ => panic!("expected a request"),
    };
    assert!(request.respond(vec![1; 8]).is_ok());
    assert_eq!(expect(poll(&mut server, 1), 0, Operation::Write), vec![1; 8]);
    assert!(matches!(
        resume(&mut server, Completion::Issued(Ok(IoState::Pending))),
        PollStep::Continue
    ));
    expect(poll(&mut server, 2), 0, Operation::GetOverlappedResult);
    expect(resume(&mut server, Completion::Transferred(Ok(4))), 0, Operation::Disconnect);
    assert_eq!(server.connections().connection(0).unwrap().id(), 2);
}

#[test]
fn failed_wait_is_reported_once() {
    let mut server = PipeServer::new("wlw_test_fail", STOP, RESPONSE_READY, 4, 4);
    grow_and_connect(&mut server);
    let error = Error { origin: ErrorOrigin::WaitForMultipleObjects, code: 6 };
    assert_eq!(server.fail(error), Some(error));
    assert_eq!(server.state(), ServerState::Failed);
    assert_eq!(server.next_action(), ServerAction::Exit);
    assert_eq!(server.fail(error), None);
    assert_eq!(server.state(), ServerState::Failed);
}

#[test]
fn poll_guards_refuse_what_the_poller_cannot_go_on_from() {
    let mut server = PipeServer::new("wlw_test_guard", STOP, RESPONSE_READY, 4, 4);
    grow_and_connect(&mut server);
    assert!(!server.connections().admits_wait(WaitResult::Timeout));
    assert!(!server.connections().admits_wait(WaitResult::Abandoned(0)));
    assert!(!server.connections().admits_wait(WaitResult::Object(18)));
    assert!(server.connections().admits_wait(WaitResult::Object(17)));
    let request = accept_request(&mut server, 0, vec![0; 4]);
    // Nothing is under way on a slot whose request is with the application.
    assert!(!server.connections().admits_wait(WaitResult::Object(2)));
    assert!(!server.connections().admits(&Completion::Issued(Ok(IoState::Pending))));
    assert!(request.respond(vec![0; 4]).is_ok());
    expect(poll(&mut server, 1), 0, Operation::Write);
    // The outcome has to be of the operation that is under way.
    assert!(!server.connections().admits(&Completion::Transferred(Ok(4))));
    assert!(!server.connections().admits(&Completion::Settled(Ok(()))));
    assert!(server.connections().admits(&Completion::Issued(Ok(IoState::Finished))));
    assert!(!server.connections().admits_wait(WaitResult::Object(0)));
}

#[test]
fn response_comes_back_when_the_server_is_gone() {
    let mut server = PipeServer::new("wlw_test_gone", STOP, RESPONSE_READY, 4, 4);
    grow_and_connect(&mut server);
    let request = accept_request(&mut server, 5, vec![1, 2, 3, 4]);
    drop(server);
    let back = request.respond(vec![4, 3, 2, 1]).unwrap_err();
    assert_eq!(back.index(), 5);
    assert_eq!(back.id(), 0);
    assert_eq!(back.into_message(), Some(vec![4, 3, 2, 1]));
}

#[test]
fn free_count_runs_out_where_clients_come_and_go() {
    let mut server = PipeServer::new("wlw_test_count", STOP, RESPONSE_READY, 4, 4);
    grow_and_connect(&mut server);
    // Every arrival and every loss of a client costs one: eight rounds use up sixteen.
    for round in 0..8usize {
        assert_eq!(server.connections().num_free_connections(), 16 - 2 * round);
        expect(poll(&mut server, 2), 0, Operation::GetOverlappedResult);
        expect(resume(&mut server, Completion::Transferred(Ok(0))), 0, Operation::Read);
        let broken = Error { origin: ErrorOrigin::ReadFile, code: 109 };
        expect(resume(&mut server, Completion::Issued(Err(broken))), 0, Operation::Disconnect);
        expect(resume(&mut server, Completion::Settled(Ok(()))), 0, Operation::Connect);
        assert!(matches!(
            resume(&mut server, Completion::Issued(Ok(IoState::Pending))),
            PollStep::Continue
        ));
        assert_eq!(server.connections().connection(0).unwrap().id(), round + 1);
    }
    assert_eq!(server.connections().num_free_connections(), 0);
    assert_eq!(server.next_action(), ServerAction::Grow(16));
    // With none left, an arrival cannot be counted.
    grow_and_connect(&mut server);
    assert_eq!(server.connections().len(), 32);
}
