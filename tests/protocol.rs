use tls_interop::backends::{ConfigPlan, OpensslShim, RustlsShim, S2NShim};
use tls_interop::protocol::{
    chunk_tag, exit_code, handshake_resumed, message, ClientSession, FailureReason, Message, Phase,
    ServerSession, SessionAction, SessionEvent, Verdict, CHUNKS_PER_GB, CLIENT_GREETING,
    LARGE_DATA_DOWNLOAD_GB, SERVER_GREETING,
};
use tls_interop::scenario::InteropTest;

fn server(test: InteropTest, key_update_capable: bool, expect_resumption: bool) -> ServerSession {
    ServerSession::new(test, key_update_capable, expect_resumption, 2, 3)
}

#[test]
fn greeting_exchange() {
    let mut s = server(InteropTest::Greeting, true, false);
    let n = CLIENT_GREETING.len();
    assert_eq!(s.step(SessionEvent::Begin), SessionAction::ReadExact(n));
    let a = s.step(SessionEvent::Received(CLIENT_GREETING.as_bytes().to_vec()));
    assert_eq!(a, SessionAction::Write(Message::ServerGreeting));
    assert_eq!(message(Message::ServerGreeting), SERVER_GREETING.as_bytes());
    assert_eq!(s.step(SessionEvent::Wrote), SessionAction::Shutdown);
    assert_eq!(s.step(SessionEvent::ShutdownDone), SessionAction::ReadForClose);
    assert_eq!(s.step(SessionEvent::CloseRead(0)), SessionAction::Finish(Verdict::Passed));

    let mut c = ClientSession::new(InteropTest::Greeting, 2, 3);
    assert_eq!(c.step(SessionEvent::Begin), SessionAction::Write(Message::ClientGreeting));
    assert_eq!(c.step(SessionEvent::Wrote), SessionAction::ReadExact(SERVER_GREETING.len()));
    let a = c.step(SessionEvent::Received(SERVER_GREETING.as_bytes().to_vec()));
    assert_eq!(a, SessionAction::Shutdown);
    assert_eq!(c.step(SessionEvent::ShutdownDone), SessionAction::ReadForClose);
    assert_eq!(c.step(SessionEvent::IoFailed), SessionAction::Finish(Verdict::Passed));
}

#[test]
fn corrupted_greeting_fails() {
    for i in 0..CLIENT_GREETING.len() {
        let mut bytes = CLIENT_GREETING.as_bytes().to_vec();
        bytes[i] ^= 0x20;
        let mut s = server(InteropTest::MTLSRequestResponse, true, false);
        s.step(SessionEvent::Begin);
        let a = s.step(SessionEvent::Received(bytes));
        assert_eq!(a, SessionAction::Finish(Verdict::Failed(FailureReason::GreetingMismatch)));
    }
    let mut c = ClientSession::new(InteropTest::Greeting, 2, 3);
    c.step(SessionEvent::Begin);
    c.step(SessionEvent::Wrote);
    let mut bytes = SERVER_GREETING.as_bytes().to_vec();
    bytes[0] = b'I';
    let a = c.step(SessionEvent::Received(bytes));
    assert_eq!(a, SessionAction::Finish(Verdict::Failed(FailureReason::GreetingMismatch)));
}

#[test]
fn handshake_exchanges_nothing() {
    let mut s = server(InteropTest::Handshake, false, false);
    assert_eq!(s.step(SessionEvent::Begin), SessionAction::Shutdown);
    assert_eq!(s.step(SessionEvent::ShutdownDone), SessionAction::ReadForClose);
    assert_eq!(s.step(SessionEvent::CloseRead(1)), SessionAction::Finish(Verdict::Failed(FailureReason::DataAfterExchange)));
    let mut c = ClientSession::new(InteropTest::Handshake, 2, 3);
    assert_eq!(c.step(SessionEvent::Begin), SessionAction::Shutdown);
    assert_eq!(c.step(SessionEvent::ShutdownDone), SessionAction::ReadForClose);
    assert_eq!(c.step(SessionEvent::CloseRead(0)), SessionAction::Finish(Verdict::Passed));
    assert_eq!(c.phase, Phase::Closed);
}

#[test]
fn download_tags_advance_per_gigabyte() {
    let mut s = server(InteropTest::LargeDataDownload, false, false);
    s.step(SessionEvent::Begin);
    let mut a = s.step(SessionEvent::Received(CLIENT_GREETING.as_bytes().to_vec()));
    let mut tags = Vec::new();
    while let SessionAction::WriteChunk(t) = a {
        tags.push(t);
        a = s.step(SessionEvent::Wrote);
    }
    assert_eq!(tags, vec![0, 0, 0, 1, 1, 1]);
    assert_eq!(a, SessionAction::Shutdown);

    let mut c = ClientSession::new(InteropTest::LargeDataDownload, 2, 3);
    c.step(SessionEvent::Begin);
    let mut a = c.step(SessionEvent::Wrote);
    let mut k: u64 = 0;
    while a == SessionAction::ReadChunk {
        a = c.step(SessionEvent::ChunkReceived(chunk_tag(k, 3)));
        k += 1;
    }
    assert_eq!(k, 6);
    assert_eq!(a, SessionAction::Shutdown);
}

#[test]
fn download_rejects_wrong_tag() {
    let mut c = ClientSession::new(InteropTest::LargeDataDownloadWithFrequentKeyUpdates, 2, 3);
    c.step(SessionEvent::Begin);
    c.step(SessionEvent::Wrote);
    for _ in 0..3 {
        assert_eq!(c.step(SessionEvent::ChunkReceived(0)), SessionAction::ReadChunk);
    }
    let a = c.step(SessionEvent::ChunkReceived(0));
    assert_eq!(a, SessionAction::Finish(Verdict::Failed(FailureReason::TagMismatch)));
}

#[test]
fn chunk_tags() {
    assert_eq!(chunk_tag(0, CHUNKS_PER_GB), 0);
    assert_eq!(chunk_tag(999, CHUNKS_PER_GB), 0);
    assert_eq!(chunk_tag(2_500, CHUNKS_PER_GB), 2);
    assert_eq!(chunk_tag(255_999, CHUNKS_PER_GB), 255);
    assert_eq!(chunk_tag(256_000, CHUNKS_PER_GB), 0);
    assert_eq!(chunk_tag(257_000, CHUNKS_PER_GB), 1);
    assert_eq!(LARGE_DATA_DOWNLOAD_GB, 256);
}

#[test]
fn key_update_each_gigabyte() {
    let mut s = server(InteropTest::LargeDataDownloadWithFrequentKeyUpdates, true, false);
    s.step(SessionEvent::Begin);
    let mut a = s.step(SessionEvent::Received(CLIENT_GREETING.as_bytes().to_vec()));
    let mut trace = Vec::new();
    loop {
        match a {
            SessionAction::KeyUpdate => {
                trace.push(256u16);
                a = s.step(SessionEvent::KeyUpdated);
            }
            SessionAction::WriteChunk(t) => {
                trace.push(t as u16);
                a = s.step(SessionEvent::Wrote);
            }
            _ => break,
        }
    }
    assert_eq!(trace, vec![256, 0, 0, 0, 256, 1, 1, 1]);
    assert_eq!(s.key_updates, 2);
    assert_eq!(a, SessionAction::Shutdown);
}

#[test]
fn key_update_unsupported_is_unimplemented() {
    let mut s = server(InteropTest::LargeDataDownloadWithFrequentKeyUpdates, false, false);
    assert_eq!(s.step(SessionEvent::Begin), SessionAction::Finish(Verdict::Unimplemented));
    assert_eq!(exit_code(Verdict::Unimplemented), 127);
    assert_eq!(exit_code(Verdict::Passed), 0);
    assert_eq!(exit_code(Verdict::Failed(FailureReason::Io)), 1);
}

#[test]
fn resumption_required() {
    let greeting = CLIENT_GREETING.as_bytes().to_vec();
    let mut first = server(InteropTest::SessionResumption, true, false);
    first.step(SessionEvent::Begin);
    first.step(SessionEvent::Received(greeting.clone()));
    assert_eq!(first.step(SessionEvent::Wrote), SessionAction::Shutdown);

    let mut full = server(InteropTest::SessionResumption, true, true);
    full.step(SessionEvent::Begin);
    full.step(SessionEvent::Received(greeting.clone()));
    assert_eq!(full.step(SessionEvent::Wrote), SessionAction::CheckResumption);
    let resumed = handshake_resumed("NEGOTIATED|FULL_HANDSHAKE|MIDDLEBOX_COMPAT");
    assert!(!resumed);
    assert_eq!(
        full.step(SessionEvent::Resumed(resumed)),
        SessionAction::Finish(Verdict::Failed(FailureReason::NotResumed))
    );

    let mut again = server(InteropTest::SessionResumption, true, true);
    again.step(SessionEvent::Begin);
    again.step(SessionEvent::Received(greeting));
    again.step(SessionEvent::Wrote);
    let resumed = handshake_resumed("NEGOTIATED|MIDDLEBOX_COMPAT");
    assert!(resumed);
    assert_eq!(again.step(SessionEvent::Resumed(resumed)), SessionAction::Shutdown);
    assert_eq!(again.step(SessionEvent::ShutdownDone), SessionAction::ReadForClose);
    assert_eq!(again.step(SessionEvent::CloseRead(0)), SessionAction::Finish(Verdict::Passed));
}

#[test]
fn io_failure_fails_session() {
    let mut s = server(InteropTest::Greeting, true, false);
    s.step(SessionEvent::Begin);
    assert_eq!(s.step(SessionEvent::IoFailed), SessionAction::Finish(Verdict::Failed(FailureReason::Io)));
    assert_eq!(s.step(SessionEvent::Begin), SessionAction::Ignore);

    let mut h = server(InteropTest::Handshake, false, false);
    h.step(SessionEvent::Begin);
    h.step(SessionEvent::ShutdownDone);
    assert_eq!(h.step(SessionEvent::IoFailed), SessionAction::Finish(Verdict::Failed(FailureReason::Io)));
}

#[test]
fn backend_configurations() {
    assert_eq!(RustlsShim::client_config(InteropTest::SessionResumption), None);
    assert_eq!(
        RustlsShim::client_config(InteropTest::MTLSRequestResponse),
        Some(ConfigPlan { own_certificate: true, verify_peer: true, session_tickets: false })
    );
    assert_eq!(
        S2NShim::server_config(InteropTest::SessionResumption),
        Some(ConfigPlan { own_certificate: true, verify_peer: false, session_tickets: true })
    );
    assert_eq!(
        S2NShim::client_config(InteropTest::Greeting),
        Some(ConfigPlan { own_certificate: false, verify_peer: true, session_tickets: false })
    );
    assert_eq!(
        OpensslShim::server_config(InteropTest::MTLSRequestResponse),
        Some(ConfigPlan { own_certificate: true, verify_peer: true, session_tickets: false })
    );
    assert!(!OpensslShim::resumption_observable());
    assert!(S2NShim::resumption_observable());
}
