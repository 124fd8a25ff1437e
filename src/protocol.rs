use vstd::prelude::*;
use vstd::string::StringSliceAdditionalSpecFns;
use crate::bytes::{bytes_equal, contains_bytes, find_bytes};
use crate::scenario::InteropTest;

verus! {

/// What the client sends first in every scenario that exchanges data.
pub const CLIENT_GREETING: &'static str = "i am the client. nice to meet you server.";

/// What the server answers to the client greeting.
pub const SERVER_GREETING: &'static str = "i am the server. a pleasure to make your acquaintance.";

/// Marker in a handshake description of a handshake that resumed no session.
pub const FULL_HANDSHAKE: &'static str = "FULL_HANDSHAKE";

/// Size of one chunk of a large download.
pub const ONE_MB: usize = 1_000_000;

/// Chunks in one gigabyte of a large download.
pub const CHUNKS_PER_GB: u64 = 1_000;

/// Gigabytes sent in a large download.
pub const LARGE_DATA_DOWNLOAD_GB: u64 = 256;

pub open spec fn client_greeting() -> Seq<u8> {
    CLIENT_GREETING.spec_bytes()
}

pub open spec fn server_greeting() -> Seq<u8> {
    SERVER_GREETING.spec_bytes()
}

/// The fixed messages of the application protocol.
#[derive(Clone, Copy, Debug, PartialEq, Eq, Structural)]
pub enum Message {
    ClientGreeting,
    ServerGreeting,
}

pub open spec fn message_bytes(m: Message) -> Seq<u8> {
    match m {
        Message::ClientGreeting => client_greeting(),
        Message::ServerGreeting => server_greeting(),
    }
}

/// The bytes of a message.
pub fn message(m: Message) -> (r: &'static [u8])
    ensures
        r@ == message_bytes(m),
{
    match m {
        Message::ClientGreeting => CLIENT_GREETING.as_bytes(),
        Message::ServerGreeting => SERVER_GREETING.as_bytes(),
    }
}

/// The tag of the `k`-th chunk of a large download: the number of gigabytes
/// completed before it, modulo 256.
pub open spec fn chunk_tag_of(k: int, chunks_per_gb: int) -> u8 {
    ((k / chunks_per_gb) % 256) as u8
}

/// The first byte of the `k`-th chunk (counted from 0 over the whole download).
pub fn chunk_tag(k: u64, chunks_per_gb: u64) -> (r: u8)
    requires
        chunks_per_gb > 0,
    ensures
        r == chunk_tag_of(k as int, chunks_per_gb as int),
{
    ((k / chunks_per_gb) % 256) as u8
}

/// Whether a handshake, as the TLS library describes it, resumed a session.
pub fn handshake_resumed(handshake_type: &str) -> (r: bool)
    ensures
        r == !contains_bytes(handshake_type.spec_bytes(), FULL_HANDSHAKE.spec_bytes()),
{
    !find_bytes(handshake_type.as_bytes(), FULL_HANDSHAKE.as_bytes())
}

/// Why a session failed.
#[derive(Clone, Copy, Debug, PartialEq, Eq, Structural)]
pub enum FailureReason {
    /// Reading, writing, a key update or the shutdown failed.
    Io,
    /// The peer's greeting was not the expected bytes.
    GreetingMismatch,
    /// A chunk of a large download carried the wrong tag.
    TagMismatch,
    /// The connection was to resume a session and made a full handshake.
    NotResumed,
    /// The peer sent data where it was to close the connection.
    DataAfterExchange,
}

/// How a session ended.
#[derive(Clone, Copy, Debug, PartialEq, Eq, Structural)]
pub enum Verdict {
    Passed,
    Failed(FailureReason),
    /// This side cannot run the test case.
    Unimplemented,
}

/// What happened on the connection since the last action.
#[derive(Debug, PartialEq, Eq)]
pub enum SessionEvent {
    /// The TLS handshake completed: the session begins.
    Begin,
    /// The bytes that a `ReadExact` read.
    Received(Vec<u8>),
    /// The first byte of the chunk that a `ReadChunk` read.
    ChunkReceived(u8),
    /// A write finished.
    Wrote,
    /// A key update was sent.
    KeyUpdated,
    /// Whether the handshake resumed a session.
    Resumed(bool),
    /// The length of what a `ReadForClose` read.
    CloseRead(usize),
    /// The write direction was closed.
    ShutdownDone,
    /// The last operation failed.
    IoFailed,
}

/// What to do next on the connection.
#[derive(Clone, Copy, Debug, PartialEq, Eq, Structural)]
pub enum SessionAction {
    /// Read exactly this many bytes, then report `Received`.
    ReadExact(usize),
    /// Write a message, then report `Wrote`.
    Write(Message),
    /// Write one chunk of `ONE_MB` bytes whose first byte is the tag, then report `Wrote`.
    WriteChunk(u8),
    /// Read one chunk of `ONE_MB` bytes, then report `ChunkReceived`.
    ReadChunk,
    /// Send a key update, then report `KeyUpdated`.
    KeyUpdate,
    /// Ask whether the handshake resumed a session, then report `Resumed`.
    CheckResumption,
    /// Read into a one-byte buffer, then report `CloseRead`.
    ReadForClose,
    /// Close the write direction, then report `ShutdownDone`.
    Shutdown,
    /// The session is over.
    Finish(Verdict),
    /// The event does not apply to the current phase; nothing changes.
    Ignore,
}

/// Where a session stands.
#[derive(Clone, Copy, Debug, PartialEq, Eq, Structural)]
pub enum Phase {
    Handshaking,
    SendingGreeting,
    AwaitingGreeting,
    Downloading,
    CheckingResumption,
    HalfClosing,
    AwaitingPeerClose,
    Closed,
}

pub open spec fn is_greeting_test(t: InteropTest) -> bool {
    t == InteropTest::Greeting || t == InteropTest::MTLSRequestResponse || t
        == InteropTest::SessionResumption
}

pub open spec fn is_download_test(t: InteropTest) -> bool {
    t == InteropTest::LargeDataDownload || t == InteropTest::LargeDataDownloadWithFrequentKeyUpdates
}

fn is_greeting(t: InteropTest) -> (r: bool)
    ensures
        r == is_greeting_test(t),
{
    match t {
        InteropTest::Greeting | InteropTest::MTLSRequestResponse | InteropTest::SessionResumption => true,
        _ => false,
    }
}

/// The server side of one connection.
#[derive(Clone, Copy, Debug, PartialEq, Eq, Structural)]
pub struct ServerSession {
    pub test: InteropTest,
    /// Whether the TLS library can send a key update on demand.
    pub key_update_capable: bool,
    /// Whether this connection must resume the session of an earlier one.
    pub expect_resumption: bool,
    pub total_gb: u64,
    pub chunks_per_gb: u64,
    pub phase: Phase,
    /// Gigabytes of the download completed.
    pub gb: u64,
    /// Chunks of the current gigabyte sent.
    pub chunk: u64,
    /// Key updates sent.
    pub key_updates: u64,
}

pub open spec fn with_key_updates(s: ServerSession) -> bool {
    s.test == InteropTest::LargeDataDownloadWithFrequentKeyUpdates
}

/// The next download action of a server: a key update at the start of each
/// gigabyte where key updates are asked for, else the next chunk; once all
/// gigabytes are sent, close the write direction.
pub open spec fn server_download(s: ServerSession) -> (ServerSession, SessionAction) {
    if s.gb >= s.total_gb {
        (ServerSession { phase: Phase::HalfClosing, ..s }, SessionAction::Shutdown)
    } else if with_key_updates(s) && s.key_updates == s.gb {
        (ServerSession { phase: Phase::Downloading, ..s }, SessionAction::KeyUpdate)
    } else {
        (
            ServerSession { phase: Phase::Downloading, ..s },
            SessionAction::WriteChunk((s.gb % 256) as u8),
        )
    }
}

pub open spec fn closed_with(s: ServerSession, v: Verdict) -> (ServerSession, SessionAction) {
    (ServerSession { phase: Phase::Closed, ..s }, SessionAction::Finish(v))
}

/// One step of the server side: the next state and action for a state and an event.
pub open spec fn server_step(s: ServerSession, e: SessionEvent) -> (ServerSession, SessionAction) {
    match (s.phase, e) {
        (Phase::Closed, _) => (s, SessionAction::Ignore),
        (_, SessionEvent::IoFailed) => closed_with(s, Verdict::Failed(FailureReason::Io)),
        (Phase::Handshaking, SessionEvent::Begin) => if s.test == InteropTest::Handshake {
            (ServerSession { phase: Phase::HalfClosing, ..s }, SessionAction::Shutdown)
        } else if with_key_updates(s) && !s.key_update_capable {
            closed_with(s, Verdict::Unimplemented)
        } else {
            (
                ServerSession { phase: Phase::AwaitingGreeting, ..s },
                SessionAction::ReadExact(client_greeting().len() as usize),
            )
        },
        (Phase::AwaitingGreeting, SessionEvent::Received(b)) => if b@ != client_greeting() {
            closed_with(s, Verdict::Failed(FailureReason::GreetingMismatch))
        } else if is_greeting_test(s.test) {
            (
                ServerSession { phase: Phase::SendingGreeting, ..s },
                SessionAction::Write(Message::ServerGreeting),
            )
        } else {
            server_download(ServerSession { gb: 0, chunk: 0, key_updates: 0, ..s })
        },
        (Phase::SendingGreeting, SessionEvent::Wrote) => if s.test == InteropTest::SessionResumption
            && s.expect_resumption {
            (
                ServerSession { phase: Phase::CheckingResumption, ..s },
                SessionAction::CheckResumption,
            )
        } else {
            (ServerSession { phase: Phase::HalfClosing, ..s }, SessionAction::Shutdown)
        },
        (Phase::Downloading, SessionEvent::KeyUpdated) => if with_key_updates(s) && s.key_updates
            == s.gb {
            server_download(ServerSession { key_updates: (s.key_updates + 1) as u64, ..s })
        } else {
            (s, SessionAction::Ignore)
        },
        (Phase::Downloading, SessionEvent::Wrote) => if with_key_updates(s) && s.key_updates
            == s.gb {
            (s, SessionAction::Ignore)
        } else if s.chunk + 1 >= s.chunks_per_gb {
            server_download(ServerSession { gb: (s.gb + 1) as u64, chunk: 0, ..s })
        } else {
            server_download(ServerSession { chunk: (s.chunk + 1) as u64, ..s })
        },
        (Phase::CheckingResumption, SessionEvent::Resumed(r)) => if r {
            (ServerSession { phase: Phase::HalfClosing, ..s }, SessionAction::Shutdown)
        } else {
            closed_with(s, Verdict::Failed(FailureReason::NotResumed))
        },
        (Phase::HalfClosing, SessionEvent::ShutdownDone) => (
            ServerSession { phase: Phase::AwaitingPeerClose, ..s },
            SessionAction::ReadForClose,
        ),
        (Phase::AwaitingPeerClose, SessionEvent::CloseRead(n)) => if n == 0 {
            closed_with(s, Verdict::Passed)
        } else {
            closed_with(s, Verdict::Failed(FailureReason::DataAfterExchange))
        },
        _ => (s, SessionAction::Ignore),
    }
}

impl ServerSession {
    pub open spec fn wf(&self) -> bool {
        &&& self.chunks_per_gb > 0
        &&& self.phase == Phase::AwaitingGreeting ==> self.test != InteropTest::Handshake
        &&& self.phase == Phase::Downloading ==> {
            &&& is_download_test(self.test)
            &&& self.gb < self.total_gb
            &&& self.chunk < self.chunks_per_gb
            &&& if with_key_updates(*self) {
                self.key_updates == self.gb || (self.key_updates == self.gb + 1)
            } else {
                self.key_updates == 0
            }
            &&& with_key_updates(*self) && self.chunk > 0 ==> self.key_updates == self.gb + 1
        }
    }

    /// The server side of a connection whose handshake is under way.
    pub fn new(
        test: InteropTest,
        key_update_capable: bool,
        expect_resumption: bool,
        total_gb: u64,
        chunks_per_gb: u64,
    ) -> (r: ServerSession)
        requires
            chunks_per_gb > 0,
        ensures
            r.wf(),
            r == (ServerSession {
                test,
                key_update_capable,
                expect_resumption,
                total_gb,
                chunks_per_gb,
                phase: Phase::Handshaking,
                gb: 0,
                chunk: 0,
                key_updates: 0,
            }),
    {
        ServerSession {
            test,
            key_update_capable,
            expect_resumption,
            total_gb,
            chunks_per_gb,
            phase: Phase::Handshaking,
            gb: 0,
            chunk: 0,
            key_updates: 0,
        }
    }

    fn download(&mut self) -> (a: SessionAction)
        requires
            old(self).chunks_per_gb > 0,
            is_download_test(old(self).test),
            old(self).chunk < old(self).chunks_per_gb,
            old(self).gb <= old(self).total_gb,
            old(self).gb < old(self).total_gb ==> if with_key_updates(*old(self)) {
                old(self).key_updates == old(self).gb || (old(self).key_updates == old(self).gb
                    + 1)
            } else {
                old(self).key_updates == 0
            },
            old(self).gb < old(self).total_gb && with_key_updates(*old(self)) && old(self).chunk
                > 0 ==> old(self).key_updates == old(self).gb + 1,
        ensures
            (*final(self), a) == server_download(*old(self)),
            final(self).wf(),
    {
        if self.gb >= self.total_gb {
            self.phase = Phase::HalfClosing;
            SessionAction::Shutdown
        } else if self.test == InteropTest::LargeDataDownloadWithFrequentKeyUpdates
            && self.key_updates == self.gb {
            self.phase = Phase::Downloading;
            SessionAction::KeyUpdate
        } else {
            self.phase = Phase::Downloading;
            SessionAction::WriteChunk((self.gb % 256) as u8)
        }
    }

    fn close(&mut self, v: Verdict) -> (a: SessionAction)
        requires
            old(self).chunks_per_gb > 0,
        ensures
            (*final(self), a) == closed_with(*old(self), v),
            final(self).wf(),
    {
        self.phase = Phase::Closed;
        SessionAction::Finish(v)
    }

    /// Moves the session on by one event and returns what to do next.
    pub fn step(&mut self, e: SessionEvent) -> (a: SessionAction)
        requires
            old(self).wf(),
        ensures
            (*final(self), a) == server_step(*old(self), e),
            final(self).wf(),
    {
        match (self.phase, e) {
            (Phase::Closed, _) => SessionAction::Ignore,
            (_, SessionEvent::IoFailed) => self.close(Verdict::Failed(FailureReason::Io)),
            (Phase::Handshaking, SessionEvent::Begin) => {
                if self.test == InteropTest::Handshake {
                    self.phase = Phase::HalfClosing;
                    SessionAction::Shutdown
                } else if self.test == InteropTest::LargeDataDownloadWithFrequentKeyUpdates
                    && !self.key_update_capable {
                    self.close(Verdict::Unimplemented)
                } else {
                    self.phase = Phase::AwaitingGreeting;
                    SessionAction::ReadExact(CLIENT_GREETING.as_bytes().len())
                }
            },
            (Phase::AwaitingGreeting, SessionEvent::Received(b)) => {
                if !bytes_equal(b.as_slice(), CLIENT_GREETING.as_bytes()) {
                    self.close(Verdict::Failed(FailureReason::GreetingMismatch))
                } else if is_greeting(self.test) {
                    self.phase = Phase::SendingGreeting;
                    SessionAction::Write(Message::ServerGreeting)
                } else {
                    self.gb = 0;
                    self.chunk = 0;
                    self.key_updates = 0;
                    self.download()
                }
            },
            (Phase::SendingGreeting, SessionEvent::Wrote) => {
                if self.test == InteropTest::SessionResumption && self.expect_resumption {
                    self.phase = Phase::CheckingResumption;
                    SessionAction::CheckResumption
                } else {
                    self.phase = Phase::HalfClosing;
                    SessionAction::Shutdown
                }
            },
            (Phase::Downloading, SessionEvent::KeyUpdated) => {
                if self.test == InteropTest::LargeDataDownloadWithFrequentKeyUpdates
                    && self.key_updates == self.gb {
                    self.key_updates = self.key_updates + 1;
                    self.download()
                } else {
                    SessionAction::Ignore
                }
            },
            (Phase::Downloading, SessionEvent::Wrote) => {
                if self.test == InteropTest::LargeDataDownloadWithFrequentKeyUpdates
                    && self.key_updates == self.gb {
                    SessionAction::Ignore
                } else if self.chunk + 1 >= self.chunks_per_gb {
                    self.gb = self.gb + 1;
                    self.chunk = 0;
                    self.download()
                } else {
                    self.chunk = self.chunk + 1;
                    self.download()
                }
            },
            (Phase::CheckingResumption, SessionEvent::Resumed(r)) => {
                if r {
                    self.phase = Phase::HalfClosing;
                    SessionAction::Shutdown
                } else {
                    self.close(Verdict::Failed(FailureReason::NotResumed))
                }
            },
            (Phase::HalfClosing, SessionEvent::ShutdownDone) => {
                self.phase = Phase::AwaitingPeerClose;
                SessionAction::ReadForClose
            },
            (Phase::AwaitingPeerClose, SessionEvent::CloseRead(n)) => {
                if n == 0 {
                    self.close(Verdict::Passed)
                } else {
                    self.close(Verdict::Failed(FailureReason::DataAfterExchange))
                }
            },
            _ => SessionAction::Ignore,
        }
    }
}

/// The client side of one connection.
#[derive(Clone, Copy, Debug, PartialEq, Eq, Structural)]
pub struct ClientSession {
    pub test: InteropTest,
    pub total_gb: u64,
    pub chunks_per_gb: u64,
    pub phase: Phase,
    /// Gigabytes of the download received.
    pub gb: u64,
    /// Chunks of the current gigabyte received.
    pub chunk: u64,
}

/// The next download action of a client: read the next chunk, or close the
/// write direction once all gigabytes have arrived.
pub open spec fn client_download(s: ClientSession) -> (ClientSession, SessionAction) {
    if s.gb >= s.total_gb {
        (ClientSession { phase: Phase::HalfClosing, ..s }, SessionAction::Shutdown)
    } else {
        (ClientSession { phase: Phase::Downloading, ..s }, SessionAction::ReadChunk)
    }
}

pub open spec fn client_closed_with(s: ClientSession, v: Verdict) -> (ClientSession, SessionAction) {
    (ClientSession { phase: Phase::Closed, ..s }, SessionAction::Finish(v))
}

/// One step of the client side. Once its write direction is closed, the
/// client passes whatever its last read brings: the server may reset the
/// connection right after closing it.
pub open spec fn client_step(s: ClientSession, e: SessionEvent) -> (ClientSession, SessionAction) {
    match (s.phase, e) {
        (Phase::Closed, _) => (s, SessionAction::Ignore),
        (Phase::AwaitingPeerClose, SessionEvent::CloseRead(_))
        | (Phase::AwaitingPeerClose, SessionEvent::IoFailed) => client_closed_with(s, Verdict::Passed),
        (_, SessionEvent::IoFailed) => client_closed_with(s, Verdict::Failed(FailureReason::Io)),
        (Phase::Handshaking, SessionEvent::Begin) => if s.test == InteropTest::Handshake {
            (ClientSession { phase: Phase::HalfClosing, ..s }, SessionAction::Shutdown)
        } else {
            (
                ClientSession { phase: Phase::SendingGreeting, ..s },
                SessionAction::Write(Message::ClientGreeting),
            )
        },
        (Phase::SendingGreeting, SessionEvent::Wrote) => if is_greeting_test(s.test) {
            (
                ClientSession { phase: Phase::AwaitingGreeting, ..s },
                SessionAction::ReadExact(server_greeting().len() as usize),
            )
        } else {
            client_download(ClientSession { gb: 0, chunk: 0, ..s })
        },
        (Phase::AwaitingGreeting, SessionEvent::Received(b)) => if b@ == server_greeting() {
            (ClientSession { phase: Phase::HalfClosing, ..s }, SessionAction::Shutdown)
        } else {
            client_closed_with(s, Verdict::Failed(FailureReason::GreetingMismatch))
        },
        (Phase::Downloading, SessionEvent::ChunkReceived(t)) => if t != (s.gb % 256) as u8 {
            client_closed_with(s, Verdict::Failed(FailureReason::TagMismatch))
        } else if s.chunk + 1 >= s.chunks_per_gb {
            client_download(ClientSession { gb: (s.gb + 1) as u64, chunk: 0, ..s })
        } else {
            client_download(ClientSession { chunk: (s.chunk + 1) as u64, ..s })
        },
        (Phase::HalfClosing, SessionEvent::ShutdownDone) => (
            ClientSession { phase: Phase::AwaitingPeerClose, ..s },
            SessionAction::ReadForClose,
        ),
        _ => (s, SessionAction::Ignore),
    }
}

impl ClientSession {
    pub open spec fn wf(&self) -> bool {
        &&& self.chunks_per_gb > 0
        &&& self.phase == Phase::SendingGreeting ==> self.test != InteropTest::Handshake
        &&& self.phase == Phase::Downloading ==> {
            &&& is_download_test(self.test)
            &&& self.gb < self.total_gb
            &&& self.chunk < self.chunks_per_gb
        }
    }

    /// The client side of a connection whose handshake is under way.
    pub fn new(test: InteropTest, total_gb: u64, chunks_per_gb: u64) -> (r: ClientSession)
        requires
            chunks_per_gb > 0,
        ensures
            r.wf(),
            r == (ClientSession {
                test,
                total_gb,
                chunks_per_gb,
                phase: Phase::Handshaking,
                gb: 0,
                chunk: 0,
            }),
    {
        ClientSession { test, total_gb, chunks_per_gb, phase: Phase::Handshaking, gb: 0, chunk: 0 }
    }

    fn download(&mut self) -> (a: SessionAction)
        requires
            old(self).chunks_per_gb > 0,
            is_download_test(old(self).test),
            old(self).chunk < old(self).chunks_per_gb,
        ensures
            (*final(self), a) == client_download(*old(self)),
            final(self).wf(),
    {
        if self.gb >= self.total_gb {
            self.phase = Phase::HalfClosing;
            SessionAction::Shutdown
        } else {
            self.phase = Phase::Downloading;
            SessionAction::ReadChunk
        }
    }

    fn close(&mut self, v: Verdict) -> (a: SessionAction)
        requires
            old(self).chunks_per_gb > 0,
        ensures
            (*final(self), a) == client_closed_with(*old(self), v),
            final(self).wf(),
    {
        self.phase = Phase::Closed;
        SessionAction::Finish(v)
    }

    /// Moves the session on by one event and returns what to do next.
    pub fn step(&mut self, e: SessionEvent) -> (a: SessionAction)
        requires
            old(self).wf(),
        ensures
            (*final(self), a) == client_step(*old(self), e),
            final(self).wf(),
    {
        match (self.phase, e) {
            (Phase::Closed, _) => SessionAction::Ignore,
            (Phase::AwaitingPeerClose, SessionEvent::CloseRead(_))
            | (Phase::AwaitingPeerClose, SessionEvent::IoFailed) => self.close(Verdict::Passed),
            (_, SessionEvent::IoFailed) => self.close(Verdict::Failed(FailureReason::Io)),
            (Phase::Handshaking, SessionEvent::Begin) => {
                if self.test == InteropTest::Handshake {
                    self.phase = Phase::HalfClosing;
                    SessionAction::Shutdown
                } else {
                    self.phase = Phase::SendingGreeting;
                    SessionAction::Write(Message::ClientGreeting)
                }
            },
            (Phase::SendingGreeting, SessionEvent::Wrote) => {
                if is_greeting(self.test) {
                    self.phase = Phase::AwaitingGreeting;
                    SessionAction::ReadExact(SERVER_GREETING.as_bytes().len())
                } else {
                    self.gb = 0;
                    self.chunk = 0;
                    self.download()
                }
            },
            (Phase::AwaitingGreeting, SessionEvent::Received(b)) => {
                if bytes_equal(b.as_slice(), SERVER_GREETING.as_bytes()) {
                    self.phase = Phase::HalfClosing;
                    SessionAction::Shutdown
                } else {
                    self.close(Verdict::Failed(FailureReason::GreetingMismatch))
                }
            },
            (Phase::Downloading, SessionEvent::ChunkReceived(t)) => {
                if t != (self.gb % 256) as u8 {
                    self.close(Verdict::Failed(FailureReason::TagMismatch))
                } else if self.chunk + 1 >= self.chunks_per_gb {
                    self.gb = self.gb + 1;
                    self.chunk = 0;
                    self.download()
                } else {
                    self.chunk = self.chunk + 1;
                    self.download()
                }
            },
            (Phase::HalfClosing, SessionEvent::ShutdownDone) => {
                self.phase = Phase::AwaitingPeerClose;
                SessionAction::ReadForClose
            },
            _ => SessionAction::Ignore,
        }
    }
}

/// The exit status of a peer process whose session ended with `v`.
pub fn exit_code(v: Verdict) -> (r: i32)
    ensures
        r == match v {
            Verdict::Passed => 0,
            Verdict::Unimplemented => crate::outcome::UNIMPLEMENTED_RETURN_VAL,
            Verdict::Failed(_) => 1i32,
        },
{
    match v {
        Verdict::Passed => 0,
        Verdict::Unimplemented => crate::outcome::UNIMPLEMENTED_RETURN_VAL,
        Verdict::Failed(_) => 1,
    }
}

/// The `k`-th chunk, counted from 0 over the whole download, lies in gigabyte
/// `k / chunks_per_gb`: its tag is that gigabyte's number modulo 256.
proof fn lemma_tag_of_position(gb: int, chunk: int, chunks_per_gb: int)
    requires
        0 <= gb,
        0 <= chunk < chunks_per_gb,
    ensures
        chunk_tag_of(gb * chunks_per_gb + chunk, chunks_per_gb) == (gb % 256) as u8,
{
    vstd::arithmetic::div_mod::lemma_fundamental_div_mod_converse(
        gb * chunks_per_gb + chunk,
        chunks_per_gb,
        gb,
        chunk,
    );
}

/// A server that waits for the greeting answers it with its own greeting
/// when, and only when, the bytes it read are exactly the client greeting;
/// a single wrong byte fails the session.
pub proof fn lemma_server_greeting(s: ServerSession, b: Vec<u8>, i: int)
    requires
        s.wf(),
        s.phase == Phase::AwaitingGreeting,
        is_greeting_test(s.test),
    ensures
        server_step(s, SessionEvent::Received(b)).1 == SessionAction::Write(Message::ServerGreeting)
            <==> b@ == client_greeting(),
        0 <= i < b@.len() && b@.len() == client_greeting().len() && b@[i] != client_greeting()[i]
            ==> server_step(s, SessionEvent::Received(b)).1 == SessionAction::Finish(
            Verdict::Failed(FailureReason::GreetingMismatch),
        ),
{
}

/// A client that waits for the server greeting closes its side normally
/// when, and only when, it read exactly that greeting; a single wrong byte
/// fails the session.
pub proof fn lemma_client_greeting(s: ClientSession, b: Vec<u8>, i: int)
    requires
        s.wf(),
        s.phase == Phase::AwaitingGreeting,
    ensures
        server_greeting() == b@ ==> client_step(s, SessionEvent::Received(b)).1
            == SessionAction::Shutdown,
        0 <= i < b@.len() && b@.len() == server_greeting().len() && b@[i] != server_greeting()[i]
            ==> client_step(s, SessionEvent::Received(b)).1 == SessionAction::Finish(
            Verdict::Failed(FailureReason::GreetingMismatch),
        ),
{
}

/// The chunk that a downloading server writes carries the tag of its global
/// position: `floor(k / chunks_per_gb) mod 256` for the `k`-th chunk.
pub proof fn lemma_server_chunk_tag(s: ServerSession)
    requires
        s.wf(),
        s.phase == Phase::Downloading,
        !(with_key_updates(s) && s.key_updates == s.gb),
    ensures
        server_download(s).1 == SessionAction::WriteChunk(
            chunk_tag_of(s.gb * s.chunks_per_gb + s.chunk, s.chunks_per_gb as int),
        ),
{
    lemma_tag_of_position(s.gb as int, s.chunk as int, s.chunks_per_gb as int);
}

/// A downloading client rejects a chunk, and fails the session, exactly when
/// its first byte differs from the tag of the chunk's global position.
pub proof fn lemma_client_chunk_check(s: ClientSession, t: u8)
    requires
        s.wf(),
        s.phase == Phase::Downloading,
    ensures
        client_step(s, SessionEvent::ChunkReceived(t)).1 == SessionAction::Finish(
            Verdict::Failed(FailureReason::TagMismatch),
        ) <==> t != chunk_tag_of(s.gb * s.chunks_per_gb + s.chunk, s.chunks_per_gb as int),
{
    lemma_tag_of_position(s.gb as int, s.chunk as int, s.chunks_per_gb as int);
}

/// Where key updates are asked for, a server has sent exactly one per
/// gigabyte when it stops writing.
pub proof fn lemma_key_update_per_gigabyte(s: ServerSession, e: SessionEvent)
    requires
        s.wf(),
        s.phase == Phase::Downloading,
        with_key_updates(s),
        server_step(s, e).0.phase == Phase::HalfClosing,
    ensures
        server_step(s, e).0.key_updates == s.total_gb,
{
}

/// A connection that must resume a session fails when its handshake was a
/// full one, and goes on to close normally when it resumed.
pub proof fn lemma_resumption_checked(s: ServerSession)
    requires
        s.wf(),
        s.phase == Phase::CheckingResumption,
    ensures
        server_step(s, SessionEvent::Resumed(false)).1 == SessionAction::Finish(
            Verdict::Failed(FailureReason::NotResumed),
        ),
        server_step(s, SessionEvent::Resumed(true)).1 == SessionAction::Shutdown,
        server_step(server_step(s, SessionEvent::Resumed(true)).0, SessionEvent::ShutdownDone).1
            == SessionAction::ReadForClose,
        server_step(
            server_step(server_step(s, SessionEvent::Resumed(true)).0, SessionEvent::ShutdownDone).0,
            SessionEvent::CloseRead(0),
        ).1 == SessionAction::Finish(Verdict::Passed),
{
}

/// A session passes only at the end of its teardown: each side closes its
/// write direction, then makes its last read, and only then passes.
pub proof fn lemma_pass_after_teardown(s: ServerSession, c: ClientSession, e1: SessionEvent, e2: SessionEvent)
    ensures
        server_step(s, e1).1 == SessionAction::Finish(Verdict::Passed) ==> s.phase
            == Phase::AwaitingPeerClose,
        server_step(s, e1).1 == SessionAction::ReadForClose ==> s.phase == Phase::HalfClosing,
        client_step(c, e2).1 == SessionAction::Finish(Verdict::Passed) ==> c.phase
            == Phase::AwaitingPeerClose,
        client_step(c, e2).1 == SessionAction::ReadForClose ==> c.phase == Phase::HalfClosing,
{
}

/// The first connection of a resumption scenario, which has no session to
/// resume, is never held to a resumed handshake: after the greetings it
/// closes its write direction.
pub proof fn lemma_first_connection_not_checked(s: ServerSession)
    requires
        s.wf(),
        s.phase == Phase::SendingGreeting,
        !s.expect_resumption,
    ensures
        server_step(s, SessionEvent::Wrote).1 == SessionAction::Shutdown,
{
}

} // verus!
