use vstd::prelude::*;

verus! {

/// The scenarios that a client and a server can be asked to run against each other.
#[derive(Clone, Copy, Debug, PartialEq, Eq, Structural, Hash, PartialOrd, Ord)]
pub enum InteropTest {
    Handshake,
    Greeting,
    MTLSRequestResponse,
    LargeDataDownload,
    LargeDataDownloadWithFrequentKeyUpdates,
    SessionResumption,
}

/// The TLS server binaries under test.
#[derive(Clone, Copy, Debug, PartialEq, Eq, Structural, Hash, PartialOrd, Ord)]
pub enum Server {
    S2nTls,
    OpenSSL,
}

/// The TLS client binaries under test.
#[derive(Clone, Copy, Debug, PartialEq, Eq, Structural, Hash, PartialOrd, Ord)]
pub enum Client {
    S2nTls,
    Rustls,
    Java,
    Go,
}

/// Position of a test case in declaration order, which is the order of the result table.
pub open spec fn test_rank(t: InteropTest) -> nat {
    match t {
        InteropTest::Handshake => 0,
        InteropTest::Greeting => 1,
        InteropTest::MTLSRequestResponse => 2,
        InteropTest::LargeDataDownload => 3,
        InteropTest::LargeDataDownloadWithFrequentKeyUpdates => 4,
        InteropTest::SessionResumption => 5,
    }
}

pub open spec fn server_rank(s: Server) -> nat {
    match s {
        Server::S2nTls => 0,
        Server::OpenSSL => 1,
    }
}

pub open spec fn client_rank(c: Client) -> nat {
    match c {
        Client::S2nTls => 0,
        Client::Rustls => 1,
        Client::Java => 2,
        Client::Go => 3,
    }
}

pub open spec fn test_name(t: InteropTest) -> Seq<char> {
    match t {
        InteropTest::Handshake => "handshake"@,
        InteropTest::Greeting => "greeting"@,
        InteropTest::MTLSRequestResponse => "mtls_request_response"@,
        InteropTest::LargeDataDownload => "large_data_download"@,
        InteropTest::LargeDataDownloadWithFrequentKeyUpdates => "large_data_download_with_frequent_key_updates"@,
        InteropTest::SessionResumption => "session_resumption"@,
    }
}

/// Path of a server binary, relative to the root of the interop workspace.
pub open spec fn server_path(s: Server) -> Seq<char> {
    match s {
        Server::S2nTls => "tls-shim/target/release/s2n_tls_server"@,
        Server::OpenSSL => "tls-shim/target/release/openssl_server"@,
    }
}

/// Program of a client; all but the JVM client are paths relative to the
/// root of the interop workspace.
pub open spec fn client_path(c: Client) -> Seq<char> {
    match c {
        Client::S2nTls => "tls-shim/target/release/s2n_tls_client"@,
        Client::Rustls => "tls-shim/target/release/rustls_client"@,
        Client::Java => "java"@,
        Client::Go => "go/client"@,
    }
}

/// Arguments that go before the test case name and the port.
pub open spec fn client_prefix_args(c: Client) -> Seq<Seq<char>> {
    match c {
        Client::Java => seq!["-cp"@, "java"@, "SSLSocketClient"@],
        _ => Seq::empty(),
    }
}

impl InteropTest {
    pub fn rank(&self) -> (r: u8)
        ensures
            r as nat == test_rank(*self),
    {
        match self {
            InteropTest::Handshake => 0,
            InteropTest::Greeting => 1,
            InteropTest::MTLSRequestResponse => 2,
            InteropTest::LargeDataDownload => 3,
            InteropTest::LargeDataDownloadWithFrequentKeyUpdates => 4,
            InteropTest::SessionResumption => 5,
        }
    }

    /// The name passed to the peer binaries and used in log file names.
    pub fn name(&self) -> (r: &'static str)
        ensures
            r@ == test_name(*self),
    {
        match self {
            InteropTest::Handshake => "handshake",
            InteropTest::Greeting => "greeting",
            InteropTest::MTLSRequestResponse => "mtls_request_response",
            InteropTest::LargeDataDownload => "large_data_download",
            InteropTest::LargeDataDownloadWithFrequentKeyUpdates => "large_data_download_with_frequent_key_updates",
            InteropTest::SessionResumption => "session_resumption",
        }
    }

    /// The test case at a position of the declaration order.
    pub fn from_rank(n: u8) -> (r: Option<InteropTest>)
        ensures
            r is Some <==> n < 6,
            r matches Some(t) ==> test_rank(t) == n as nat,
    {
        match n {
            0 => Some(InteropTest::Handshake),
            1 => Some(InteropTest::Greeting),
            2 => Some(InteropTest::MTLSRequestResponse),
            3 => Some(InteropTest::LargeDataDownload),
            4 => Some(InteropTest::LargeDataDownloadWithFrequentKeyUpdates),
            5 => Some(InteropTest::SessionResumption),
            _ => None,
        }
    }
}

impl Server {
    pub fn rank(&self) -> (r: u8)
        ensures
            r as nat == server_rank(*self),
    {
        match self {
            Server::S2nTls => 0,
            Server::OpenSSL => 1,
        }
    }

    pub fn executable_path(&self) -> (r: &'static str)
        ensures
            r@ == server_path(*self),
    {
        match self {
            Server::S2nTls => "tls-shim/target/release/s2n_tls_server",
            Server::OpenSSL => "tls-shim/target/release/openssl_server",
        }
    }
}

impl Client {
    pub fn rank(&self) -> (r: u8)
        ensures
            r as nat == client_rank(*self),
    {
        match self {
            Client::S2nTls => 0,
            Client::Rustls => 1,
            Client::Java => 2,
            Client::Go => 3,
        }
    }

    pub fn executable_path(&self) -> (r: &'static str)
        ensures
            r@ == client_path(*self),
    {
        match self {
            Client::S2nTls => "tls-shim/target/release/s2n_tls_client",
            Client::Rustls => "tls-shim/target/release/rustls_client",
            Client::Java => "java",
            Client::Go => "go/client",
        }
    }

    /// Arguments that the client program needs before the test case name and
    /// the port: the JVM client names its class path and entry point.
    pub fn configure(&self) -> (r: Vec<&'static str>)
        ensures
            r@.len() == client_prefix_args(*self).len(),
            forall|i: int| 0 <= i < r@.len() ==> (#[trigger] r@[i])@ == client_prefix_args(*self)[i],
    {
        match self {
            Client::Java => {
                let mut v: Vec<&'static str> = Vec::new();
                v.push("-cp");
                v.push("java");
                v.push("SSLSocketClient");
                v
            },
            _ => Vec::new(),
        }
    }
}

} // verus!
