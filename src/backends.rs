use vstd::prelude::*;
use crate::pem::{
    all_sections, first_section, pem_certificates, pem_certificates_of, pem_pkcs8_keys,
    pem_pkcs8_keys_of, take_first,
};
use crate::scenario::InteropTest;

verus! {

/// What a backend puts into its TLS configuration for one test case.
#[derive(Clone, Copy, Debug, PartialEq, Eq, Structural)]
pub struct ConfigPlan {
    /// Load a certificate chain and private key of one's own.
    pub own_certificate: bool,
    /// Trust the test CA and require the peer to present a chain it signed.
    pub verify_peer: bool,
    /// Issue (server) or store and replay (client) session tickets.
    pub session_tickets: bool,
}

/// Name of the session ticket encryption key of the s2n-tls server.
pub const STEK_NAME: &'static str = "test_stek";

/// The s2n-tls server, and the s2n-tls client.
pub struct S2NShim;

/// The OpenSSL server.
pub struct OpensslShim;

/// The rustls client.
pub struct RustlsShim;

pub open spec fn is_mtls(t: InteropTest) -> bool {
    t == InteropTest::MTLSRequestResponse
}

pub open spec fn is_resumption(t: InteropTest) -> bool {
    t == InteropTest::SessionResumption
}

impl S2NShim {
    /// Every test case runs: the server always presents its chain, checks the
    /// client's under mutual authentication, and issues tickets where a
    /// session is to be resumed.
    pub fn server_config(test: InteropTest) -> (r: Option<ConfigPlan>)
        ensures
            r == Some(
                ConfigPlan {
                    own_certificate: true,
                    verify_peer: is_mtls(test),
                    session_tickets: is_resumption(test),
                },
            ),
    {
        Some(
            ConfigPlan {
                own_certificate: true,
                verify_peer: test == InteropTest::MTLSRequestResponse,
                session_tickets: test == InteropTest::SessionResumption,
            },
        )
    }

    /// Every test case runs: the client always checks the server's chain,
    /// presents its own under mutual authentication, and keeps the ticket of
    /// its first connection to resume it on the second.
    pub fn client_config(test: InteropTest) -> (r: Option<ConfigPlan>)
        ensures
            r == Some(
                ConfigPlan {
                    own_certificate: is_mtls(test),
                    verify_peer: true,
                    session_tickets: is_resumption(test),
                },
            ),
    {
        Some(
            ConfigPlan {
                own_certificate: test == InteropTest::MTLSRequestResponse,
                verify_peer: true,
                session_tickets: test == InteropTest::SessionResumption,
            },
        )
    }

    /// s2n-tls can send a key update on demand.
    pub fn key_update_capable() -> (r: bool)
        ensures
            r,
    {
        true
    }

    /// s2n-tls tells whether a handshake resumed a session.
    pub fn resumption_observable() -> (r: bool)
        ensures
            r,
    {
        true
    }
}

impl OpensslShim {
    /// Every test case runs: the server always presents its chain and checks
    /// the client's under mutual authentication; it issues no tickets of its own.
    pub fn server_config(test: InteropTest) -> (r: Option<ConfigPlan>)
        ensures
            r == Some(
                ConfigPlan { own_certificate: true, verify_peer: is_mtls(test), session_tickets: false },
            ),
    {
        Some(
            ConfigPlan {
                own_certificate: true,
                verify_peer: test == InteropTest::MTLSRequestResponse,
                session_tickets: false,
            },
        )
    }

    /// OpenSSL can send a key update on demand.
    pub fn key_update_capable() -> (r: bool)
        ensures
            r,
    {
        true
    }

    /// The OpenSSL server does not report resumed handshakes, so a connection
    /// that must resume a session fails with it.
    pub fn resumption_observable() -> (r: bool)
        ensures
            !r,
    {
        false
    }
}

impl OpensslShim {
    /// `SSL_key_update` reports success with a positive return value and
    /// failure, with the reason on OpenSSL's error stack, otherwise.
    pub fn key_update_succeeded(ret: i32) -> (r: bool)
        ensures
            r == (ret > 0),
    {
        ret > 0
    }
}

/// The session ticket that an s2n-tls client keeps: the latest one the
/// server sent, offered again when the next connection starts.
pub struct SessionTicketStore {
    pub ticket: Option<Vec<u8>>,
}

impl SessionTicketStore {
    pub fn new() -> (r: SessionTicketStore)
        ensures
            r.ticket is None,
    {
        SessionTicketStore { ticket: None }
    }

    /// Keeps a ticket that the server sent, in place of any earlier one.
    pub fn on_session_ticket(&mut self, ticket: Vec<u8>)
        ensures
            final(self).ticket == Some(ticket),
    {
        self.ticket = Some(ticket);
    }

    /// The ticket to offer when a connection starts, if one was received.
    pub fn ticket_to_offer(&self) -> (r: Option<&Vec<u8>>)
        ensures
            r is Some <==> self.ticket is Some,
            r matches Some(t) ==> self.ticket == Some(*t),
    {
        match &self.ticket {
            Some(t) => Some(t),
            None => None,
        }
    }
}

impl RustlsShim {
    /// The rustls client runs every test case but session resumption: it
    /// always checks the server's chain and presents its own under mutual
    /// authentication.
    pub fn client_config(test: InteropTest) -> (r: Option<ConfigPlan>)
        ensures
            r is None <==> is_resumption(test),
            !is_resumption(test) ==> r == Some(
                ConfigPlan { own_certificate: is_mtls(test), verify_peer: true, session_tickets: false },
            ),
    {
        match test {
            InteropTest::SessionResumption => None,
            _ => Some(
                ConfigPlan {
                    own_certificate: test == InteropTest::MTLSRequestResponse,
                    verify_peer: true,
                    session_tickets: false,
                },
            ),
        }
    }
}

impl RustlsShim {
    /// The certificate that the client trusts: the first certificate of the
    /// CA's PEM file.
    pub fn root_certificate(ca_pem: &[u8]) -> (r: Option<Vec<u8>>)
        ensures
            r is None <==> first_section(pem_certificates_of(ca_pem@)) is None,
            r matches Some(c) ==> first_section(pem_certificates_of(ca_pem@)) == Some(c@),
    {
        match pem_certificates(ca_pem) {
            Some(v) => take_first(v),
            None => None,
        }
    }

    /// The chain that the client presents under mutual authentication: every
    /// certificate of its PEM file, of which there must be one at least.
    pub fn client_chain(chain_pem: &[u8]) -> (r: Option<Vec<Vec<u8>>>)
        ensures
            r is None <==> all_sections(pem_certificates_of(chain_pem@)) is None,
            r matches Some(v) ==> all_sections(pem_certificates_of(chain_pem@)) == Some(
                v.deep_view(),
            ),
    {
        match pem_certificates(chain_pem) {
            Some(v) => if v.len() == 0 {
                None
            } else {
                Some(v)
            },
            None => None,
        }
    }

    /// The key that the client proves its identity with: the first PKCS #8
    /// key of its PEM file.
    pub fn client_key(key_pem: &[u8]) -> (r: Option<Vec<u8>>)
        ensures
            r is None <==> first_section(pem_pkcs8_keys_of(key_pem@)) is None,
            r matches Some(k) ==> first_section(pem_pkcs8_keys_of(key_pem@)) == Some(k@),
    {
        match pem_pkcs8_keys(key_pem) {
            Some(v) => take_first(v),
            None => None,
        }
    }
}

} // verus!
