use vstd::prelude::*;

verus! {

/// The DER contents of the certificate sections of a PEM text, in order;
/// `None` where a section cannot be read.
pub uninterp spec fn pem_certificates_of(pem: Seq<u8>) -> Option<Seq<Seq<u8>>>;

/// The DER contents of the PKCS #8 private key sections of a PEM text, in
/// order; `None` where a section cannot be read.
pub uninterp spec fn pem_pkcs8_keys_of(pem: Seq<u8>) -> Option<Seq<Seq<u8>>>;

/// Relies on rustls_pemfile::certs: yields each certificate section of the
/// text, or the error of a section it cannot read.
#[verifier::external_body]
pub(crate) fn pem_certificates(pem: &[u8]) -> (r: Option<Vec<Vec<u8>>>)
    ensures
        match r {
            Some(v) => pem_certificates_of(pem@) == Some(v.deep_view()),
            None => pem_certificates_of(pem@) is None,
        },
{
    let mut rd: &[u8] = pem;
    rustls_pemfile::certs(&mut rd)
        .map(|c| c.map(|c| c.as_ref().to_vec()))
        .collect::<Result<Vec<Vec<u8>>, _>>()
        .ok()
}

/// Relies on rustls_pemfile::pkcs8_private_keys: yields each PKCS #8 key
/// section of the text, or the error of a section it cannot read.
#[verifier::external_body]
pub(crate) fn pem_pkcs8_keys(pem: &[u8]) -> (r: Option<Vec<Vec<u8>>>)
    ensures
        match r {
            Some(v) => pem_pkcs8_keys_of(pem@) == Some(v.deep_view()),
            None => pem_pkcs8_keys_of(pem@) is None,
        },
{
    let mut rd: &[u8] = pem;
    rustls_pemfile::pkcs8_private_keys(&mut rd)
        .map(|k| k.map(|k| k.secret_pkcs8_der().to_vec()))
        .collect::<Result<Vec<Vec<u8>>, _>>()
        .ok()
}

/// The first section of a parsed PEM text, if it was read and has one.
pub open spec fn first_section(o: Option<Seq<Seq<u8>>>) -> Option<Seq<u8>> {
    match o {
        Some(s) => if s.len() > 0 {
            Some(s[0])
        } else {
            None
        },
        None => None,
    }
}

/// The sections of a parsed PEM text, if it was read and has at least one.
pub open spec fn all_sections(o: Option<Seq<Seq<u8>>>) -> Option<Seq<Seq<u8>>> {
    match o {
        Some(s) => if s.len() > 0 {
            Some(s)
        } else {
            None
        },
        None => None,
    }
}

/// The first entry of a list of sections, if there is one.
pub fn take_first(v: Vec<Vec<u8>>) -> (r: Option<Vec<u8>>)
    ensures
        r is Some <==> v@.len() > 0,
        r matches Some(c) ==> c@ == v.deep_view()[0],
{
    let mut v = v;
    if v.len() == 0 {
        None
    } else {
        let ghost d = v.deep_view();
        let c = v.swap_remove(0);
        assert(c@ == d[0]);
        Some(c)
    }
}

} // verus!
