//! Checking a server's certificate chain against a root store.

use rustls::client::{ServerCertVerifier, WebPkiVerifier};
use std::time::{Duration, UNIX_EPOCH};
use vstd::prelude::*;

use crate::roots::{trust_anchors, AnchorView};
use crate::server_name::{parse_server_name, server_name_of};

verus! {

/// Times are taken below this many seconds after the Unix epoch (2^33, some
/// two hundred years from now), a range that `SystemTime` holds on every
/// platform.
pub const MAX_NOW_SECS: u64 = 0x2_0000_0000;

/// Whether rustls's `WebPkiVerifier` (no certificate-transparency policy, no
/// SCTs, no OCSP response) accepts the end-entity certificate `end_entity`
/// with the intermediates `intermediates`, for the server name `server_name`,
/// at `now_secs` seconds after the Unix epoch, trusting `anchors`.
pub uninterp spec fn webpki_accepts(
    anchors: Seq<AnchorView>,
    end_entity: Seq<u8>,
    intermediates: Seq<Seq<u8>>,
    server_name: Seq<char>,
    now_secs: u64,
) -> bool;

/// `WebPkiVerifier::new(roots, None).verify_server_cert(..)` with no SCTs, an
/// empty OCSP response, and the time `UNIX_EPOCH + now_secs` seconds. Its
/// outcome is named by `webpki_accepts`; `name` must be what `name_text`
/// parses to, and only `name` is handed to rustls. Which error rustls
/// returns is not stated. The time is kept below `MAX_NOW_SECS`, which every
/// platform's `SystemTime` can hold, so the addition cannot panic.
#[verifier::external_body]
fn verify_server_cert_at(
    roots: &rustls::RootCertStore,
    end_entity: &Vec<u8>,
    intermediates: &Vec<Vec<u8>>,
    name_text: &str,
    name: &rustls::ServerName,
    now_secs: u64,
) -> (r: Result<(), rustls::Error>)
    requires
        server_name_of(name_text@) == Some(*name),
        now_secs < MAX_NOW_SECS,
    ensures
        r is Ok == webpki_accepts(
            trust_anchors(*roots),
            end_entity@,
            intermediates.deep_view(),
            name_text@,
            now_secs,
        ),
{
    let verifier = WebPkiVerifier::new(roots.clone(), None);
    let end_entity = rustls::Certificate(end_entity.clone());
    let chain: Vec<rustls::Certificate> = intermediates.iter().map(
        |c| rustls::Certificate(c.clone()),
    ).collect();
    let now = UNIX_EPOCH + Duration::from_secs(now_secs);
    verifier.verify_server_cert(&end_entity, &chain, name, &mut std::iter::empty(), &[], now).map(
        |_| (),
    )
}

/// Why `verify_server` refused a chain.
#[derive(Debug)]
pub enum VerifyError {
    /// The server name is neither a valid DNS name nor an IP address.
    InvalidServerName,
    /// rustls rejected the chain.
    Rejected(rustls::Error),
}

/// Checks the chain `chain` (end-entity certificate first, then its
/// intermediates, all DER) for `server_name` at `now_secs` seconds after the
/// Unix epoch, trusting the anchors of `roots`.
pub fn verify_server(
    roots: &rustls::RootCertStore,
    chain: &Vec<Vec<u8>>,
    server_name: &str,
    now_secs: u64,
) -> (res: Result<(), VerifyError>)
    requires
        chain@.len() > 0,
        now_secs < MAX_NOW_SECS,
    ensures
        server_name_of(server_name@) is None <==> res matches Err(VerifyError::InvalidServerName),
        server_name_of(server_name@) is Some ==> (res is Ok <==> webpki_accepts(
            trust_anchors(*roots),
            chain.deep_view()[0],
            chain.deep_view().skip(1),
            server_name@,
            now_secs,
        )),
{
    let end_entity = &chain[0];
    assert(chain.deep_view()[0] == end_entity@);
    let mut intermediates: Vec<Vec<u8>> = Vec::new();
    let mut i: usize = 1;
    while i < chain.len()
        invariant
            1 <= i <= chain.len(),
            intermediates.deep_view() == chain.deep_view().subrange(1, i as int),
        decreases chain.len() - i,
    {
        let cert = chain[i].clone();
        proof {
            assert(cert@ =~= chain@[i as int]@);
            assert(chain.deep_view()[i as int] == chain@[i as int]@);
            assert(chain.deep_view().subrange(1, i + 1) =~= chain.deep_view().subrange(
                1,
                i as int,
            ).push(cert@));
        }
        intermediates.push(cert);
        proof {
            assert(intermediates.deep_view() =~= chain.deep_view().subrange(1, i + 1));
        }
        i = i + 1;
    }
    assert(chain.deep_view().subrange(1, i as int) =~= chain.deep_view().skip(1));
    let name = match parse_server_name(server_name) {
        Some(name) => name,
        None => {
            return Err(VerifyError::InvalidServerName);
        },
    };
    match verify_server_cert_at(roots, end_entity, &intermediates, server_name, &name, now_secs) {
        Ok(()) => Ok(()),
        Err(e) => Err(VerifyError::Rejected(e)),
    }
}

} // verus!
