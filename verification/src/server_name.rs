//! Turning a host name into the `rustls::ServerName` a client connects to.

use vstd::prelude::*;

verus! {

#[verifier::external_type_specification]
#[verifier::external_body]
pub struct ExServerName(rustls::ServerName);

/// What `ServerName::try_from` makes of `name`: a DNS name when it is a
/// syntactically valid one, else an IP address when it parses as one, else
/// nothing.
pub uninterp spec fn server_name_of(name: Seq<char>) -> Option<rustls::ServerName>;

/// `<rustls::ServerName as TryFrom<&str>>::try_from`, named by
/// `server_name_of`; the error, which carries nothing, becomes `None`.
#[verifier::external_body]
pub(crate) fn parse_server_name(name: &str) -> (r: Option<rustls::ServerName>)
    ensures
        r == server_name_of(name@),
{
    rustls::ServerName::try_from(name).ok()
}

/// The server name that `name` stands for; `name` must be a valid DNS name
/// or IP address.
pub fn dns_name(name: &str) -> (r: rustls::ServerName)
    requires
        server_name_of(name@) is Some,
    ensures
        server_name_of(name@) == Some(r),
{
    parse_server_name(name).unwrap()
}

/// The server name that `name` stands for, or `None` when `name` is neither
/// a valid DNS name nor an IP address.
pub fn try_dns_name(name: &str) -> (r: Option<rustls::ServerName>)
    ensures
        r == server_name_of(name@),
{
    if parse_server_name(name).is_some() {
        Some(dns_name(name))
    } else {
        None
    }
}

} // verus!
