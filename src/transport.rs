//! Which channel a request travels over: a plain socket, or a TLS session
//! whose server name is the endpoint's host.
use vstd::prelude::*;
use crate::error::HttpError;
use crate::url::{is_secure_scheme, Endpoint};

verus! {

/// The kind of channel a request is sent over.
#[derive(Debug, Clone, Copy, PartialEq, Eq, Structural)]
pub enum Transport {
    Plain,
    Secure,
}

/// Whether `host` is a valid TLS server name (a DNS name or an IP address).
pub uninterp spec fn is_server_name(host: Seq<char>) -> bool;

/// Relies on `rustls::pki_types::ServerName::try_from(&str)`: it accepts the
/// text when it is a valid DNS name or IP address, and its answer depends
/// on the text alone.
#[verifier::external_body]
fn server_name_valid(host: &str) -> (r: bool)
    ensures
        r == is_server_name(host@),
{
    rustls::pki_types::ServerName::try_from(host).is_ok()
}

/// The transport for an endpoint, given whether its scheme is secure and
/// whether its host is a valid server name: a secure scheme needs a valid
/// name, and fails with `InvalidUrl` naming the host otherwise.
pub fn choose_transport(secure: bool, name_valid: bool, host: &str) -> (r: Result<Transport, HttpError>)
    ensures
        !secure ==> r == Ok::<Transport, HttpError>(Transport::Plain),
        secure && name_valid ==> r == Ok::<Transport, HttpError>(Transport::Secure),
        secure && !name_valid ==> (r matches Err(HttpError::InvalidUrl(m)) && m@ == host@),
{
    if !secure {
        Ok(Transport::Plain)
    } else if name_valid {
        Ok(Transport::Secure)
    } else {
        Err(HttpError::InvalidUrl(host.to_owned()))
    }
}

/// The transport for `e`: plain unless its scheme is `https`, in which case
/// its host must be a valid server name.
pub fn select_transport(e: &Endpoint) -> (r: Result<Transport, HttpError>)
    ensures
        !is_secure_scheme(e.scheme@) ==> r == Ok::<Transport, HttpError>(Transport::Plain),
        is_secure_scheme(e.scheme@) && is_server_name(e.host@) ==> r == Ok::<
            Transport,
            HttpError,
        >(Transport::Secure),
        is_secure_scheme(e.scheme@) && !is_server_name(e.host@) ==> (r matches Err(
            HttpError::InvalidUrl(m),
        ) && m@ == e.host@),
{
    let secure = e.is_secure();
    if !secure {
        return Ok(Transport::Plain);
    }
    let valid = server_name_valid(e.host.as_str());
    choose_transport(secure, valid, e.host.as_str())
}

} // verus!
