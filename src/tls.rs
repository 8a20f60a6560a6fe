use rustls_pki_types::{InvalidDnsNameError, ServerName};
use std::sync::Arc;
use tokio_rustls::rustls::ClientConfig;
use vstd::prelude::*;

use crate::error::{failure_kind, FailureKind, RiemannClientError};
use crate::options::RiemannClientOptions;

verus! {

#[verifier::external_type_specification]
#[verifier::external_body]
pub struct ExServerName<'a>(ServerName<'a>);

#[verifier::external_type_specification]
#[verifier::external_body]
pub struct ExInvalidDnsNameError(InvalidDnsNameError);

/// Whether the TLS layer accepts `host` as the name of a server: a DNS name
/// or an IP address.
pub uninterp spec fn is_server_name(host: Seq<char>) -> bool;

/// Relies on `ServerName::try_from(&str)` of rustls-pki-types, which accepts
/// a DNS name or else an IP address and depends on the text alone, and on
/// `ServerName::to_owned`, which copies the name out of the borrowed text.
#[verifier::external_body]
fn parse_server_name(host: &str) -> (r: Result<ServerName<'static>, InvalidDnsNameError>)
    ensures
        r is Ok <==> is_server_name(host@),
{
    match ServerName::try_from(host) {
        Ok(name) => Ok(name.to_owned()),
        Err(e) => Err(e),
    }
}

/// Relies on `Arc::clone`: a second handle to the same value.
#[verifier::external_body]
fn share_config(config: &Arc<ClientConfig>) -> (r: Arc<ClientConfig>)
    ensures
        r == *config,
{
    config.clone()
}

/// The name a TLS handshake with `host` announces. A host that is neither a
/// DNS name nor an IP address is an invalid-input error.
pub fn tls_server_name(host: &str) -> (r: Result<ServerName<'static>, RiemannClientError>)
    ensures
        r is Ok <==> is_server_name(host@),
        r is Err ==> failure_kind(r->Err_0) == Some(FailureKind::InvalidInput),
{
    match parse_server_name(host) {
        Ok(name) => Ok(name),
        Err(_) => Err(
            RiemannClientError::IoError(FailureKind::InvalidInput, "Invalid DnsName".to_owned()),
        ),
    }
}

/// What a TLS handshake needs from the options: the client configuration and
/// the server name, which is the configured host. Options without a TLS
/// configuration, or whose host is no server name, give an invalid-input
/// error.
pub fn tls_parameters(options: &RiemannClientOptions) -> (r: Result<
    (Arc<ClientConfig>, ServerName<'static>),
    RiemannClientError,
>)
    ensures
        r is Ok <==> options@.tls_config is Some && is_server_name(options@.host),
        r is Ok ==> r->Ok_0.0 == options@.tls_config->Some_0,
        r is Err ==> failure_kind(r->Err_0) == Some(FailureKind::InvalidInput),
{
    let config = match options.tls_config() {
        Some(c) => share_config(c),
        None => {
            return Err(
                RiemannClientError::IoError(
                    FailureKind::InvalidInput,
                    "TLS is on but no TLS configuration was given".to_owned(),
                ),
            );
        },
    };
    let name = tls_server_name(options.host().as_str())?;
    Ok((config, name))
}

} // verus!
