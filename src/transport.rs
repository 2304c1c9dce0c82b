use vstd::prelude::*;
use crate::error::HarnessError;

verus! {

#[verifier::external_type_specification]
#[verifier::external_body]
pub struct ExTlsAcceptor(native_tls::TlsAcceptor);

#[verifier::external_type_specification]
#[verifier::external_body]
pub struct ExTlsConnector(native_tls::TlsConnector);

#[verifier::external_type_specification]
#[verifier::external_body]
pub struct ExTlsConnectorBuilder(native_tls::TlsConnectorBuilder);

/// How a transport endpoint secures its byte stream.
#[derive(Debug, Clone, Copy, PartialEq, Eq, Structural)]
pub enum TlsMode {
    /// No TLS: the WebSocket handshake runs on the raw TCP stream.
    Plain,
    /// TLS, with the platform's trust store on the client side.
    TlsNative,
    /// TLS, with the client trusting the roots it was given.
    TlsCustomRoots,
}

impl TlsMode {
    pub open spec fn spec_is_tls(self) -> bool {
        !(self is Plain)
    }

    /// Whether the stream is wrapped in TLS before the WebSocket handshake.
    pub fn is_tls(&self) -> (r: bool)
        ensures
            r == self.spec_is_tls(),
    {
        match self {
            TlsMode::Plain => false,
            _ => true,
        }
    }
}

/// Whether a client and a server mode can complete a handshake together:
/// both use TLS or neither does.
pub open spec fn spec_modes_compatible(client: TlsMode, server: TlsMode) -> bool {
    client.spec_is_tls() == server.spec_is_tls()
}

/// Whether a client in mode `client` can reach a server in mode `server`.
/// A mismatch is a valid configuration for a negative run.
pub fn modes_compatible(client: TlsMode, server: TlsMode) -> (r: bool)
    ensures
        r == spec_modes_compatible(client, server),
{
    client.is_tls() == server.is_tls()
}

/// Relies on native_tls::TlsAcceptor::new: a one-way TLS acceptor with the
/// default settings, presenting `identity`.
#[verifier::external_body]
fn acceptor_new(identity: native_tls::Identity) -> (r: Result<native_tls::TlsAcceptor, native_tls::Error>) {
    native_tls::TlsAcceptor::new(identity)
}

/// How many root certificates a connector configuration has been given
/// beyond the platform's store.
pub uninterp spec fn builder_root_count(b: native_tls::TlsConnectorBuilder) -> nat;

/// Whether a connector configuration turns hostname verification off.
pub uninterp spec fn builder_skips_hostnames(b: native_tls::TlsConnectorBuilder) -> bool;

/// Whether a connector accepts certificates whose names do not match the
/// host it connects to.
pub uninterp spec fn connector_skips_hostnames(c: native_tls::TlsConnector) -> bool;

/// Relies on native_tls::TlsConnector::builder: a connector configuration
/// with the default settings, which add no root and verify hostnames.
#[verifier::external_body]
fn connector_builder() -> (r: native_tls::TlsConnectorBuilder)
    ensures
        builder_root_count(r) == 0,
        !builder_skips_hostnames(r),
{
    native_tls::TlsConnector::builder()
}

/// Relies on native_tls::TlsConnectorBuilder::add_root_certificate: adds
/// `cert` to the trust anchors of the connector being configured.
#[verifier::external_body]
fn add_root_certificate(builder: &mut native_tls::TlsConnectorBuilder, cert: native_tls::Certificate)
    ensures
        builder_root_count(*final(builder)) == builder_root_count(*old(builder)) + 1,
        builder_skips_hostnames(*final(builder)) == builder_skips_hostnames(*old(builder)),
{
    builder.add_root_certificate(cert);
}

/// Relies on native_tls::TlsConnectorBuilder::danger_accept_invalid_hostnames:
/// turns hostname verification off exactly when `accept` holds.
#[verifier::external_body]
fn accept_invalid_hostnames(builder: &mut native_tls::TlsConnectorBuilder, accept: bool)
    ensures
        builder_skips_hostnames(*final(builder)) == accept,
        builder_root_count(*final(builder)) == builder_root_count(*old(builder)),
{
    builder.danger_accept_invalid_hostnames(accept);
}

/// Relies on native_tls::TlsConnectorBuilder::build: the connector that the
/// configuration describes, hostname setting included.
#[verifier::external_body]
fn connector_build(builder: &native_tls::TlsConnectorBuilder) -> (r: Result<native_tls::TlsConnector, native_tls::Error>)
    ensures
        r matches Ok(c) ==> connector_skips_hostnames(c) == builder_skips_hostnames(*builder),
{
    builder.build()
}

/// Builds the server-side acceptor from a loaded identity. The acceptor asks
/// no certificate of clients. A configuration the TLS library refuses gives
/// `TlsConfig`.
pub fn build_acceptor(identity: native_tls::Identity) -> (r: Result<native_tls::TlsAcceptor, HarnessError>)
    ensures
        r matches Err(e) ==> e == HarnessError::TlsConfig,
{
    match acceptor_new(identity) {
        Ok(a) => Ok(a),
        Err(_) => Err(HarnessError::TlsConfig),
    }
}

/// The connector configuration that adds every certificate of `roots` as a
/// trust anchor and skips hostname verification exactly when asked.
fn configure_connector(roots: Vec<native_tls::Certificate>, skip_hostname_verification: bool) -> (b: native_tls::TlsConnectorBuilder)
    ensures
        builder_root_count(b) == roots@.len(),
        builder_skips_hostnames(b) == skip_hostname_verification,
{
    let mut builder = connector_builder();
    let mut roots = roots;
    let ghost total = roots@.len();
    while roots.len() > 0
        invariant
            builder_root_count(builder) + roots@.len() == total,
            !builder_skips_hostnames(builder),
        decreases roots@.len(),
    {
        let cert = roots.remove(0);
        add_root_certificate(&mut builder, cert);
    }
    accept_invalid_hostnames(&mut builder, skip_hostname_verification);
    builder
}

/// Builds the client-side connector that trusts every certificate of `roots`.
///
/// Chain validation always runs; hostname verification runs unless
/// `skip_hostname_verification` is set, an escape hatch for test setups. An
/// empty trust set gives `TlsConfig`, as does a configuration the TLS library
/// refuses.
pub fn build_connector(roots: Vec<native_tls::Certificate>, skip_hostname_verification: bool) -> (r: Result<native_tls::TlsConnector, HarnessError>)
    ensures
        r matches Err(e) ==> e == HarnessError::TlsConfig,
        roots@.len() == 0 ==> r is Err,
        r matches Ok(c) ==> connector_skips_hostnames(c) == skip_hostname_verification,
{
    if roots.len() == 0 {
        return Err(HarnessError::TlsConfig);
    }
    let builder = configure_connector(roots, skip_hostname_verification);
    match connector_build(&builder) {
        Ok(c) => Ok(c),
        Err(_) => Err(HarnessError::TlsConfig),
    }
}

/// Builds a client-side connector that trusts the platform's root store,
/// with chain and hostname verification on. A configuration the TLS library
/// refuses gives `TlsConfig`.
pub fn build_platform_connector() -> (r: Result<native_tls::TlsConnector, HarnessError>)
    ensures
        r matches Err(e) ==> e == HarnessError::TlsConfig,
        r matches Ok(c) ==> !connector_skips_hostnames(c),
{
    let builder = connector_builder();
    match connector_build(&builder) {
        Ok(c) => Ok(c),
        Err(_) => Err(HarnessError::TlsConfig),
    }
}

} // verus!
