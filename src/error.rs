use vstd::prelude::*;

verus! {

/// Every failure the harness can report.
///
/// The first four are setup failures: the run cannot proceed without valid
/// credentials and a valid transport configuration. The handshake failures
/// belong to a single connection; the accept and connect failures end the
/// acceptor loop and the client driver respectively.
#[derive(Debug, Clone, Copy, PartialEq, Eq, Structural)]
pub enum HarnessError {
    /// The credential source could not be read.
    CredentialLoad,
    /// The credential source did not decode (wrong password, malformed PEM or DER).
    CredentialFormat,
    /// The number of certificates found differs from what the caller required.
    CredentialCount { found: usize },
    /// The transport could not be configured from the given credentials.
    TlsConfig,
    /// The TLS handshake failed on one connection.
    TlsHandshake,
    /// The WebSocket opening handshake failed on one connection.
    WebSocketHandshake,
    /// Accepting on the listener failed; the acceptor loop ends.
    TcpAccept,
    /// Connecting to the listener failed; the client driver ends.
    TcpConnect,
}

impl HarnessError {
    /// Setup failures abort the whole run.
    pub open spec fn spec_is_setup(self) -> bool {
        match self {
            HarnessError::CredentialLoad => true,
            HarnessError::CredentialFormat => true,
            HarnessError::CredentialCount { .. } => true,
            HarnessError::TlsConfig => true,
            _ => false,
        }
    }

    /// Per-connection failures are contained to the connection they occur on.
    pub open spec fn spec_is_per_connection(self) -> bool {
        match self {
            HarnessError::TlsHandshake => true,
            HarnessError::WebSocketHandshake => true,
            _ => false,
        }
    }

    /// Whether this failure happens while the run is being set up, and so
    /// aborts the run at once.
    pub fn is_setup(&self) -> (r: bool)
        ensures
            r == self.spec_is_setup(),
    {
        match self {
            HarnessError::CredentialLoad => true,
            HarnessError::CredentialFormat => true,
            HarnessError::CredentialCount { .. } => true,
            HarnessError::TlsConfig => true,
            _ => false,
        }
    }

    /// Whether this failure belongs to a single connection's handshake.
    pub fn is_per_connection(&self) -> (r: bool)
        ensures
            r == self.spec_is_per_connection(),
    {
        match self {
            HarnessError::TlsHandshake => true,
            HarnessError::WebSocketHandshake => true,
            _ => false,
        }
    }
}

} // verus!
