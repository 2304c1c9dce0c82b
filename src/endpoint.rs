use vstd::prelude::*;
use crate::transport::TlsMode;

verus! {

/// The decimal digits of `n`, most significant first, with no leading zero.
pub open spec fn decimal(n: nat) -> Seq<char>
    decreases n,
{
    if n < 10 {
        seq![digit_char(n)]
    } else {
        decimal(n / 10).push(digit_char(n % 10))
    }
}

pub open spec fn digit_char(d: nat) -> char {
    if d < 10 { (('0' as u8) + d) as char } else { '0' }
}

/// The loopback host the harness binds and connects to.
pub open spec fn loopback_host() -> Seq<char> {
    seq!['1', '2', '7', '.', '0', '.', '0', '.', '1']
}

/// The `host:port` authority of the loopback endpoint on `port`.
pub open spec fn spec_authority(port: u16) -> Seq<char> {
    loopback_host().push(':') + decimal(port as nat)
}

/// The URL scheme for a transport mode: `wss` over TLS, `ws` otherwise.
pub open spec fn spec_scheme(mode: TlsMode) -> Seq<char> {
    if mode.spec_is_tls() { seq!['w', 's', 's'] } else { seq!['w', 's'] }
}

/// The URL a client opens to reach the loopback endpoint on `port`.
pub open spec fn spec_connect_url(mode: TlsMode, port: u16) -> Seq<char> {
    spec_scheme(mode) + seq![':', '/', '/'] + spec_authority(port)
}

/// Where a transport endpoint listens, and how it secures its streams.
/// Port 0 asks the operating system for an ephemeral port.
#[derive(Debug, Clone, Copy, PartialEq, Eq, Structural)]
pub struct EndpointConfig {
    pub port: u16,
    pub mode: TlsMode,
}

fn append_digit(s: &mut String, d: u16)
    requires
        d < 10,
    ensures
        final(s)@ == old(s)@.push(digit_char(d as nat)),
{
    let lit = match d {
        0 => "0",
        1 => "1",
        2 => "2",
        3 => "3",
        4 => "4",
        5 => "5",
        6 => "6",
        7 => "7",
        8 => "8",
        _ => "9",
    };
    proof {
        reveal_strlit("0");
        reveal_strlit("1");
        reveal_strlit("2");
        reveal_strlit("3");
        reveal_strlit("4");
        reveal_strlit("5");
        reveal_strlit("6");
        reveal_strlit("7");
        reveal_strlit("8");
        reveal_strlit("9");
    }
    s.append(lit);
    assert(final(s)@ =~= old(s)@.push(digit_char(d as nat)));
}

/// Appends the decimal digits of `n` to `s`.
fn append_decimal(s: &mut String, n: u16)
    ensures
        final(s)@ == old(s)@ + decimal(n as nat),
    decreases n,
{
    if n >= 10 {
        append_decimal(s, n / 10);
    }
    append_digit(s, n % 10);
    assert(final(s)@ =~= old(s)@ + decimal(n as nat));
}

/// The `host:port` text that the listener binds to: `127.0.0.1:<port>`.
pub fn authority(port: u16) -> (r: String)
    ensures
        r@ == spec_authority(port),
{
    let mut s = String::from_str("127.0.0.1:");
    proof {
        reveal_strlit("127.0.0.1:");
    }
    append_decimal(&mut s, port);
    assert(s@ =~= spec_authority(port));
    s
}

/// The URL the client driver opens to reach the listener bound on `port`:
/// `wss://127.0.0.1:<port>` over TLS, `ws://127.0.0.1:<port>` otherwise.
pub fn connect_url(mode: TlsMode, port: u16) -> (r: String)
    ensures
        r@ == spec_connect_url(mode, port),
{
    let mut s = if mode.is_tls() {
        String::from_str("wss://")
    } else {
        String::from_str("ws://")
    };
    proof {
        reveal_strlit("wss://");
        reveal_strlit("ws://");
    }
    let a = authority(port);
    s.append(a.as_str());
    assert(s@ =~= spec_connect_url(mode, port));
    s
}

impl EndpointConfig {
    /// A loopback endpoint on an ephemeral port.
    pub fn ephemeral(mode: TlsMode) -> (r: EndpointConfig)
        ensures
            r.port == 0,
            r.mode == mode,
    {
        EndpointConfig { port: 0, mode }
    }

    /// The address the listener binds to.
    pub fn bind_address(&self) -> (r: String)
        ensures
            r@ == spec_authority(self.port),
    {
        authority(self.port)
    }
}

} // verus!
