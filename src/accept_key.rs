use vstd::prelude::*;

verus! {

/// The `Sec-WebSocket-Accept` value that answers the `Sec-WebSocket-Key`
/// bytes `key`: the base64 of the SHA-1 of the key followed by the fixed
/// WebSocket GUID.
pub uninterp spec fn accept_key_of(key: Seq<u8>) -> Seq<char>;

/// Relies on tungstenite::handshake::derive_accept_key: the accept value for
/// a request key, which depends on the key bytes alone.
#[verifier::external_body]
fn derive_accept_key(key: &[u8]) -> (r: String)
    ensures
        r@ == accept_key_of(key@),
{
    tokio_tungstenite::tungstenite::handshake::derive_accept_key(key)
}

/// Whether a client that sent `key` accepts the server's answer `received`.
pub open spec fn spec_client_accepts(key: Seq<u8>, received: Seq<char>) -> bool {
    received == accept_key_of(key)
}

/// The accept value a server answers the request key `key` with.
pub fn server_accept_value(key: &[u8]) -> (r: String)
    ensures
        r@ == accept_key_of(key@),
{
    derive_accept_key(key)
}

/// Compares the accept value a client computed from its own key with the one
/// the server sent: the handshake goes on only when they are equal.
pub fn accept_matches(computed: &str, received: &str) -> (r: bool)
    ensures
        r == (computed@ == received@),
{
    let n = computed.unicode_len();
    if n != received.unicode_len() {
        assert(computed@.len() != received@.len());
        return false;
    }
    let mut i: usize = 0;
    while i < n
        invariant
            n == computed@.len(),
            n == received@.len(),
            i <= n,
            forall|j: int| 0 <= j < i ==> computed@[j] == received@[j],
        decreases n - i,
    {
        if computed.get_char(i) != received.get_char(i) {
            return false;
        }
        i = i + 1;
    }
    assert(computed@ =~= received@);
    true
}

/// The client-side check of the server's `Sec-WebSocket-Accept` header: it
/// recomputes the value from the key it sent and compares.
pub fn client_accepts(key: &[u8], received: &str) -> (r: bool)
    ensures
        r == spec_client_accepts(key@, received@),
{
    let computed = derive_accept_key(key);
    accept_matches(computed.as_str(), received)
}

/// A server that read the client's key unchanged answers with a value the
/// client accepts; an answer that differs from the value for the client's
/// own key, whether the header or the key it was computed from was altered
/// on the way, is refused.
pub proof fn lemma_accept_round_trip(sent: Seq<u8>, parsed: Seq<u8>, received: Seq<char>)
    ensures
        parsed == sent ==> spec_client_accepts(sent, accept_key_of(parsed)),
        received != accept_key_of(sent) ==> !spec_client_accepts(sent, received),
{
}

} // verus!
