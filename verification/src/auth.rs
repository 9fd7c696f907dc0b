//! Password authentication for one connection.

use vstd::prelude::*;

verus! {

/// Whether a byte sequence is well-formed UTF-8, as `str::from_utf8`
/// decides it.
pub uninterp spec fn is_valid_utf8(bytes: Seq<u8>) -> bool;

/// Relies on std::str::from_utf8: it returns `Ok` exactly on well-formed
/// UTF-8 input, from the bytes alone.
#[verifier::external_body]
fn utf8_valid(bytes: &[u8]) -> (r: bool)
    ensures
        r == is_valid_utf8(bytes@),
{
    core::str::from_utf8(bytes).is_ok()
}

/// Byte-for-byte equality of two slices.
pub fn bytes_equal(a: &[u8], b: &[u8]) -> (r: bool)
    ensures
        r == (a@ == b@),
{
    if a.len() != b.len() {
        return false;
    }
    let mut i: usize = 0;
    while i < a.len()
        invariant
            i <= a@.len(),
            a@.len() == b@.len(),
            forall|j: int| 0 <= j < i ==> a@[j] == b@[j],
        decreases a@.len() - i,
    {
        if a[i] != b[i] {
            return false;
        }
        i = i + 1;
    }
    proof {
        assert(a@ =~= b@);
    }
    true
}

/// The outcome of judging one candidate password.
#[derive(Clone, Copy, Debug, PartialEq, Eq, Structural)]
pub enum AuthOutcome {
    /// The candidate equals the configured secret: the session opens.
    Accepted,
    /// A well-formed candidate that differs from the secret: the connection
    /// closes with no reply.
    Rejected,
    /// The candidate bytes are not UTF-8: the stream counts as corrupted and
    /// the connection closes with no reply.
    Corrupted,
}

/// The outcome owed to a candidate: corrupted when the bytes are not
/// UTF-8, accepted exactly on the configured secret, rejected otherwise.
pub open spec fn spec_auth_outcome(candidate: Seq<u8>, secret: Seq<u8>) -> AuthOutcome {
    if !is_valid_utf8(candidate) {
        AuthOutcome::Corrupted
    } else if candidate == secret {
        AuthOutcome::Accepted
    } else {
        AuthOutcome::Rejected
    }
}

/// The bytes the server answers an outcome with: the single confirmation byte
/// `0x00` on acceptance, nothing otherwise.
pub open spec fn spec_auth_reply(o: AuthOutcome) -> Seq<u8> {
    if o == AuthOutcome::Accepted {
        seq![0u8]
    } else {
        Seq::<u8>::empty()
    }
}

/// Judges one candidate password against the configured secret.
pub fn auth_decision(candidate: &[u8], secret: &[u8]) -> (o: AuthOutcome)
    ensures
        o == spec_auth_outcome(candidate@, secret@),
{
    if !utf8_valid(candidate) {
        AuthOutcome::Corrupted
    } else if bytes_equal(candidate, secret) {
        AuthOutcome::Accepted
    } else {
        AuthOutcome::Rejected
    }
}

/// The reply owed to an outcome: exactly one `0x00` byte on acceptance and
/// nothing — not even an error byte — on rejection or corruption.
pub fn auth_reply(o: AuthOutcome) -> (r: Vec<u8>)
    ensures
        r@ == spec_auth_reply(o),
{
    let mut r: Vec<u8> = Vec::new();
    if matches!(o, AuthOutcome::Accepted) {
        r.push(0u8);
    }
    proof {
        assert(r@ =~= spec_auth_reply(o));
    }
    r
}

/// Authentication accepts exactly the configured secret. A candidate equal to a
/// well-formed secret is accepted and answered with the single confirmation
/// byte `0x00`; any candidate that differs from the secret — in content or
/// in length — is never accepted and is answered with nothing.
pub proof fn lemma_auth_exact(candidate: Seq<u8>, secret: Seq<u8>)
    ensures
        is_valid_utf8(secret) && candidate == secret ==> spec_auth_outcome(candidate, secret)
            == AuthOutcome::Accepted && spec_auth_reply(spec_auth_outcome(candidate, secret))
            == seq![0u8],
        candidate != secret ==> spec_auth_outcome(candidate, secret) != AuthOutcome::Accepted
            && spec_auth_reply(spec_auth_outcome(candidate, secret)) == Seq::<u8>::empty(),
{
}

} // verus!
