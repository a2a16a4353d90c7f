use vstd::prelude::*;

use crate::bytes::bytes_clone;

verus! {

/// Which of the three collaborating units of a hedge an address belongs to:
/// the hedge-side vault, the risk-side vault, or the controller.
#[derive(Clone, Copy, Debug, PartialEq, Eq, Structural)]
pub enum Role {
    Hedge,
    Risk,
    Ctrl,
}

/// The 32-byte SHA-256 digest of a byte sequence.
pub uninterp spec fn sha256_of(data: Seq<u8>) -> Seq<u8>;

/// Relies on `sha2::Sha256` through the `Digest` trait: the digest depends on
/// the input bytes alone, and a SHA-256 digest is 32 bytes long.
#[verifier::external_body]
fn sha256(data: &Vec<u8>) -> (r: Vec<u8>)
    ensures
        r@ == sha256_of(data@),
        r@.len() == 32,
{
    let digest = <sha2::Sha256 as sha2::Digest>::digest(data.as_slice());
    digest.as_slice().to_vec()
}

/// The ASCII discriminator appended to a hedge identifier before hashing:
/// `"hedge"`, `"risk"` or `"ctrl"`.
pub open spec fn role_tag(role: Role) -> Seq<u8> {
    match role {
        Role::Hedge => seq![104u8, 101u8, 100u8, 103u8, 101u8],
        Role::Risk => seq![114u8, 105u8, 115u8, 107u8],
        Role::Ctrl => seq![99u8, 116u8, 114u8, 108u8],
    }
}

/// The address of the unit with the given role: the SHA-256 digest of the
/// hedge identifier followed by the role's discriminator. A pure function of
/// its arguments, so a hedge's topology can be computed before anything is
/// deployed.
pub open spec fn address_of(hedge_id: Seq<u8>, role: Role) -> Seq<u8> {
    sha256_of(hedge_id + role_tag(role))
}

/// Derives the address of the unit with the given role for a hedge identifier.
pub fn derive_address(hedge_id: &Vec<u8>, role: Role) -> (r: Vec<u8>)
    ensures
        r@ == address_of(hedge_id@, role),
        r@.len() == 32,
{
    let mut preimage = bytes_clone(hedge_id);
    match role {
        Role::Hedge => {
            preimage.push(104u8);
            preimage.push(101u8);
            preimage.push(100u8);
            preimage.push(103u8);
            preimage.push(101u8);
        }
        Role::Risk => {
            preimage.push(114u8);
            preimage.push(105u8);
            preimage.push(115u8);
            preimage.push(107u8);
        }
        Role::Ctrl => {
            preimage.push(99u8);
            preimage.push(116u8);
            preimage.push(114u8);
            preimage.push(108u8);
        }
    }
    assert(preimage@ =~= hedge_id@ + role_tag(role));
    sha256(&preimage)
}

} // verus!
