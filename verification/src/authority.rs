//! Deterministic authority derivation: the signing identity that alone may
//! move funds out of a migration's pooled vault is a pure function of a
//! fixed domain label, the migration's admin identity, its source chain, and
//! a disambiguation nonce. Anyone can recompute it; no stored secret exists.

use vstd::prelude::*;
use crate::bytes::{u16_le, u16_le_bytes, push_all};
use crate::hashing::{sha256_of, sha256};

verus! {

/// The fixed domain label that namespaces derived authorities.
pub open spec fn domain_label() -> Seq<u8> {
    seq![109u8, 105u8, 103u8, 114u8, 97u8, 116u8, 105u8, 111u8, 110u8]
}

/// The bytes hashed to derive a migration's authority: the domain label,
/// the admin identity, the source chain as two little-endian bytes, and the
/// disambiguation nonce.
pub open spec fn authority_preimage(admin: Seq<u8>, source_chain: u16, nonce: u8) -> Seq<u8> {
    domain_label() + admin + u16_le(source_chain) + seq![nonce]
}

/// The authority identity derived for a migration.
pub open spec fn authority_of(admin: Seq<u8>, source_chain: u16, nonce: u8) -> Seq<u8> {
    sha256_of(authority_preimage(admin, source_chain, nonce))
}

/// Returns the domain label as bytes ("migration" in ASCII).
fn domain_label_bytes() -> (r: Vec<u8>)
    ensures
        r@ == domain_label(),
{
    let mut r: Vec<u8> = Vec::new();
    r.push(109u8);
    r.push(105u8);
    r.push(103u8);
    r.push(114u8);
    r.push(97u8);
    r.push(116u8);
    r.push(105u8);
    r.push(111u8);
    r.push(110u8);
    proof {
        assert(r@ =~= domain_label());
    }
    r
}

/// Derives the authority identity bound to a migration. The same inputs
/// always yield the same authority.
pub fn derive_authority(admin: &Vec<u8>, source_chain: u16, nonce: u8) -> (r: Vec<u8>)
    requires
        admin@.len() == 32,
    ensures
        r@ == authority_of(admin@, source_chain, nonce),
        r@.len() == 32,
{
    let mut buf = domain_label_bytes();
    push_all(&mut buf, admin);
    let chain_bytes = u16_le_bytes(source_chain);
    push_all(&mut buf, &chain_bytes);
    buf.push(nonce);
    proof {
        assert(buf@ =~= authority_preimage(admin@, source_chain, nonce));
    }
    sha256(&buf)
}

} // verus!
