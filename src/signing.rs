//! Whether a signer can sign: its key material must decode.
use vstd::prelude::*;
use near_crypto::Signer;
use crate::ledger::{
    ed25519_keypair_ok, ed25519_keypair_valid, key_material_of, ml_dsa_65_key_ok,
    ml_dsa_65_key_valid, signer_key_material,
};

verus! {

/// The secret key bytes that a signer holds, by key type.
pub enum KeyMaterial {
    Ed25519([u8; 64]),
    Secp256k1,
    MlDsa65(Vec<u8>),
}

/// The mathematical value of [`KeyMaterial`].
pub enum KeyMaterialView {
    Ed25519(Seq<u8>),
    Secp256k1,
    MlDsa65(Seq<u8>),
}

/// The view of an optional [`KeyMaterial`].
pub open spec fn key_material_view(m: Option<KeyMaterial>) -> Option<KeyMaterialView> {
    match m {
        None => None,
        Some(KeyMaterial::Ed25519(b)) => Some(KeyMaterialView::Ed25519(b@)),
        Some(KeyMaterial::Secp256k1) => Some(KeyMaterialView::Secp256k1),
        Some(KeyMaterial::MlDsa65(raw)) => Some(KeyMaterialView::MlDsa65(raw@)),
    }
}

/// The view of an optional receiver and list of method names.
pub open spec fn names_view(n: Option<(String, Vec<String>)>) -> Option<(Seq<char>, Seq<Seq<char>>)> {
    match n {
        None => None,
        Some((receiver, methods)) => Some((receiver@, methods@.map_values(|m: String| m@))),
    }
}

/// Whether `signer` signs without failing: a signer without a key, a secp256k1 key, or an
/// ed25519 or ML-DSA-65 key that decodes.
pub open spec fn signer_can_sign(s: Signer) -> bool {
    match key_material_of(s) {
        None => true,
        Some(KeyMaterialView::Ed25519(b)) => ed25519_keypair_valid(b),
        Some(KeyMaterialView::Secp256k1) => true,
        Some(KeyMaterialView::MlDsa65(raw)) => ml_dsa_65_key_valid(raw),
    }
}

/// Whether `signer`'s signature depends on the signed bytes alone: every scheme but ML-DSA-65.
pub open spec fn signs_deterministically(s: Signer) -> bool {
    !(key_material_of(s) matches Some(KeyMaterialView::MlDsa65(_)))
}

/// The reason a signing fails.
#[derive(Debug, Clone, Copy, PartialEq, Eq)]
pub enum SigningError {
    /// The signer's secret key does not decode.
    MalformedKey,
}

/// Whether `signer` can sign.
pub fn can_sign(signer: &Signer) -> (r: bool)
    ensures
        r == signer_can_sign(*signer),
{
    match signer_key_material(signer) {
        None => true,
        Some(KeyMaterial::Ed25519(b)) => ed25519_keypair_ok(&b),
        Some(KeyMaterial::Secp256k1) => true,
        Some(KeyMaterial::MlDsa65(raw)) => ml_dsa_65_key_ok(&raw),
    }
}

} // verus!
