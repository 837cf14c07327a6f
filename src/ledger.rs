//! Declarations of the ledger library's types, and the calls into it.
use vstd::prelude::*;
use aws_lc_rs::unstable::signature::{ML_DSA_65_SIGNING, PqdsaKeyPair};
use near_crypto::{PublicKey, SecretKey, Signature, Signer};
use near_primitives::account::AccessKey;
use near_primitives::gas::Gas;
use near_primitives::hash::CryptoHash;
use near_primitives::transaction::{
    Action as LedgerAction, AddKeyAction, CreateAccountAction, DeleteAccountAction,
    DeleteKeyAction, DeployContractAction, FunctionCallAction, SignedTransaction, StakeAction,
    Transaction, TransactionV0, TransferAction,
};
use near_primitives::types::{AccountId, Balance};
use crate::action::OperationView;
use crate::builder::{encodable, ledger_form_of};
use crate::signing::{KeyMaterial, KeyMaterialView, key_material_view, names_view, signer_can_sign,
    signs_deterministically};

verus! {

#[verifier::external_type_specification]
#[verifier::external_body]
pub struct ExPublicKey(near_crypto::PublicKey);

#[verifier::external_type_specification]
#[verifier::external_body]
pub struct ExSignature(near_crypto::Signature);

#[verifier::external_type_specification]
#[verifier::external_body]
pub struct ExSigner(near_crypto::Signer);

#[verifier::external_type_specification]
#[verifier::external_body]
pub struct ExAccountId(near_primitives::types::AccountId);

#[verifier::external_type_specification]
#[verifier::external_body]
pub struct ExAccessKey(near_primitives::account::AccessKey);

#[verifier::external_type_specification]
#[verifier::external_body]
pub struct ExLedgerAction(near_primitives::transaction::Action);

#[verifier::external_type_specification]
#[verifier::external_body]
pub struct ExTransaction(near_primitives::transaction::Transaction);

#[verifier::external_type_specification]
#[verifier::external_body]
pub struct ExSignedTransaction(near_primitives::transaction::SignedTransaction);

#[verifier::external_type_specification]
#[verifier::external_body]
pub struct ExSecretKey(near_crypto::SecretKey);

/// `PublicKey`'s `Clone` is derived: the copy equals the value cloned.
pub assume_specification[ <near_crypto::PublicKey as Clone>::clone ](
    k: &near_crypto::PublicKey,
) -> (r: near_crypto::PublicKey)
    ensures
        r == *k,
;

/// `AccountId`'s `Clone` is derived: the copy equals the value cloned.
pub assume_specification[ <near_primitives::types::AccountId as Clone>::clone ](
    a: &near_primitives::types::AccountId,
) -> (r: near_primitives::types::AccountId)
    ensures
        r == *a,
;

/// `AccessKey`'s `Clone` is derived: the copy equals the value cloned.
pub assume_specification[ <near_primitives::account::AccessKey as Clone>::clone ](
    a: &near_primitives::account::AccessKey,
) -> (r: near_primitives::account::AccessKey)
    ensures
        r == *a,
;

/// The ledger library's value for an action.
pub uninterp spec fn ledger_action_of(a: OperationView) -> LedgerAction;

/// The ledger library's `Transaction::V0` with the given fields.
pub uninterp spec fn ledger_transaction_of(
    signer_id: AccountId,
    public_key: PublicKey,
    receiver_id: AccountId,
    nonce: u64,
    block_hash: Seq<u8>,
    actions: Seq<LedgerAction>,
) -> Transaction;

/// The ledger's hash of a transaction's wire encoding.
pub uninterp spec fn ledger_hash_of(t: Transaction) -> Seq<u8>;

/// The signature a signer with a deterministic scheme gives on `data`.
pub uninterp spec fn signature_of(signer: Signer, data: Seq<u8>) -> Signature;

/// Whether `signature` is one that `signer` can give when it signs `data`.
pub uninterp spec fn signed_by(signer: Signer, data: Seq<u8>, signature: Signature) -> bool;

/// The key material a signer holds; none for a signer without a key.
pub uninterp spec fn key_material_of(signer: Signer) -> Option<KeyMaterialView>;

/// Whether 64 bytes decode as an ed25519 key pair whose public half matches its secret half.
pub uninterp spec fn ed25519_keypair_valid(bytes: Seq<u8>) -> bool;

/// Whether bytes decode as a raw ML-DSA-65 private key.
pub uninterp spec fn ml_dsa_65_key_valid(raw: Seq<u8>) -> bool;

/// For a function-call access key, its receiver and its method names; none for another key.
pub uninterp spec fn function_call_names_of(a: AccessKey) -> Option<(Seq<char>, Seq<Seq<char>>)>;

/// The ledger library's signed transaction for a signature and a transaction.
pub uninterp spec fn ledger_signed_of(signature: Signature, t: Transaction) -> SignedTransaction;

/// Relies on the ledger's `Action::CreateAccount` variant.
#[verifier::external_body]
pub(crate) fn ledger_create_account() -> (r: LedgerAction)
    ensures
        r == ledger_action_of(OperationView::CreateAccount),
{
    LedgerAction::CreateAccount(CreateAccountAction {})
}

/// Relies on the ledger's `Action::DeployContract` variant.
#[verifier::external_body]
pub(crate) fn ledger_deploy_contract(code: &Vec<u8>) -> (r: LedgerAction)
    ensures
        r == ledger_action_of(OperationView::DeployContract { code: code@ }),
{
    LedgerAction::DeployContract(DeployContractAction { code: code.clone() })
}

/// Relies on the ledger's `Action::FunctionCall` variant, with `Gas::from_gas` and
/// `NearToken::from_yoctonear` for the amounts.
#[verifier::external_body]
pub(crate) fn ledger_function_call(
    method_name: &String,
    args: &Vec<u8>,
    gas: u64,
    deposit: u128,
) -> (r: LedgerAction)
    ensures
        r == ledger_action_of(
            OperationView::FunctionCall { method_name: method_name@, args: args@, gas, deposit },
        ),
{
    LedgerAction::FunctionCall(Box::new(FunctionCallAction {
        method_name: method_name.clone(),
        args: args.clone(),
        gas: Gas::from_gas(gas),
        deposit: Balance::from_yoctonear(deposit),
    }))
}

/// Relies on the ledger's `Action::Transfer` variant and `NearToken::from_yoctonear`.
#[verifier::external_body]
pub(crate) fn ledger_transfer(deposit: u128) -> (r: LedgerAction)
    ensures
        r == ledger_action_of(OperationView::Transfer { deposit }),
{
    LedgerAction::Transfer(TransferAction { deposit: Balance::from_yoctonear(deposit) })
}

/// Relies on the ledger's `Action::Stake` variant and `NearToken::from_yoctonear`.
#[verifier::external_body]
pub(crate) fn ledger_stake(stake: u128, public_key: &PublicKey) -> (r: LedgerAction)
    ensures
        r == ledger_action_of(OperationView::Stake { stake, public_key: *public_key }),
{
    LedgerAction::Stake(
        Box::new(StakeAction { stake: Balance::from_yoctonear(stake), public_key: public_key.clone() }),
    )
}

/// Relies on the ledger's `Action::AddKey` variant.
#[verifier::external_body]
pub(crate) fn ledger_add_key(public_key: &PublicKey, access_key: &AccessKey) -> (r: LedgerAction)
    ensures
        r == ledger_action_of(OperationView::AddKey { public_key: *public_key, access_key: *access_key }),
{
    LedgerAction::AddKey(
        Box::new(AddKeyAction { public_key: public_key.clone(), access_key: access_key.clone() }),
    )
}

/// Relies on the ledger's `Action::DeleteKey` variant.
#[verifier::external_body]
pub(crate) fn ledger_delete_key(public_key: &PublicKey) -> (r: LedgerAction)
    ensures
        r == ledger_action_of(OperationView::DeleteKey { public_key: *public_key }),
{
    LedgerAction::DeleteKey(Box::new(DeleteKeyAction { public_key: public_key.clone() }))
}

/// Relies on the ledger's `Action::DeleteAccount` variant.
#[verifier::external_body]
pub(crate) fn ledger_delete_account(beneficiary_id: &AccountId) -> (r: LedgerAction)
    ensures
        r == ledger_action_of(OperationView::DeleteAccount { beneficiary_id: *beneficiary_id }),
{
    LedgerAction::DeleteAccount(DeleteAccountAction { beneficiary_id: beneficiary_id.clone() })
}

/// Relies on the ledger's `Transaction::V0` variant, with `CryptoHash` over the 32 bytes.
#[verifier::external_body]
pub(crate) fn ledger_transaction(
    signer_id: &AccountId,
    public_key: &PublicKey,
    receiver_id: &AccountId,
    nonce: u64,
    block_hash: [u8; 32],
    actions: Vec<LedgerAction>,
) -> (r: Transaction)
    ensures
        r == ledger_transaction_of(
            *signer_id,
            *public_key,
            *receiver_id,
            nonce,
            block_hash@,
            actions@,
        ),
{
    Transaction::V0(TransactionV0 {
        signer_id: signer_id.clone(),
        public_key: public_key.clone(),
        nonce,
        receiver_id: receiver_id.clone(),
        block_hash: CryptoHash(block_hash),
        actions,
    })
}

/// Relies on `Transaction::get_hash_and_size`: the hash of the transaction's wire encoding.
/// The encoding fails, and the call panics, where a length exceeds `u32::MAX`: the
/// transaction is the ledger form of a record whose lengths fit.
#[verifier::external_body]
pub(crate) fn transaction_hash(t: &Transaction) -> (r: [u8; 32])
    requires
        exists|rec| #[trigger] ledger_form_of(rec) == *t && encodable(rec),
    ensures
        r@ == ledger_hash_of(*t),
{
    t.get_hash_and_size().0.0
}

/// Relies on the variants of `Signer` and `SecretKey`: the key bytes of an in-memory signer.
#[verifier::external_body]
pub(crate) fn signer_key_material(signer: &Signer) -> (r: Option<KeyMaterial>)
    ensures
        key_material_of(*signer) == key_material_view(r),
{
    match signer {
        Signer::Empty(_) => None,
        Signer::InMemory(s) => Some(match &s.secret_key {
            SecretKey::ED25519(k) => KeyMaterial::Ed25519(k.0),
            SecretKey::SECP256K1(_) => KeyMaterial::Secp256k1,
            SecretKey::MLDSA65(k) => KeyMaterial::MlDsa65(k.0.to_vec()),
        }),
    }
}

/// Relies on `ed25519_dalek::SigningKey::from_keypair_bytes`: the decode that ed25519 signing
/// unwraps.
#[verifier::external_body]
pub(crate) fn ed25519_keypair_ok(bytes: &[u8; 64]) -> (r: bool)
    ensures
        r == ed25519_keypair_valid(bytes@),
{
    ed25519_dalek::SigningKey::from_keypair_bytes(bytes).is_ok()
}

/// Relies on `PqdsaKeyPair::from_raw_private_key` for ML-DSA-65: the decode that ML-DSA-65
/// signing expects to succeed.
#[verifier::external_body]
pub(crate) fn ml_dsa_65_key_ok(raw: &Vec<u8>) -> (r: bool)
    ensures
        r == ml_dsa_65_key_valid(raw@),
{
    PqdsaKeyPair::from_raw_private_key(&ML_DSA_65_SIGNING, raw.as_slice()).is_ok()
}

/// Relies on `AccessKeyPermission::function_call_permission`: the receiver and method names
/// of a function-call key, the only strings an access key encodes.
#[verifier::external_body]
pub(crate) fn function_call_names(a: &AccessKey) -> (r: Option<(String, Vec<String>)>)
    ensures
        function_call_names_of(*a) == names_view(r),
{
    a.permission.function_call_permission().map(|p| (p.receiver_id.clone(), p.method_names.clone()))
}

/// Relies on `Signer::sign`: a signature by the signer over the given bytes. It depends on the
/// key and the bytes alone for ed25519 (deterministic), secp256k1 (RFC 6979 nonce) and a signer
/// without a key (a fixed signature); ML-DSA-65 signing draws fresh randomness. The signer's
/// key must decode, else the call panics.
#[verifier::external_body]
pub(crate) fn sign_bytes(signer: &Signer, data: &[u8; 32]) -> (r: Signature)
    requires
        signer_can_sign(*signer),
    ensures
        signed_by(*signer, data@, r),
        signs_deterministically(*signer) ==> r == signature_of(*signer, data@),
{
    signer.sign(data)
}

/// Relies on `SignedTransaction::new`: pairs a signature with its transaction. It hashes the
/// transaction, which panics where a length exceeds `u32::MAX`.
#[verifier::external_body]
pub(crate) fn ledger_signed_transaction(signature: Signature, t: Transaction) -> (r:
    SignedTransaction)
    requires
        exists|rec| #[trigger] ledger_form_of(rec) == t && encodable(rec),
    ensures
        r == ledger_signed_of(signature, t),
{
    SignedTransaction::new(signature, t)
}

} // verus!
