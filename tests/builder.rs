use near_crypto::{ED25519SecretKey, EmptySigner, InMemorySigner, KeyType, PublicKey, SecretKey, Signer};
use near_primitives::account::{AccessKey, AccessKeyPermission, FunctionCallPermission};
use near_primitives::gas::Gas;
use near_primitives::hash::CryptoHash;
use near_primitives::transaction::{
    Action as LedgerAction, AddKeyAction, CreateAccountAction, DeleteAccountAction,
    DeleteKeyAction, DeployContractAction, FunctionCallAction, StakeAction, Transaction,
    TransferAction,
};
use near_primitives::types::{AccountId, Balance};
use near_transactions::{can_sign, Operation, SigningError, TransactionBuilder};

fn account(name: &str) -> AccountId {
    name.parse().unwrap()
}

fn key(seed: &str) -> PublicKey {
    SecretKey::from_seed(KeyType::ED25519, seed).public_key()
}

fn h1() -> [u8; 32] {
    [7u8; 32]
}

fn builder() -> TransactionBuilder {
    TransactionBuilder::new(account("alice.test"), key("pk1"), account("bob.test"), 1, h1())
}

fn signer() -> Signer {
    InMemorySigner::from_seed(account("alice.test"), KeyType::ED25519, "alice.test")
}

fn expected_signature(b: &TransactionBuilder, s: &Signer) -> near_crypto::Signature {
    let t = b.clone().build().to_ledger();
    s.sign(t.get_hash_and_size().0.as_ref())
}

#[test]
fn transfer_keeps_fields() {
    let mut b = builder();
    b.transfer(1000);
    let r = b.build();
    assert_eq!(r.actions, vec![Operation::Transfer { deposit: 1000 }]);
    assert_eq!(r.signer_id, account("alice.test"));
    assert_eq!(r.public_key, key("pk1"));
    assert_eq!(r.receiver_id, account("bob.test"));
    assert_eq!(r.nonce, 1);
    assert_eq!(r.block_hash, h1());
}

#[test]
fn three_actions_in_call_order() {
    let mut b = builder();
    b.create_account().deploy_contract(&[1, 2, 3]).transfer(500);
    let r = b.build();
    assert_eq!(
        r.actions,
        vec![
            Operation::CreateAccount,
            Operation::DeployContract { code: vec![1, 2, 3] },
            Operation::Transfer { deposit: 500 },
        ]
    );
}

#[test]
fn empty_function_call_is_appended() {
    let mut b = builder();
    b.function_call(String::new(), vec![], 0, 0);
    let r = b.build();
    assert_eq!(
        r.actions,
        vec![Operation::FunctionCall { method_name: String::new(), args: vec![], gas: 0, deposit: 0 }]
    );
}

#[test]
fn no_appends_gives_no_actions() {
    let r = builder().build();
    assert!(r.actions.is_empty());
    assert_eq!(r.nonce, 1);
}

#[test]
fn every_kind_is_appended_in_order() {
    let mut b = builder();
    b.function_call("go".to_string(), vec![9], 30, 4)
        .stake(u128::MAX, key("validator"))
        .add_key(key("new"), AccessKey::full_access())
        .delete_key(key("old"))
        .delete_account(account("carol.test"));
    let r = b.build();
    assert_eq!(
        r.actions,
        vec![
            Operation::FunctionCall { method_name: "go".to_string(), args: vec![9], gas: 30, deposit: 4 },
            Operation::Stake { stake: u128::MAX, public_key: key("validator") },
            Operation::AddKey { public_key: key("new"), access_key: AccessKey::full_access() },
            Operation::DeleteKey { public_key: key("old") },
            Operation::DeleteAccount { beneficiary_id: account("carol.test") },
        ]
    );
}

#[test]
fn same_inputs_give_equal_records() {
    let mut a = builder();
    a.create_account().transfer(5);
    let mut b = builder();
    b.create_account().transfer(5);
    assert_eq!(a.build(), b.build());
}

#[test]
fn ledger_form_matches_record() {
    let mut b = builder();
    b.deploy_contract(&[1, 2, 3]).transfer(1000).function_call("m".to_string(), vec![1], 8, 2);
    let t = b.build().to_ledger();
    let Transaction::V0(v0) = t else { panic!("expected a V0 transaction") };
    assert_eq!(v0.signer_id, account("alice.test"));
    assert_eq!(v0.receiver_id, account("bob.test"));
    assert_eq!(v0.public_key, key("pk1"));
    assert_eq!(v0.nonce, 1);
    assert_eq!(v0.block_hash, CryptoHash(h1()));
    assert_eq!(
        v0.actions,
        vec![
            LedgerAction::DeployContract(DeployContractAction { code: vec![1, 2, 3] }),
            LedgerAction::Transfer(TransferAction { deposit: Balance::from_yoctonear(1000) }),
            LedgerAction::FunctionCall(Box::new(FunctionCallAction {
                method_name: "m".to_string(),
                args: vec![1],
                gas: Gas::from_gas(8),
                deposit: Balance::from_yoctonear(2),
            })),
        ]
    );
}

#[test]
fn signature_is_over_hash_of_current_record() {
    let mut b = builder();
    b.transfer(1000);
    let s = signer();
    let signed = b.sign_transaction(&s).unwrap();
    assert_eq!(signed.signature, expected_signature(&b, &s));
    assert_eq!(signed.transaction, b.clone().build());
    assert!(s.verify(b.clone().build().to_ledger().get_hash_and_size().0.as_ref(), &signed.signature));
}

#[test]
fn signing_twice_is_deterministic() {
    let mut b = builder();
    b.create_account();
    let s = signer();
    let first = b.sign_transaction(&s).unwrap();
    let second = b.sign_transaction(&s).unwrap();
    assert_eq!(first.signature, second.signature);
    assert_eq!(first.transaction, second.transaction);
}

#[test]
fn signing_after_append_changes_signature() {
    let mut b = builder();
    b.create_account();
    let s = signer();
    let first = b.sign_transaction(&s).unwrap();
    b.transfer(1);
    let second = b.sign_transaction(&s).unwrap();
    assert_ne!(first.signature, second.signature);
    assert_eq!(first.transaction.actions.len(), 1);
    assert_eq!(second.transaction.actions.len(), 2);
}

#[test]
fn signed_with_pairs_given_signature() {
    let mut b = builder();
    b.transfer(3);
    let sig = near_crypto::Signature::empty(KeyType::ED25519);
    let signed = b.signed_with(sig.clone());
    assert_eq!(signed.signature, sig);
    assert_eq!(signed.transaction, b.build());
}

#[test]
fn signed_ledger_form_keeps_signature_and_hash() {
    let mut b = builder();
    b.transfer(1000);
    let s = signer();
    let signed = b.sign_transaction(&s).unwrap();
    let expected = expected_signature(&b, &s);
    let ledger = signed.to_ledger();
    assert_eq!(ledger.signature, expected);
    assert_eq!(ledger.get_hash(), b.build().to_ledger().get_hash_and_size().0);
}

#[test]
fn ledger_form_of_key_and_account_actions() {
    let mut b = builder();
    b.create_account()
        .stake(77, key("validator"))
        .add_key(key("new"), AccessKey::full_access())
        .delete_key(key("old"))
        .delete_account(account("carol.test"));
    let Transaction::V0(v0) = b.build().to_ledger() else { panic!("expected a V0 transaction") };
    assert_eq!(
        v0.actions,
        vec![
            LedgerAction::CreateAccount(CreateAccountAction {}),
            LedgerAction::Stake(Box::new(StakeAction {
                stake: Balance::from_yoctonear(77),
                public_key: key("validator"),
            })),
            LedgerAction::AddKey(Box::new(AddKeyAction {
                public_key: key("new"),
                access_key: AccessKey::full_access(),
            })),
            LedgerAction::DeleteKey(Box::new(DeleteKeyAction { public_key: key("old") })),
            LedgerAction::DeleteAccount(DeleteAccountAction { beneficiary_id: account("carol.test") }),
        ]
    );
}

#[test]
fn record_hash_is_ledger_hash_of_current_record() {
    let mut b = builder();
    b.create_account();
    let before = b.record_hash();
    b.transfer(9);
    let after = b.record_hash();
    assert_eq!(after, b.clone().build().to_ledger().get_hash_and_size().0.0);
    assert_eq!(after, b.clone().build().hash());
    assert_ne!(before, after);
    assert_ne!(after, [0u8; 32]);
}

fn mismatched_signer() -> Signer {
    let good = match SecretKey::from_seed(KeyType::ED25519, "alice.test") {
        SecretKey::ED25519(k) => k.0,
        _ => unreachable!(),
    };
    let mut bytes = good;
    bytes[40] ^= 1;
    InMemorySigner::from_secret_key(account("alice.test"), SecretKey::ED25519(ED25519SecretKey(bytes)))
}

#[test]
fn malformed_key_is_a_signing_error() {
    let mut b = builder();
    b.transfer(1);
    let s = mismatched_signer();
    assert!(!can_sign(&s));
    assert_eq!(b.sign_transaction(&s), Err(SigningError::MalformedKey));
}

#[test]
fn well_formed_signers_can_sign() {
    assert!(can_sign(&signer()));
    assert!(can_sign(&InMemorySigner::from_seed(account("alice.test"), KeyType::SECP256K1, "a")));
    assert!(can_sign(&Signer::Empty(EmptySigner::new())));
    let mut b = builder();
    b.create_account();
    assert!(b.sign_transaction(&Signer::Empty(EmptySigner::new())).is_ok());
}

#[test]
fn ordinary_records_are_encodable() {
    let mut b = builder();
    b.function_call("go".to_string(), vec![1, 2], 5, 6).add_key(
        key("fc"),
        AccessKey {
            nonce: 0,
            permission: AccessKeyPermission::FunctionCall(FunctionCallPermission {
                allowance: None,
                receiver_id: "bob.test".to_string(),
                method_names: vec!["a".to_string(), "b".to_string()],
            }),
        },
    );
    assert!(b.is_encodable());
    assert!(b.clone().build().is_encodable());
    assert!(Operation::DeployContract { code: vec![0; 16] }.fits_encoding());
}
