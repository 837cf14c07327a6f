//! The transaction record and the assembler that grows it.
use vstd::prelude::*;
use vstd::slice::slice_to_vec;
use near_crypto::{PublicKey, Signature, Signer};
use near_primitives::account::AccessKey;
use near_primitives::transaction::{
    Action as LedgerAction, SignedTransaction, Transaction,
};
use near_primitives::types::AccountId;
use crate::action::{Operation, OperationView, fits_wire, operations_view};
use crate::signing::{SigningError, can_sign, signer_can_sign, signs_deterministically};
use crate::ledger::{
    ledger_action_of, ledger_hash_of, ledger_signed_of, ledger_signed_transaction,
    ledger_transaction, ledger_transaction_of, sign_bytes, signature_of, signed_by,
    transaction_hash,
};

verus! {

/// One transaction that is not yet submitted. `nonce` and `block_hash` are taken as given:
/// the ledger, not this record, gives them meaning.
#[derive(Debug, Clone, PartialEq, Eq)]
pub struct TransactionRecord {
    pub signer_id: AccountId,
    pub public_key: PublicKey,
    pub receiver_id: AccountId,
    pub nonce: u64,
    pub block_hash: [u8; 32],
    pub actions: Vec<Operation>,
}

/// The mathematical value of a [`TransactionRecord`].
pub struct RecordView {
    pub signer_id: AccountId,
    pub public_key: PublicKey,
    pub receiver_id: AccountId,
    pub nonce: u64,
    pub block_hash: Seq<u8>,
    pub actions: Seq<OperationView>,
}

impl View for TransactionRecord {
    type V = RecordView;

    open spec fn view(&self) -> RecordView {
        RecordView {
            signer_id: self.signer_id,
            public_key: self.public_key,
            receiver_id: self.receiver_id,
            nonce: self.nonce,
            block_hash: self.block_hash@,
            actions: operations_view(self.actions@),
        }
    }
}

/// The record with the given fields and actions.
pub open spec fn assembled(
    signer_id: AccountId,
    public_key: PublicKey,
    receiver_id: AccountId,
    nonce: u64,
    block_hash: Seq<u8>,
    actions: Seq<OperationView>,
) -> RecordView {
    RecordView { signer_id, public_key, receiver_id, nonce, block_hash, actions }
}

/// The record with one more action at the end, all else kept.
pub open spec fn appended(r: RecordView, a: OperationView) -> RecordView {
    RecordView { actions: r.actions.push(a), ..r }
}

/// The record after appending each of `ops` in turn.
pub open spec fn appended_all(r: RecordView, ops: Seq<OperationView>) -> RecordView
    decreases ops.len(),
{
    if ops.len() == 0 {
        r
    } else {
        appended(appended_all(r, ops.drop_last()), ops.last())
    }
}

/// Whether the ledger's wire encoding can hold the record: at most `u32::MAX` actions, each
/// of which fits.
pub open spec fn encodable(r: RecordView) -> bool {
    r.actions.len() <= u32::MAX && forall|i: int|
        0 <= i < r.actions.len() ==> fits_wire(#[trigger] r.actions[i])
}

/// The ledger library's transaction for a record, field for field and action for action.
pub open spec fn ledger_form_of(r: RecordView) -> Transaction {
    ledger_transaction_of(
        r.signer_id,
        r.public_key,
        r.receiver_id,
        r.nonce,
        r.block_hash,
        r.actions.map_values(|a: OperationView| ledger_action_of(a)),
    )
}

impl TransactionRecord {
    /// An independent copy with the same value.
    pub fn duplicate(&self) -> (r: TransactionRecord)
        ensures
            r@ == self@,
    {
        let mut actions: Vec<Operation> = Vec::new();
        let mut i: usize = 0;
        while i < self.actions.len()
            invariant
                i <= self.actions.len(),
                actions.len() == i,
                forall|k: int| 0 <= k < i ==> #[trigger] actions@[k]@ == self.actions@[k]@,
            decreases self.actions.len() - i,
        {
            let a = self.actions[i].duplicate();
            actions.push(a);
            i = i + 1;
        }
        assert(operations_view(actions@) =~= operations_view(self.actions@));
        TransactionRecord {
            signer_id: self.signer_id.clone(),
            public_key: self.public_key.clone(),
            receiver_id: self.receiver_id.clone(),
            nonce: self.nonce,
            block_hash: self.block_hash,
            actions,
        }
    }

    /// The ledger library's form of this record, field for field and action for action.
    pub fn to_ledger(&self) -> (r: Transaction)
        ensures
            r == ledger_form_of(self@),
    {
        let mut actions: Vec<LedgerAction> = Vec::new();
        let mut i: usize = 0;
        while i < self.actions.len()
            invariant
                i <= self.actions.len(),
                actions.len() == i,
                forall|k: int|
                    0 <= k < i ==> #[trigger] actions@[k] == ledger_action_of(self.actions@[k]@),
            decreases self.actions.len() - i,
        {
            actions.push(self.actions[i].to_ledger());
            i = i + 1;
        }
        assert(actions@ =~= self@.actions.map_values(|a: OperationView| ledger_action_of(a)));
        ledger_transaction(
            &self.signer_id,
            &self.public_key,
            &self.receiver_id,
            self.nonce,
            self.block_hash,
            actions,
        )
    }
}

/// A record together with a signature over its hash.
#[derive(Debug, PartialEq, Eq)]
pub struct SignedTransactionRecord {
    pub signature: Signature,
    pub transaction: TransactionRecord,
}

/// Whether `s` is what signing the record `r` with `signer` gives: the record itself, with a
/// signature by `signer` over the ledger's hash of it, which is the signer's one signature on
/// that hash where its scheme is deterministic.
pub open spec fn signs_record(signer: Signer, r: RecordView, s: SignedTransactionRecord) -> bool {
    &&& s.transaction@ == r
    &&& signed_by(signer, ledger_hash_of(ledger_form_of(r)), s.signature)
    &&& signs_deterministically(signer) ==> s.signature == signature_of(
        signer,
        ledger_hash_of(ledger_form_of(r)),
    )
}

impl TransactionRecord {
    /// Whether the ledger's wire encoding can hold this record.
    pub fn is_encodable(&self) -> (r: bool)
        ensures
            r == encodable(self@),
    {
        if self.actions.len() > 4294967295usize {
            return false;
        }
        let mut i: usize = 0;
        while i < self.actions.len()
            invariant
                i <= self.actions.len(),
                forall|k: int| 0 <= k < i ==> fits_wire(#[trigger] self@.actions[k]),
            decreases self.actions.len() - i,
        {
            if !self.actions[i].fits_encoding() {
                assert(!fits_wire(self@.actions[i as int]));
                return false;
            }
            i = i + 1;
        }
        true
    }

    /// The ledger's hash of this record's wire encoding: the bytes a signer signs.
    pub fn hash(&self) -> (h: [u8; 32])
        requires
            encodable(self@),
        ensures
            h@ == ledger_hash_of(ledger_form_of(self@)),
    {
        let t = self.to_ledger();
        transaction_hash(&t)
    }
}

impl SignedTransactionRecord {
    /// The ledger library's form of this signed record.
    pub fn to_ledger(self) -> (r: SignedTransaction)
        requires
            encodable(self.transaction@),
        ensures
            r == ledger_signed_of(self.signature, ledger_form_of(self.transaction@)),
    {
        let t = self.transaction.to_ledger();
        ledger_signed_transaction(self.signature, t)
    }
}

/// Assembles one transaction: fixed fields at construction, then actions in call order.
#[derive(Debug, Clone, PartialEq, Eq)]
pub struct TransactionBuilder {
    transaction: TransactionRecord,
}

impl View for TransactionBuilder {
    type V = RecordView;

    closed spec fn view(&self) -> RecordView {
        self.transaction@
    }
}

impl TransactionBuilder {
    /// A builder over a record with the given fields and no actions.
    pub fn new(
        signer_id: AccountId,
        public_key: PublicKey,
        receiver_id: AccountId,
        nonce: u64,
        block_hash: [u8; 32],
    ) -> (r: TransactionBuilder)
        ensures
            r@ == assembled(signer_id, public_key, receiver_id, nonce, block_hash@, seq![]),
    {
        let r = TransactionBuilder {
            transaction: TransactionRecord {
                signer_id,
                public_key,
                receiver_id,
                nonce,
                block_hash,
                actions: Vec::new(),
            },
        };
        assert(r@.actions =~= Seq::<OperationView>::empty());
        r
    }

    fn push(&mut self, a: Operation)
        ensures
            final(self)@ == appended(old(self)@, a@),
    {
        self.transaction.actions.push(a);
        assert(final(self)@.actions =~= old(self)@.actions.push(a@));
    }

    /// Appends an account creation.
    pub fn create_account(&mut self) -> (r: &mut Self)
        ensures
            r@ == appended(old(self)@, OperationView::CreateAccount),
            final(r)@ == final(self)@,
    {
        self.push(Operation::CreateAccount);
        self
    }

    /// Appends the deployment of `code`.
    pub fn deploy_contract(&mut self, code: &[u8]) -> (r: &mut Self)
        ensures
            r@ == appended(old(self)@, OperationView::DeployContract { code: code@ }),
            final(r)@ == final(self)@,
    {
        self.push(Operation::DeployContract { code: slice_to_vec(code) });
        self
    }

    /// Appends a call of `method_name` with `args`, a gas budget and an attached deposit.
    pub fn function_call(&mut self, method_name: String, args: Vec<u8>, gas: u64, deposit: u128) -> (r:
        &mut Self)
        ensures
            r@ == appended(
                old(self)@,
                OperationView::FunctionCall { method_name: method_name@, args: args@, gas, deposit },
            ),
            final(r)@ == final(self)@,
    {
        self.push(Operation::FunctionCall { method_name, args, gas, deposit });
        self
    }

    /// Appends a transfer of `deposit` to the receiver.
    pub fn transfer(&mut self, deposit: u128) -> (r: &mut Self)
        ensures
            r@ == appended(old(self)@, OperationView::Transfer { deposit }),
            final(r)@ == final(self)@,
    {
        self.push(Operation::Transfer { deposit });
        self
    }

    /// Appends a stake of `stake` under the validator key `public_key`.
    pub fn stake(&mut self, stake: u128, public_key: PublicKey) -> (r: &mut Self)
        ensures
            r@ == appended(old(self)@, OperationView::Stake { stake, public_key }),
            final(r)@ == final(self)@,
    {
        self.push(Operation::Stake { stake, public_key });
        self
    }

    /// Appends the addition of `public_key` with the permissions of `access_key`.
    pub fn add_key(&mut self, public_key: PublicKey, access_key: AccessKey) -> (r: &mut Self)
        ensures
            r@ == appended(old(self)@, OperationView::AddKey { public_key, access_key }),
            final(r)@ == final(self)@,
    {
        self.push(Operation::AddKey { public_key, access_key });
        self
    }

    /// Appends the removal of `public_key`.
    pub fn delete_key(&mut self, public_key: PublicKey) -> (r: &mut Self)
        ensures
            r@ == appended(old(self)@, OperationView::DeleteKey { public_key }),
            final(r)@ == final(self)@,
    {
        self.push(Operation::DeleteKey { public_key });
        self
    }

    /// Appends the deletion of the account, its balance going to `beneficiary_id`.
    pub fn delete_account(&mut self, beneficiary_id: AccountId) -> (r: &mut Self)
        ensures
            r@ == appended(old(self)@, OperationView::DeleteAccount { beneficiary_id }),
            final(r)@ == final(self)@,
    {
        self.push(Operation::DeleteAccount { beneficiary_id });
        self
    }

    /// The record as assembled so far.
    pub fn build(self) -> (r: TransactionRecord)
        ensures
            r@ == self@,
    {
        self.transaction
    }

    /// The record as it stands, paired with `signature`.
    pub fn signed_with(&self, signature: Signature) -> (r: SignedTransactionRecord)
        ensures
            r.signature == signature,
            r.transaction@ == self@,
    {
        SignedTransactionRecord { signature, transaction: self.transaction.duplicate() }
    }

    /// The ledger's hash of the record as it stands.
    pub fn record_hash(&self) -> (h: [u8; 32])
        requires
            encodable(self@),
        ensures
            h@ == ledger_hash_of(ledger_form_of(self@)),
    {
        self.transaction.hash()
    }

    /// Signs `record_hash()` with `signer` and pairs the signature with the record as it
    /// stands; the builder is kept. Fails, signing nothing, where the signer's key does not
    /// decode.
    pub fn sign_transaction(&self, signer: &Signer) -> (r: Result<SignedTransactionRecord, SigningError>)
        requires
            encodable(self@),
        ensures
            r is Ok <==> signer_can_sign(*signer),
            r matches Ok(s) ==> signs_record(*signer, self@, s),
            r matches Err(e) ==> e == SigningError::MalformedKey,
    {
        if !can_sign(signer) {
            return Err(SigningError::MalformedKey);
        }
        let h = self.record_hash();
        let signature = sign_bytes(signer, &h);
        Ok(self.signed_with(signature))
    }

    /// Whether the ledger's wire encoding can hold the record as it stands.
    pub fn is_encodable(&self) -> (r: bool)
        ensures
            r == encodable(self@),
    {
        self.transaction.is_encodable()
    }
}

/// Appending actions one call at a time yields the record whose action sequence is exactly
/// those actions in call order, with every other field as constructed; the result depends on
/// the constructor's inputs and the appended actions alone.
pub proof fn lemma_appends_in_call_order(
    signer_id: AccountId,
    public_key: PublicKey,
    receiver_id: AccountId,
    nonce: u64,
    block_hash: Seq<u8>,
    ops: Seq<OperationView>,
)
    ensures
        appended_all(assembled(signer_id, public_key, receiver_id, nonce, block_hash, seq![]), ops)
            == assembled(signer_id, public_key, receiver_id, nonce, block_hash, ops),
    decreases ops.len(),
{
    if ops.len() > 0 {
        lemma_appends_in_call_order(signer_id, public_key, receiver_id, nonce, block_hash, ops.drop_last());
        assert(ops.drop_last().push(ops.last()) =~= ops);
    } else {
        assert(ops =~= seq![]);
    }
}

/// Appending actions keeps every earlier action where it was: the actions before are a prefix
/// of the actions after.
pub proof fn lemma_appends_keep_prefix(r: RecordView, ops: Seq<OperationView>)
    ensures
        appended_all(r, ops).actions == r.actions + ops,
        appended_all(r, ops).actions.len() == r.actions.len() + ops.len(),
    decreases ops.len(),
{
    if ops.len() == 0 {
        assert(r.actions + ops =~= r.actions);
    } else {
        lemma_appends_keep_prefix(r, ops.drop_last());
        assert(r.actions + ops.drop_last() + seq![ops.last()] =~= r.actions + ops);
        assert((r.actions + ops.drop_last()).push(ops.last()) =~= r.actions + ops);
    }
}

/// With a deterministic signer, two signings of one unchanged record give equal records and
/// equal signatures.
pub proof fn lemma_signing_is_deterministic(
    signer: Signer,
    r: RecordView,
    s1: SignedTransactionRecord,
    s2: SignedTransactionRecord,
)
    requires
        signs_deterministically(signer),
        signs_record(signer, r, s1),
        signs_record(signer, r, s2),
    ensures
        s1.transaction@ == s2.transaction@,
        s1.signature == s2.signature,
{
}

/// A signing after an append is over the updated record: it wraps the earlier actions with the
/// new one last, and where the signer gives different signatures on different bytes and the
/// hash tells records apart, its signature differs from the earlier one.
pub proof fn lemma_signing_after_append(
    signer: Signer,
    r: RecordView,
    a: OperationView,
    s1: SignedTransactionRecord,
    s2: SignedTransactionRecord,
)
    requires
        signs_deterministically(signer),
        forall|m1: Seq<u8>, m2: Seq<u8>|
            m1 != m2 ==> #[trigger] signature_of(signer, m1) != #[trigger] signature_of(signer, m2),
        forall|r1: RecordView, r2: RecordView|
            r1 != r2 ==> #[trigger] ledger_hash_of(ledger_form_of(r1)) != #[trigger] ledger_hash_of(
                ledger_form_of(r2),
            ),
        signs_record(signer, r, s1),
        signs_record(signer, appended(r, a), s2),
    ensures
        s2.transaction@.actions == s1.transaction@.actions.push(a),
        s2.signature != s1.signature,
{
    lemma_append_changes_record(r, a);
}

/// Appending an action changes the record: it has one action more than before.
pub proof fn lemma_append_changes_record(r: RecordView, a: OperationView)
    ensures
        appended(r, a) != r,
        appended(r, a).actions.len() == r.actions.len() + 1,
{
    assert(appended(r, a).actions.len() != r.actions.len());
}

} // verus!
