//! The closed set of operations that a transaction asks the ledger to perform.
use vstd::prelude::*;
use near_crypto::PublicKey;
use near_primitives::account::AccessKey;
use near_primitives::transaction::Action as LedgerAction;
use near_primitives::types::AccountId;
use vstd::string::StrSliceExecFns;
use crate::signing::names_view;
use crate::ledger::{
    function_call_names, function_call_names_of, ledger_action_of, ledger_add_key, ledger_create_account, ledger_delete_account, ledger_delete_key,
    ledger_deploy_contract, ledger_function_call, ledger_stake, ledger_transfer,
};

verus! {

/// One action of a transaction. Amounts are in yoctoNEAR, gas in gas units.
#[derive(Debug, Clone, PartialEq, Eq)]
pub enum Operation {
    CreateAccount,
    DeployContract { code: Vec<u8> },
    FunctionCall { method_name: String, args: Vec<u8>, gas: u64, deposit: u128 },
    Transfer { deposit: u128 },
    Stake { stake: u128, public_key: PublicKey },
    AddKey { public_key: PublicKey, access_key: AccessKey },
    DeleteKey { public_key: PublicKey },
    DeleteAccount { beneficiary_id: AccountId },
}

/// The mathematical value of an [`Operation`]: byte strings and names as sequences.
pub enum OperationView {
    CreateAccount,
    DeployContract { code: Seq<u8> },
    FunctionCall { method_name: Seq<char>, args: Seq<u8>, gas: u64, deposit: u128 },
    Transfer { deposit: u128 },
    Stake { stake: u128, public_key: PublicKey },
    AddKey { public_key: PublicKey, access_key: AccessKey },
    DeleteKey { public_key: PublicKey },
    DeleteAccount { beneficiary_id: AccountId },
}

impl View for Operation {
    type V = OperationView;

    open spec fn view(&self) -> OperationView {
        match self {
            Operation::CreateAccount => OperationView::CreateAccount,
            Operation::DeployContract { code } => OperationView::DeployContract { code: code@ },
            Operation::FunctionCall { method_name, args, gas, deposit } => OperationView::FunctionCall {
                method_name: method_name@,
                args: args@,
                gas: *gas,
                deposit: *deposit,
            },
            Operation::Transfer { deposit } => OperationView::Transfer { deposit: *deposit },
            Operation::Stake { stake, public_key } => OperationView::Stake {
                stake: *stake,
                public_key: *public_key,
            },
            Operation::AddKey { public_key, access_key } => OperationView::AddKey {
                public_key: *public_key,
                access_key: *access_key,
            },
            Operation::DeleteKey { public_key } => OperationView::DeleteKey { public_key: *public_key },
            Operation::DeleteAccount { beneficiary_id } => OperationView::DeleteAccount {
                beneficiary_id: *beneficiary_id,
            },
        }
    }
}

/// Whether a name of `n` characters fits the wire encoding at any width: a character takes at
/// most four bytes.
pub open spec fn name_fits(n: nat) -> bool {
    4 * n <= u32::MAX
}

/// Whether the ledger's wire encoding can hold an action: borsh writes the length of each
/// byte string, name and list as a `u32`.
pub open spec fn fits_wire(a: OperationView) -> bool {
    match a {
        OperationView::DeployContract { code } => code.len() <= u32::MAX,
        OperationView::FunctionCall { method_name, args, .. } => name_fits(method_name.len())
            && args.len() <= u32::MAX,
        OperationView::AddKey { access_key, .. } => match function_call_names_of(access_key) {
            None => true,
            Some((receiver, methods)) => name_fits(receiver.len()) && methods.len() <= u32::MAX
                && forall|i: int| 0 <= i < methods.len() ==> name_fits(#[trigger] methods[i].len()),
        },
        _ => true,
    }
}

fn name_fits_check(s: &String) -> (r: bool)
    ensures
        r == name_fits(s@.len()),
{
    s.as_str().unicode_len() <= 1073741823usize
}

/// The views of a sequence of actions, position by position.
pub open spec fn operations_view(actions: Seq<Operation>) -> Seq<OperationView> {
    actions.map_values(|a: Operation| a@)
}

impl Operation {
    /// An independent copy with the same value.
    pub fn duplicate(&self) -> (r: Operation)
        ensures
            r@ == self@,
    {
        match self {
            Operation::CreateAccount => Operation::CreateAccount,
            Operation::DeployContract { code } => Operation::DeployContract { code: code.clone() },
            Operation::FunctionCall { method_name, args, gas, deposit } => Operation::FunctionCall {
                method_name: method_name.clone(),
                args: args.clone(),
                gas: *gas,
                deposit: *deposit,
            },
            Operation::Transfer { deposit } => Operation::Transfer { deposit: *deposit },
            Operation::Stake { stake, public_key } => Operation::Stake {
                stake: *stake,
                public_key: public_key.clone(),
            },
            Operation::AddKey { public_key, access_key } => Operation::AddKey {
                public_key: public_key.clone(),
                access_key: access_key.clone(),
            },
            Operation::DeleteKey { public_key } => Operation::DeleteKey { public_key: public_key.clone() },
            Operation::DeleteAccount { beneficiary_id } => Operation::DeleteAccount {
                beneficiary_id: beneficiary_id.clone(),
            },
        }
    }

    /// Whether the ledger's wire encoding can hold this action.
    pub fn fits_encoding(&self) -> (r: bool)
        ensures
            r == fits_wire(self@),
    {
        match self {
            Operation::DeployContract { code } => code.len() <= 4294967295usize,
            Operation::FunctionCall { method_name, args, .. } => name_fits_check(method_name)
                && args.len() <= 4294967295usize,
            Operation::AddKey { access_key, .. } => match function_call_names(access_key) {
                None => true,
                Some((receiver, methods)) => {
                    if !name_fits_check(&receiver) || methods.len() > 4294967295usize {
                        return false;
                    }
                    let mut i: usize = 0;
                    while i < methods.len()
                        invariant
                            i <= methods.len(),
                            self@ matches OperationView::AddKey { access_key: k, .. } && k
                                == *access_key,
                            function_call_names_of(*access_key) == Some(
                                (receiver@, methods@.map_values(|m: String| m@)),
                            ),
                            forall|k: int| 0 <= k < i ==> name_fits(#[trigger] methods@[k]@.len()),
                        decreases methods.len() - i,
                    {
                        if !name_fits_check(&methods[i]) {
                            let ghost names = methods@.map_values(|m: String| m@);
                            assert(names[i as int] == methods@[i as int]@);
                            assert(!name_fits(names[i as int].len()));
                            assert(names_view(Some((receiver, methods))) == Some((receiver@, names)));
                            return false;
                        }
                        i = i + 1;
                    }
                    let ghost names = methods@.map_values(|m: String| m@);
                    assert forall|k: int| 0 <= k < names.len() implies name_fits(
                        #[trigger] names[k].len(),
                    ) by {
                        assert(names[k] == methods@[k]@);
                    }
                    true
                },
            },
            _ => true,
        }
    }

    /// The ledger library's form of this action, variant for variant.
    pub fn to_ledger(&self) -> (r: LedgerAction)
        ensures
            r == ledger_action_of(self@),
    {
        match self {
            Operation::CreateAccount => ledger_create_account(),
            Operation::DeployContract { code } => ledger_deploy_contract(code),
            Operation::FunctionCall { method_name, args, gas, deposit } => ledger_function_call(
                method_name,
                args,
                *gas,
                *deposit,
            ),
            Operation::Transfer { deposit } => ledger_transfer(*deposit),
            Operation::Stake { stake, public_key } => ledger_stake(*stake, public_key),
            Operation::AddKey { public_key, access_key } => ledger_add_key(public_key, access_key),
            Operation::DeleteKey { public_key } => ledger_delete_key(public_key),
            Operation::DeleteAccount { beneficiary_id } => ledger_delete_account(beneficiary_id),
        }
    }
}

} // verus!
