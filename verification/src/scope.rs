//! Entity scopes: a view over one typed identifier, offering exactly the
//! operations meaningful for that entity kind.
//!
//! A scope is pure data.  Making one never contacts the network and never
//! changes the handle's configuration; each factory method only fills a
//! request builder with the scope's identifier.

use vstd::prelude::*;
use crate::builders::AccountBalanceQuery;
use crate::builders::AccountDelete;
use crate::builders::AccountInfoQuery;
use crate::builders::AccountUpdate;
use crate::builders::ClaimCreate;
use crate::builders::ClaimDelete;
use crate::builders::ClaimGetQuery;
use crate::builders::ContractCall;
use crate::builders::ContractQuery;
use crate::builders::ContractUpdate;
use crate::builders::FileAppend;
use crate::builders::FileContentsQuery;
use crate::builders::FileDelete;
use crate::builders::FileInfoQuery;
use crate::builders::ReceiptQuery;
use crate::builders::RecordQuery;
use crate::id::AccountId;
use crate::id::ContractId;
use crate::id::FileId;
use crate::id::TransactionId;
use crate::request::PublicKey;
use crate::request::clone_bytes;
use crate::request::key_seq_view;
use crate::request::keys_view;

verus! {

/// The operations on one crypto-currency account.
#[derive(Clone, Copy)]
pub struct AccountScope {
    pub account: AccountId,
}

impl AccountScope {
    /// The balance query for this account.  Smaller and faster than
    /// `info`, which carries the balance among much else.
    pub fn balance(&self) -> (b: AccountBalanceQuery)
        ensures
            b.account == self.account,
    {
        AccountBalanceQuery { account: self.account }
    }

    /// The information query for this account.
    pub fn info(&self) -> (b: AccountInfoQuery)
        ensures
            b.account == self.account,
    {
        AccountInfoQuery { account: self.account }
    }

    /// The update transaction for this account, with no new key yet.
    pub fn update(&self) -> (b: AccountUpdate)
        ensures
            b.account == self.account,
            b.key is None,
    {
        AccountUpdate { account: self.account, key: None }
    }

    /// The delete transaction for this account, with no transfer target
    /// yet.
    pub fn delete(&self) -> (b: AccountDelete)
        ensures
            b.account == self.account,
            b.transfer_to is None,
    {
        AccountDelete { account: self.account, transfer_to: None }
    }

    /// The sub-scope for one claim on this account, keyed by its hash.
    pub fn claim(&self, hash: Vec<u8>) -> (c: AccountClaimScope)
        ensures
            c.account == self.account,
            c.hash@ == hash@,
    {
        AccountClaimScope { account: self.account, hash }
    }
}

/// The operations on one claim attached to an account.
pub struct AccountClaimScope {
    pub account: AccountId,
    pub hash: Vec<u8>,
}

impl AccountClaimScope {
    /// The query for this claim.
    pub fn get(&self) -> (b: ClaimGetQuery)
        ensures
            b.account == self.account,
            b.hash@ == self.hash@,
    {
        ClaimGetQuery { account: self.account, hash: clone_bytes(&self.hash) }
    }

    /// The create transaction for this claim, with no keys yet.
    pub fn create(&self) -> (b: ClaimCreate)
        ensures
            b.account == self.account,
            b.hash@ == self.hash@,
            keys_view(b.keys) == Seq::<Seq<u8>>::empty(),
    {
        let keys: Vec<PublicKey> = Vec::new();
        proof {
            assert(key_seq_view(keys@) =~= Seq::<Seq<u8>>::empty());
        }
        ClaimCreate { account: self.account, hash: clone_bytes(&self.hash), keys }
    }

    /// The delete transaction for this claim.
    pub fn delete(&self) -> (b: ClaimDelete)
        ensures
            b.account == self.account,
            b.hash@ == self.hash@,
    {
        ClaimDelete { account: self.account, hash: clone_bytes(&self.hash) }
    }
}

/// The operations on one smart-contract instance.
#[derive(Clone, Copy)]
pub struct ContractScope {
    pub contract: ContractId,
}

impl ContractScope {
    /// The call transaction for this contract, with gas, parameters and
    /// amount at their zero defaults.
    pub fn call(&self) -> (b: ContractCall)
        ensures
            b.contract == self.contract,
            b.gas == 0,
            b.parameters@ == Seq::<u8>::empty(),
            b.amount == 0,
    {
        let parameters: Vec<u8> = Vec::new();
        proof {
            assert(parameters@ =~= Seq::<u8>::empty());
        }
        ContractCall { contract: self.contract, gas: 0, parameters, amount: 0 }
    }

    /// The local query against this contract.  Its gas, parameters and
    /// result-size bound are never optional, so they come at construction.
    pub fn query(&self, gas: i64, parameters: Vec<u8>, max_result_size: i64) -> (b: ContractQuery)
        ensures
            b.contract == self.contract,
            b.gas == gas,
            b.parameters@ == parameters@,
            b.max_result_size == max_result_size,
    {
        ContractQuery { contract: self.contract, gas, parameters, max_result_size }
    }

    /// The update transaction for this contract, with no new admin key
    /// yet.
    pub fn update(&self) -> (b: ContractUpdate)
        ensures
            b.contract == self.contract,
            b.admin_key is None,
    {
        ContractUpdate { contract: self.contract, admin_key: None }
    }
}

/// The operations on one file.
#[derive(Clone, Copy)]
pub struct FileScope {
    pub file: FileId,
}

impl FileScope {
    /// The append transaction for this file, carrying the given contents.
    pub fn append(&self, contents: Vec<u8>) -> (b: FileAppend)
        ensures
            b.file == self.file,
            b.contents@ == contents@,
    {
        FileAppend { file: self.file, contents }
    }

    /// The delete transaction for this file.
    pub fn delete(&self) -> (b: FileDelete)
        ensures
            b.file == self.file,
    {
        FileDelete { file: self.file }
    }

    /// The information query for this file; contents are excluded.
    pub fn info(&self) -> (b: FileInfoQuery)
        ensures
            b.file == self.file,
    {
        FileInfoQuery { file: self.file }
    }

    /// The contents query for this file.
    pub fn contents(&self) -> (b: FileContentsQuery)
        ensures
            b.file == self.file,
    {
        FileContentsQuery { file: self.file }
    }
}

/// The operations on one transaction.
#[derive(Clone, Copy)]
pub struct TransactionScope {
    pub transaction: TransactionId,
}

impl TransactionScope {
    /// The receipt query for this transaction.
    pub fn receipt(&self) -> (b: ReceiptQuery)
        ensures
            b.transaction == self.transaction,
    {
        ReceiptQuery { transaction: self.transaction }
    }

    /// The record query for this transaction.
    pub fn record(&self) -> (b: RecordQuery)
        ensures
            b.transaction == self.transaction,
    {
        RecordQuery { transaction: self.transaction }
    }
}

} // verus!
