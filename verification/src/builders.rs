//! Request builders: one per transaction kind and one per query kind.
//!
//! Every builder has the same shape.  It comes from a scope pre-populated
//! with the target identifier, its chainable setters change only its own
//! fields, and `execute` hands the finished request — the current node and
//! operator of the handle around the builder's own fields — to the
//! submission interface exactly once, passing its answer or failure back
//! unreinterpreted.

use vstd::prelude::*;
use crate::error::Error;
use crate::handle::Client;
use crate::id::AccountId;
use crate::id::ContractId;
use crate::id::FileId;
use crate::id::TransactionId;
use crate::request::PUBLIC_KEY_LEN;
use crate::request::PublicKey;
use crate::request::RequestBody;
use crate::request::RequestBodyView;
use crate::request::RequestView;
use crate::request::TypedResponse;
use crate::request::clone_bytes;
use crate::request::clone_keys;
use crate::request::key_seq_view;
use crate::request::key_view;
use crate::request::keys_view;
use crate::submit::Submitter;

verus! {

/// The request around one body, as the handle currently stands.
pub open spec fn enveloped(c: &Client, body: RequestBodyView) -> RequestView {
    RequestView { node: c.spec_node(), operator: c.spec_operator(), body }
}

/// Hands one finished body to the transport under the client's envelope.
fn submit_body<S: Submitter>(client: &Client, body: RequestBody, transport: &mut S) -> (r: Result<
    TypedResponse,
    Error,
>)
    ensures
        final(transport).log() == old(transport).log().push(enveloped(client, body@)),
        r matches Err(e) ==> e matches Error::Submission(_),
{
    let req = client.wrap(body);
    match transport.submit(req) {
        Ok(resp) => Ok(resp),
        Err(f) => Err(Error::Submission(f)),
    }
}

/// Queries the balance of one account.
pub struct AccountBalanceQuery {
    pub account: AccountId,
}

impl AccountBalanceQuery {
    /// The request this builder stands for against `c`.
    pub open spec fn request(&self, c: &Client) -> RequestView {
        enveloped(c, RequestBodyView::AccountBalanceQuery { account: self.account })
    }

    /// Submits the query exactly once.
    pub fn execute<S: Submitter>(&self, client: &Client, transport: &mut S) -> (r: Result<
        TypedResponse,
        Error,
    >)
        ensures
            final(transport).log() == old(transport).log().push(self.request(client)),
            r matches Err(e) ==> e matches Error::Submission(_),
    {
        submit_body(client, RequestBody::AccountBalanceQuery { account: self.account }, transport)
    }
}

/// Queries the full information of one account.
pub struct AccountInfoQuery {
    pub account: AccountId,
}

impl AccountInfoQuery {
    /// The request this builder stands for against `c`.
    pub open spec fn request(&self, c: &Client) -> RequestView {
        enveloped(c, RequestBodyView::AccountInfoQuery { account: self.account })
    }

    /// Submits the query exactly once.
    pub fn execute<S: Submitter>(&self, client: &Client, transport: &mut S) -> (r: Result<
        TypedResponse,
        Error,
    >)
        ensures
            final(transport).log() == old(transport).log().push(self.request(client)),
            r matches Err(e) ==> e matches Error::Submission(_),
    {
        submit_body(client, RequestBody::AccountInfoQuery { account: self.account }, transport)
    }
}

/// Modifies one account.
pub struct AccountUpdate {
    pub account: AccountId,
    pub key: Option<PublicKey>,
}

impl AccountUpdate {
    /// Sets the account's new key from its 32-byte encoding.  Any other
    /// length cannot be a key: the call is a coercion error and leaves the
    /// builder untouched.
    pub fn key(&mut self, bytes: Vec<u8>) -> (r: Result<(), Error>)
        ensures
            match r {
                Ok(u) => bytes@.len() == PUBLIC_KEY_LEN && final(self).account == old(self).account
                    && key_view(final(self).key) == Some(bytes@),
                Err(e) => e == Error::FieldCoercion && bytes@.len() != PUBLIC_KEY_LEN && *final(self) == *old(self),
            },
    {
        match PublicKey::from_bytes(bytes) {
            Ok(k) => {
                self.key = Some(k);
                Ok(())
            },
            Err(e) => Err(e),
        }
    }

    /// The request this builder stands for against `c`.
    pub open spec fn request(&self, c: &Client) -> RequestView {
        enveloped(
            c,
            RequestBodyView::AccountUpdate { account: self.account, key: key_view(self.key) },
        )
    }

    /// Submits the transaction exactly once.
    pub fn execute<S: Submitter>(&self, client: &Client, transport: &mut S) -> (r: Result<
        TypedResponse,
        Error,
    >)
        ensures
            final(transport).log() == old(transport).log().push(self.request(client)),
            r matches Err(e) ==> e matches Error::Submission(_),
    {
        let key = match &self.key {
            Some(k) => Some(k.dup()),
            None => None,
        };
        submit_body(client, RequestBody::AccountUpdate { account: self.account, key }, transport)
    }
}

/// Marks one account deleted, sending its remaining balance elsewhere.
pub struct AccountDelete {
    pub account: AccountId,
    pub transfer_to: Option<AccountId>,
}

impl AccountDelete {
    /// The builder with the remaining balance routed to `account`.
    pub fn transfer_to(self, account: AccountId) -> (r: AccountDelete)
        ensures
            r == (AccountDelete { transfer_to: Some(account), ..self }),
    {
        AccountDelete { transfer_to: Some(account), ..self }
    }

    /// The request this builder stands for against `c`.
    pub open spec fn request(&self, c: &Client) -> RequestView {
        enveloped(
            c,
            RequestBodyView::AccountDelete { account: self.account, transfer_to: self.transfer_to },
        )
    }

    /// Submits the transaction exactly once.
    pub fn execute<S: Submitter>(&self, client: &Client, transport: &mut S) -> (r: Result<
        TypedResponse,
        Error,
    >)
        ensures
            final(transport).log() == old(transport).log().push(self.request(client)),
            r matches Err(e) ==> e matches Error::Submission(_),
    {
        submit_body(
            client,
            RequestBody::AccountDelete { account: self.account, transfer_to: self.transfer_to },
            transport,
        )
    }
}

/// Queries one claim attached to an account.
pub struct ClaimGetQuery {
    pub account: AccountId,
    pub hash: Vec<u8>,
}

impl ClaimGetQuery {
    /// The request this builder stands for against `c`.
    pub open spec fn request(&self, c: &Client) -> RequestView {
        enveloped(c, RequestBodyView::ClaimGetQuery { account: self.account, hash: self.hash@ })
    }

    /// Submits the query exactly once.
    pub fn execute<S: Submitter>(&self, client: &Client, transport: &mut S) -> (r: Result<
        TypedResponse,
        Error,
    >)
        ensures
            final(transport).log() == old(transport).log().push(self.request(client)),
            r matches Err(e) ==> e matches Error::Submission(_),
    {
        submit_body(
            client,
            RequestBody::ClaimGetQuery { account: self.account, hash: clone_bytes(&self.hash) },
            transport,
        )
    }
}

/// Attaches one claim to an account: the claim hash, with the keys that
/// may later manage it.
pub struct ClaimCreate {
    pub account: AccountId,
    pub hash: Vec<u8>,
    pub keys: Vec<PublicKey>,
}

impl ClaimCreate {
    /// Adds one key, from its 32-byte encoding, to those that may manage
    /// the claim.  Any other length is a coercion error and leaves the
    /// builder untouched.
    pub fn add_key(&mut self, bytes: Vec<u8>) -> (r: Result<(), Error>)
        ensures
            match r {
                Ok(u) => bytes@.len() == PUBLIC_KEY_LEN && final(self).account == old(self).account
                    && final(self).hash@ == old(self).hash@ && keys_view(final(self).keys)
                    == keys_view(old(self).keys).push(bytes@),
                Err(e) => e == Error::FieldCoercion && bytes@.len() != PUBLIC_KEY_LEN && *final(self) == *old(self),
            },
    {
        match PublicKey::from_bytes(bytes) {
            Ok(k) => {
                let ghost pre = self.keys@;
                let ghost kv = k@;
                self.keys.push(k);
                proof {
                    assert(key_seq_view(self.keys@) =~= key_seq_view(pre).push(kv));
                }
                Ok(())
            },
            Err(e) => Err(e),
        }
    }

    /// The request this builder stands for against `c`.
    pub open spec fn request(&self, c: &Client) -> RequestView {
        enveloped(
            c,
            RequestBodyView::ClaimCreate {
                account: self.account,
                hash: self.hash@,
                keys: keys_view(self.keys),
            },
        )
    }

    /// Submits the transaction exactly once.
    pub fn execute<S: Submitter>(&self, client: &Client, transport: &mut S) -> (r: Result<
        TypedResponse,
        Error,
    >)
        ensures
            final(transport).log() == old(transport).log().push(self.request(client)),
            r matches Err(e) ==> e matches Error::Submission(_),
    {
        submit_body(
            client,
            RequestBody::ClaimCreate {
                account: self.account,
                hash: clone_bytes(&self.hash),
                keys: clone_keys(&self.keys),
            },
            transport,
        )
    }
}

/// Deletes one claim attached to an account.
pub struct ClaimDelete {
    pub account: AccountId,
    pub hash: Vec<u8>,
}

impl ClaimDelete {
    /// The request this builder stands for against `c`.
    pub open spec fn request(&self, c: &Client) -> RequestView {
        enveloped(c, RequestBodyView::ClaimDelete { account: self.account, hash: self.hash@ })
    }

    /// Submits the transaction exactly once.
    pub fn execute<S: Submitter>(&self, client: &Client, transport: &mut S) -> (r: Result<
        TypedResponse,
        Error,
    >)
        ensures
            final(transport).log() == old(transport).log().push(self.request(client)),
            r matches Err(e) ==> e matches Error::Submission(_),
    {
        submit_body(
            client,
            RequestBody::ClaimDelete { account: self.account, hash: clone_bytes(&self.hash) },
            transport,
        )
    }
}

/// Calls a function of one smart-contract instance on the network.
pub struct ContractCall {
    pub contract: ContractId,
    pub gas: i64,
    pub parameters: Vec<u8>,
    pub amount: i64,
}

impl ContractCall {
    /// The builder with another gas limit.
    pub open spec fn spec_gas(self, gas: i64) -> ContractCall {
        ContractCall { gas, ..self }
    }

    /// The builder with other call parameters.
    pub open spec fn spec_parameters(self, parameters: Vec<u8>) -> ContractCall {
        ContractCall { parameters, ..self }
    }

    /// The builder with another attached amount.
    pub open spec fn spec_amount(self, amount: i64) -> ContractCall {
        ContractCall { amount, ..self }
    }

    /// Sets the gas the call may use; unspent gas is refunded.
    pub fn gas(self, gas: i64) -> (r: ContractCall)
        ensures
            r == self.spec_gas(gas),
    {
        ContractCall { gas, ..self }
    }

    /// Sets the parameters the called function receives.
    pub fn parameters(self, parameters: Vec<u8>) -> (r: ContractCall)
        ensures
            r == self.spec_parameters(parameters),
    {
        ContractCall { parameters, ..self }
    }

    /// Sets the amount sent along with the call.
    pub fn amount(self, amount: i64) -> (r: ContractCall)
        ensures
            r == self.spec_amount(amount),
    {
        ContractCall { amount, ..self }
    }

    /// The request this builder stands for against `c`.
    pub open spec fn request(&self, c: &Client) -> RequestView {
        enveloped(
            c,
            RequestBodyView::ContractCall {
                contract: self.contract,
                gas: self.gas,
                parameters: self.parameters@,
                amount: self.amount,
            },
        )
    }

    /// Submits the transaction exactly once.
    pub fn execute<S: Submitter>(&self, client: &Client, transport: &mut S) -> (r: Result<
        TypedResponse,
        Error,
    >)
        ensures
            final(transport).log() == old(transport).log().push(self.request(client)),
            r matches Err(e) ==> e matches Error::Submission(_),
    {
        submit_body(
            client,
            RequestBody::ContractCall {
                contract: self.contract,
                gas: self.gas,
                parameters: clone_bytes(&self.parameters),
                amount: self.amount,
            },
            transport,
        )
    }
}

/// Runs a function of one contract locally on a node and reads the result.
pub struct ContractQuery {
    pub contract: ContractId,
    pub gas: i64,
    pub parameters: Vec<u8>,
    pub max_result_size: i64,
}

impl ContractQuery {
    /// The request this builder stands for against `c`.
    pub open spec fn request(&self, c: &Client) -> RequestView {
        enveloped(
            c,
            RequestBodyView::ContractQuery {
                contract: self.contract,
                gas: self.gas,
                parameters: self.parameters@,
                max_result_size: self.max_result_size,
            },
        )
    }

    /// Submits the query exactly once.
    pub fn execute<S: Submitter>(&self, client: &Client, transport: &mut S) -> (r: Result<
        TypedResponse,
        Error,
    >)
        ensures
            final(transport).log() == old(transport).log().push(self.request(client)),
            r matches Err(e) ==> e matches Error::Submission(_),
    {
        submit_body(
            client,
            RequestBody::ContractQuery {
                contract: self.contract,
                gas: self.gas,
                parameters: clone_bytes(&self.parameters),
                max_result_size: self.max_result_size,
            },
            transport,
        )
    }
}

/// Modifies one smart-contract instance.
pub struct ContractUpdate {
    pub contract: ContractId,
    pub admin_key: Option<PublicKey>,
}

impl ContractUpdate {
    /// Sets the contract's new admin key from its 32-byte encoding; any
    /// other length is a coercion error and leaves the builder untouched.
    pub fn admin_key(&mut self, bytes: Vec<u8>) -> (r: Result<(), Error>)
        ensures
            match r {
                Ok(u) => bytes@.len() == PUBLIC_KEY_LEN && final(self).contract == old(self).contract && key_view(final(self).admin_key) == Some(bytes@),
                Err(e) => e == Error::FieldCoercion && bytes@.len() != PUBLIC_KEY_LEN && *final(self) == *old(self),
            },
    {
        match PublicKey::from_bytes(bytes) {
            Ok(k) => {
                self.admin_key = Some(k);
                Ok(())
            },
            Err(e) => Err(e),
        }
    }

    /// The request this builder stands for against `c`.
    pub open spec fn request(&self, c: &Client) -> RequestView {
        enveloped(
            c,
            RequestBodyView::ContractUpdate {
                contract: self.contract,
                admin_key: key_view(self.admin_key),
            },
        )
    }

    /// Submits the transaction exactly once.
    pub fn execute<S: Submitter>(&self, client: &Client, transport: &mut S) -> (r: Result<
        TypedResponse,
        Error,
    >)
        ensures
            final(transport).log() == old(transport).log().push(self.request(client)),
            r matches Err(e) ==> e matches Error::Submission(_),
    {
        let admin_key = match &self.admin_key {
            Some(k) => Some(k.dup()),
            None => None,
        };
        submit_body(
            client,
            RequestBody::ContractUpdate { contract: self.contract, admin_key },
            transport,
        )
    }
}

/// Appends contents to the end of one file.
pub struct FileAppend {
    pub file: FileId,
    pub contents: Vec<u8>,
}

impl FileAppend {
    /// The request this builder stands for against `c`.
    pub open spec fn request(&self, c: &Client) -> RequestView {
        enveloped(c, RequestBodyView::FileAppend { file: self.file, contents: self.contents@ })
    }

    /// Submits the transaction exactly once.
    pub fn execute<S: Submitter>(&self, client: &Client, transport: &mut S) -> (r: Result<
        TypedResponse,
        Error,
    >)
        ensures
            final(transport).log() == old(transport).log().push(self.request(client)),
            r matches Err(e) ==> e matches Error::Submission(_),
    {
        submit_body(
            client,
            RequestBody::FileAppend { file: self.file, contents: clone_bytes(&self.contents) },
            transport,
        )
    }
}

/// Marks one file deleted until its expiration.
pub struct FileDelete {
    pub file: FileId,
}

impl FileDelete {
    /// The request this builder stands for against `c`.
    pub open spec fn request(&self, c: &Client) -> RequestView {
        enveloped(c, RequestBodyView::FileDelete { file: self.file })
    }

    /// Submits the transaction exactly once.
    pub fn execute<S: Submitter>(&self, client: &Client, transport: &mut S) -> (r: Result<
        TypedResponse,
        Error,
    >)
        ensures
            final(transport).log() == old(transport).log().push(self.request(client)),
            r matches Err(e) ==> e matches Error::Submission(_),
    {
        submit_body(client, RequestBody::FileDelete { file: self.file }, transport)
    }
}

/// Queries everything about one file except its contents.
pub struct FileInfoQuery {
    pub file: FileId,
}

impl FileInfoQuery {
    /// The request this builder stands for against `c`.
    pub open spec fn request(&self, c: &Client) -> RequestView {
        enveloped(c, RequestBodyView::FileInfoQuery { file: self.file })
    }

    /// Submits the query exactly once.
    pub fn execute<S: Submitter>(&self, client: &Client, transport: &mut S) -> (r: Result<
        TypedResponse,
        Error,
    >)
        ensures
            final(transport).log() == old(transport).log().push(self.request(client)),
            r matches Err(e) ==> e matches Error::Submission(_),
    {
        submit_body(client, RequestBody::FileInfoQuery { file: self.file }, transport)
    }
}

/// Queries the contents of one file.
pub struct FileContentsQuery {
    pub file: FileId,
}

impl FileContentsQuery {
    /// The request this builder stands for against `c`.
    pub open spec fn request(&self, c: &Client) -> RequestView {
        enveloped(c, RequestBodyView::FileContentsQuery { file: self.file })
    }

    /// Submits the query exactly once.
    pub fn execute<S: Submitter>(&self, client: &Client, transport: &mut S) -> (r: Result<
        TypedResponse,
        Error,
    >)
        ensures
            final(transport).log() == old(transport).log().push(self.request(client)),
            r matches Err(e) ==> e matches Error::Submission(_),
    {
        submit_body(client, RequestBody::FileContentsQuery { file: self.file }, transport)
    }
}

/// Queries the receipt of one transaction.
pub struct ReceiptQuery {
    pub transaction: TransactionId,
}

impl ReceiptQuery {
    /// The request this builder stands for against `c`.
    pub open spec fn request(&self, c: &Client) -> RequestView {
        enveloped(c, RequestBodyView::ReceiptQuery { transaction: self.transaction })
    }

    /// Submits the query exactly once.
    pub fn execute<S: Submitter>(&self, client: &Client, transport: &mut S) -> (r: Result<
        TypedResponse,
        Error,
    >)
        ensures
            final(transport).log() == old(transport).log().push(self.request(client)),
            r matches Err(e) ==> e matches Error::Submission(_),
    {
        submit_body(client, RequestBody::ReceiptQuery { transaction: self.transaction }, transport)
    }
}

/// Queries the record of one transaction.
pub struct RecordQuery {
    pub transaction: TransactionId,
}

impl RecordQuery {
    /// The request this builder stands for against `c`.
    pub open spec fn request(&self, c: &Client) -> RequestView {
        enveloped(c, RequestBodyView::RecordQuery { transaction: self.transaction })
    }

    /// Submits the query exactly once.
    pub fn execute<S: Submitter>(&self, client: &Client, transport: &mut S) -> (r: Result<
        TypedResponse,
        Error,
    >)
        ensures
            final(transport).log() == old(transport).log().push(self.request(client)),
            r matches Err(e) ==> e matches Error::Submission(_),
    {
        submit_body(client, RequestBody::RecordQuery { transaction: self.transaction }, transport)
    }
}

/// Independent fields may be configured in either order: the builder, and
/// with it the request it stands for, comes out the same.
pub proof fn lemma_setter_order_immaterial(b: ContractCall, gas: i64, amount: i64, c: &Client)
    ensures
        b.spec_gas(gas).spec_amount(amount) == b.spec_amount(amount).spec_gas(gas),
        b.spec_gas(gas).spec_amount(amount).request(c) == b.spec_amount(amount).spec_gas(
            gas,
        ).request(c),
{
}

} // verus!
