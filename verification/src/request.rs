//! The wire-facing data: what a finished request holds and what a typed
//! answer can be.  Serialization of either is the transport collaborator's
//! concern; this library builds and reads them as plain values.

use vstd::prelude::*;
use crate::error::Error;
use crate::file_info::FileInfo;
use crate::id::AccountId;
use crate::id::ContractId;
use crate::id::FileId;
use crate::id::TransactionId;

verus! {

/// A byte-for-byte copy of a byte buffer.
pub(crate) fn clone_bytes(v: &Vec<u8>) -> (r: Vec<u8>)
    ensures
        r@ == v@,
{
    let mut r: Vec<u8> = Vec::new();
    let mut i: usize = 0;
    while i < v.len()
        invariant
            i <= v@.len(),
            r@ == v@.subrange(0, i as int),
        decreases v@.len() - i,
    {
        r.push(v[i]);
        proof {
            assert(r@ =~= v@.subrange(0, i as int + 1));
        }
        i = i + 1;
    }
    proof {
        assert(r@ =~= v@);
    }
    r
}

/// Where requests go: a bare socket address, or a node named by its
/// account.
pub enum NodeRef {
    Address(String),
    Account(AccountId),
}

/// The mathematical value of a [`NodeRef`].
pub enum NodeRefView {
    Address(Seq<char>),
    Account(AccountId),
}

impl View for NodeRef {
    type V = NodeRefView;

    open spec fn view(&self) -> NodeRefView {
        match self {
            NodeRef::Address(s) => NodeRefView::Address(s@),
            NodeRef::Account(id) => NodeRefView::Account(*id),
        }
    }
}

impl NodeRef {
    /// A copy with the same value.
    pub fn dup(&self) -> (r: NodeRef)
        ensures
            r@ == self@,
    {
        match self {
            NodeRef::Address(s) => NodeRef::Address(s.clone()),
            NodeRef::Account(id) => NodeRef::Account(*id),
        }
    }
}

/// Secret key material for the signing collaborator.  This library carries
/// it next to the operator account and never interprets it.
pub struct SigningKey {
    pub material: Vec<u8>,
}

impl View for SigningKey {
    type V = Seq<u8>;

    open spec fn view(&self) -> Seq<u8> {
        self.material@
    }
}

impl SigningKey {
    /// Wraps raw secret key material.
    pub fn new(material: Vec<u8>) -> (r: SigningKey)
        ensures
            r@ == material@,
    {
        SigningKey { material }
    }

    /// A copy with the same value.
    pub fn dup(&self) -> (r: SigningKey)
        ensures
            r@ == self@,
    {
        SigningKey { material: clone_bytes(&self.material) }
    }
}

/// The account that pays for and signs submitted work, as one unit with
/// its signing capability.
pub struct Operator {
    pub account: AccountId,
    pub key: SigningKey,
}

/// The mathematical value of an [`Operator`].
pub struct OperatorView {
    pub account: AccountId,
    pub key: Seq<u8>,
}

impl View for Operator {
    type V = OperatorView;

    open spec fn view(&self) -> OperatorView {
        OperatorView { account: self.account, key: self.key@ }
    }
}

impl Operator {
    /// A copy with the same value.
    pub fn dup(&self) -> (r: Operator)
        ensures
            r@ == self@,
    {
        Operator { account: self.account, key: self.key.dup() }
    }
}

/// The length of a public key encoding this library accepts.
pub const PUBLIC_KEY_LEN: usize = 32;

/// A public key in its 32-byte encoding.
pub struct PublicKey {
    bytes: Vec<u8>,
}

impl View for PublicKey {
    type V = Seq<u8>;

    closed spec fn view(&self) -> Seq<u8> {
        self.bytes@
    }
}

impl PublicKey {
    /// A well-formed public key holds exactly 32 bytes.
    pub open spec fn wf(&self) -> bool {
        self@.len() == PUBLIC_KEY_LEN
    }

    /// Coerces raw bytes into a public key.  Anything but 32 bytes cannot
    /// be one and is a field-coercion error.
    pub fn from_bytes(bytes: Vec<u8>) -> (r: Result<PublicKey, Error>)
        ensures
            match r {
                Ok(k) => bytes@.len() == PUBLIC_KEY_LEN && k@ == bytes@ && k.wf(),
                Err(e) => bytes@.len() != PUBLIC_KEY_LEN && e == Error::FieldCoercion,
            },
    {
        if bytes.len() == PUBLIC_KEY_LEN {
            Ok(PublicKey { bytes })
        } else {
            Err(Error::FieldCoercion)
        }
    }

    /// The key's 32-byte encoding.
    pub fn bytes(&self) -> (r: &Vec<u8>)
        ensures
            r@ == self@,
    {
        &self.bytes
    }

    /// A copy with the same value.
    pub fn dup(&self) -> (r: PublicKey)
        ensures
            r@ == self@,
    {
        PublicKey { bytes: clone_bytes(&self.bytes) }
    }
}

/// The kind-specific payload of one request: the target identifier and the
/// configured fields of the builder that made it.
pub enum RequestBody {
    AccountBalanceQuery { account: AccountId },
    AccountInfoQuery { account: AccountId },
    AccountUpdate { account: AccountId, key: Option<PublicKey> },
    AccountDelete { account: AccountId, transfer_to: Option<AccountId> },
    ClaimGetQuery { account: AccountId, hash: Vec<u8> },
    ClaimCreate { account: AccountId, hash: Vec<u8>, keys: Vec<PublicKey> },
    ClaimDelete { account: AccountId, hash: Vec<u8> },
    ContractCall { contract: ContractId, gas: i64, parameters: Vec<u8>, amount: i64 },
    ContractQuery { contract: ContractId, gas: i64, parameters: Vec<u8>, max_result_size: i64 },
    ContractUpdate { contract: ContractId, admin_key: Option<PublicKey> },
    FileAppend { file: FileId, contents: Vec<u8> },
    FileDelete { file: FileId },
    FileInfoQuery { file: FileId },
    FileContentsQuery { file: FileId },
    ReceiptQuery { transaction: TransactionId },
    RecordQuery { transaction: TransactionId },
}

/// The mathematical value of a [`RequestBody`].
pub enum RequestBodyView {
    AccountBalanceQuery { account: AccountId },
    AccountInfoQuery { account: AccountId },
    AccountUpdate { account: AccountId, key: Option<Seq<u8>> },
    AccountDelete { account: AccountId, transfer_to: Option<AccountId> },
    ClaimGetQuery { account: AccountId, hash: Seq<u8> },
    ClaimCreate { account: AccountId, hash: Seq<u8>, keys: Seq<Seq<u8>> },
    ClaimDelete { account: AccountId, hash: Seq<u8> },
    ContractCall { contract: ContractId, gas: i64, parameters: Seq<u8>, amount: i64 },
    ContractQuery { contract: ContractId, gas: i64, parameters: Seq<u8>, max_result_size: i64 },
    ContractUpdate { contract: ContractId, admin_key: Option<Seq<u8>> },
    FileAppend { file: FileId, contents: Seq<u8> },
    FileDelete { file: FileId },
    FileInfoQuery { file: FileId },
    FileContentsQuery { file: FileId },
    ReceiptQuery { transaction: TransactionId },
    RecordQuery { transaction: TransactionId },
}

/// The value of an optional public key.
pub open spec fn key_view(k: Option<PublicKey>) -> Option<Seq<u8>> {
    match k {
        Some(k) => Some(k@),
        None => None,
    }
}

/// The values of a row of public keys.
pub open spec fn key_seq_view(s: Seq<PublicKey>) -> Seq<Seq<u8>> {
    s.map_values(|k: PublicKey| k@)
}

/// The values of a list of public keys.
pub open spec fn keys_view(keys: Vec<PublicKey>) -> Seq<Seq<u8>> {
    key_seq_view(keys@)
}

/// A key-for-key copy of a list of public keys.
pub(crate) fn clone_keys(keys: &Vec<PublicKey>) -> (r: Vec<PublicKey>)
    ensures
        keys_view(r) == keys_view(*keys),
{
    let mut r: Vec<PublicKey> = Vec::new();
    let mut i: usize = 0;
    while i < keys.len()
        invariant
            i <= keys@.len(),
            key_seq_view(r@) == key_seq_view(keys@.subrange(0, i as int)),
        decreases keys@.len() - i,
    {
        let x = keys[i].dup();
        let ghost r0 = r@;
        r.push(x);
        proof {
            let sub1 = keys@.subrange(0, i as int + 1);
            assert(key_seq_view(r0).len() == r0.len());
            assert(key_seq_view(keys@.subrange(0, i as int)).len() == i as int);
            assert(r0.len() == i as int);
            assert forall|j: int| 0 <= j < r@.len() implies key_seq_view(r@)[j] == key_seq_view(
                sub1,
            )[j] by {
                if j < i as int {
                    assert(key_seq_view(r0)[j] == key_seq_view(keys@.subrange(0, i as int))[j]);
                    assert(keys@.subrange(0, i as int)[j] == keys@[j]);
                    assert(sub1[j] == keys@[j]);
                    assert(r@[j] == r0[j]);
                } else {
                    assert(r@[j] == x);
                    assert(sub1[j] == keys@[i as int]);
                }
            }
            assert(key_seq_view(r@) =~= key_seq_view(keys@.subrange(0, i as int + 1)));
        }
        i = i + 1;
    }
    proof {
        assert(keys@.subrange(0, keys@.len() as int) =~= keys@);
    }
    r
}

impl View for RequestBody {
    type V = RequestBodyView;

    open spec fn view(&self) -> RequestBodyView {
        match self {
            RequestBody::AccountBalanceQuery { account } => RequestBodyView::AccountBalanceQuery {
                account: *account,
            },
            RequestBody::AccountInfoQuery { account } => RequestBodyView::AccountInfoQuery {
                account: *account,
            },
            RequestBody::AccountUpdate { account, key } => RequestBodyView::AccountUpdate {
                account: *account,
                key: key_view(*key),
            },
            RequestBody::AccountDelete { account, transfer_to } => RequestBodyView::AccountDelete {
                account: *account,
                transfer_to: *transfer_to,
            },
            RequestBody::ClaimGetQuery { account, hash } => RequestBodyView::ClaimGetQuery {
                account: *account,
                hash: hash@,
            },
            RequestBody::ClaimCreate { account, hash, keys } => RequestBodyView::ClaimCreate {
                account: *account,
                hash: hash@,
                keys: keys_view(*keys),
            },
            RequestBody::ClaimDelete { account, hash } => RequestBodyView::ClaimDelete {
                account: *account,
                hash: hash@,
            },
            RequestBody::ContractCall { contract, gas, parameters, amount } => {
                RequestBodyView::ContractCall {
                    contract: *contract,
                    gas: *gas,
                    parameters: parameters@,
                    amount: *amount,
                }
            },
            RequestBody::ContractQuery { contract, gas, parameters, max_result_size } => {
                RequestBodyView::ContractQuery {
                    contract: *contract,
                    gas: *gas,
                    parameters: parameters@,
                    max_result_size: *max_result_size,
                }
            },
            RequestBody::ContractUpdate { contract, admin_key } => {
                RequestBodyView::ContractUpdate {
                    contract: *contract,
                    admin_key: key_view(*admin_key),
                }
            },
            RequestBody::FileAppend { file, contents } => RequestBodyView::FileAppend {
                file: *file,
                contents: contents@,
            },
            RequestBody::FileDelete { file } => RequestBodyView::FileDelete { file: *file },
            RequestBody::FileInfoQuery { file } => RequestBodyView::FileInfoQuery { file: *file },
            RequestBody::FileContentsQuery { file } => RequestBodyView::FileContentsQuery {
                file: *file,
            },
            RequestBody::ReceiptQuery { transaction } => RequestBodyView::ReceiptQuery {
                transaction: *transaction,
            },
            RequestBody::RecordQuery { transaction } => RequestBodyView::RecordQuery {
                transaction: *transaction,
            },
        }
    }
}

/// One finished request: the node it goes to, the operator that pays for
/// and signs it when one is configured, and its kind-specific payload.
pub struct Request {
    pub node: NodeRef,
    pub operator: Option<Operator>,
    pub body: RequestBody,
}

/// The mathematical value of a [`Request`].
pub struct RequestView {
    pub node: NodeRefView,
    pub operator: Option<OperatorView>,
    pub body: RequestBodyView,
}

/// The value of an optional operator.
pub open spec fn operator_view(o: Option<Operator>) -> Option<OperatorView> {
    match o {
        Some(op) => Some(op@),
        None => None,
    }
}

impl View for Request {
    type V = RequestView;

    open spec fn view(&self) -> RequestView {
        RequestView { node: self.node@, operator: operator_view(self.operator), body: self.body@ }
    }
}

/// What the submission collaborator can answer with.  Decoding a payload
/// any further is its concern, not this library's.
pub enum TypedResponse {
    /// Bare acknowledgement of a transaction.
    Ack,
    /// An account balance.
    Balance(u64),
    /// A consensus status code from a receipt.
    Receipt(u32),
    /// What an information query about a file reports.
    FileInfo(FileInfo),
    /// An undecoded payload: file contents, a record, a claim, a contract
    /// result.
    Data(Vec<u8>),
}

} // verus!
