//! The network handle: one shared object per session that knows how to
//! reach the network and who pays for and signs submitted work.

use vstd::prelude::*;
use crate::error::Error;
use crate::id::IdValue;
use crate::id::spec_normalize_account;
use crate::id::spec_normalize_contract;
use crate::id::spec_normalize_file;
use crate::id::spec_normalize_transaction;
use crate::id::normalize_account;
use crate::id::normalize_contract;
use crate::id::normalize_file;
use crate::id::normalize_transaction;
use crate::request::NodeRef;
use crate::request::NodeRefView;
use crate::request::Operator;
use crate::request::OperatorView;
use crate::request::Request;
use crate::request::RequestBody;
use crate::request::RequestView;
use crate::request::SigningKey;
use crate::request::operator_view;
use crate::scope::AccountScope;
use crate::scope::ContractScope;
use crate::scope::FileScope;
use crate::scope::TransactionScope;

verus! {

/// What `configure_node` accepts: a bare socket address taken as it is, or
/// an account identifier for the node, normalized like any other.
pub enum NodeValue {
    Address(String),
    Id(IdValue),
}

/// The node reference a node value denotes, or the error normalizing it.
pub open spec fn spec_node_target(v: NodeValue) -> Result<NodeRefView, Error> {
    match v {
        NodeValue::Address(s) => Ok(NodeRefView::Address(s@)),
        NodeValue::Id(idv) => match spec_normalize_account(idv) {
            Ok(a) => Ok(NodeRefView::Account(a)),
            Err(e) => Err(e),
        },
    }
}

/// The network handle.  It may be shared freely — every entered scope
/// counts as one more holder — but reconfiguring it is only guaranteed to
/// take effect while no other holder exists: a configuration call on a
/// shared handle is a silent no-op, never an error, never a torn write.
/// Callers that need the new configuration must check `share_count`
/// themselves.
pub struct Client {
    node: NodeRef,
    operator: Option<Operator>,
    shares: u64,
}

impl Client {
    /// The node requests currently go to.
    pub closed spec fn spec_node(&self) -> NodeRefView {
        self.node@
    }

    /// The configured operator, if any.
    pub closed spec fn spec_operator(&self) -> Option<OperatorView> {
        operator_view(self.operator)
    }

    /// How many scopes currently hold a shared reference.
    pub closed spec fn spec_shares(&self) -> u64 {
        self.shares
    }

    /// The configuration as one value: what configuration calls change and
    /// what sharing freezes.
    pub open spec fn config(&self) -> (NodeRefView, Option<OperatorView>) {
        (self.spec_node(), self.spec_operator())
    }

    /// A fresh handle pointed at a network address, with no operator and
    /// no holder besides its owner.
    pub fn new(address: String) -> (r: Client)
        ensures
            r.spec_node() == NodeRefView::Address(address@),
            r.spec_operator() == None::<OperatorView>,
            r.spec_shares() == 0,
    {
        Client { node: NodeRef::Address(address), operator: None, shares: 0 }
    }

    /// The node requests currently go to.
    pub fn current_node(&self) -> (r: &NodeRef)
        ensures
            r@ == self.spec_node(),
    {
        &self.node
    }

    /// Whether an operator is configured.
    pub fn has_operator(&self) -> (r: bool)
        ensures
            r == self.spec_operator().is_some(),
    {
        self.operator.is_some()
    }

    /// How many scopes currently hold a shared reference.
    pub fn share_count(&self) -> (r: u64)
        ensures
            r == self.spec_shares(),
    {
        self.shares
    }

    /// Points the handle at another node.  On an unshared handle the new
    /// node replaces the old; on a shared handle nothing changes and no
    /// error is raised.  A malformed or mismatched identifier is an error
    /// either way, and changes nothing.
    pub fn configure_node(&mut self, value: NodeValue) -> (r: Result<(), Error>)
        ensures
            match spec_node_target(value) {
                Ok(n) => {
                    &&& r == Ok::<(), Error>(())
                    &&& final(self).spec_node() == (if old(self).spec_shares() == 0 {
                        n
                    } else {
                        old(self).spec_node()
                    })
                    &&& final(self).spec_operator() == old(self).spec_operator()
                    &&& final(self).spec_shares() == old(self).spec_shares()
                },
                Err(e) => r == Err::<(), Error>(e) && *final(self) == *old(self),
            },
    {
        let target = match value {
            NodeValue::Address(s) => NodeRef::Address(s),
            NodeValue::Id(idv) => match normalize_account(&idv) {
                Ok(a) => NodeRef::Account(a),
                Err(e) => {
                    return Err(e);
                },
            },
        };
        if self.shares == 0 {
            self.node = target;
        }
        Ok(())
    }

    /// Replaces the operator account and its signing capability, always as
    /// one unit: a mismatched pair would make every later transaction
    /// unverifiable.  The same sharing rule as for `configure_node` holds.
    pub fn configure_operator(&mut self, value: IdValue, key: SigningKey) -> (r: Result<(), Error>)
        ensures
            match spec_normalize_account(value) {
                Ok(a) => {
                    &&& r == Ok::<(), Error>(())
                    &&& final(self).spec_operator() == (if old(self).spec_shares() == 0 {
                        Some(OperatorView { account: a, key: key@ })
                    } else {
                        old(self).spec_operator()
                    })
                    &&& final(self).spec_node() == old(self).spec_node()
                    &&& final(self).spec_shares() == old(self).spec_shares()
                },
                Err(e) => r == Err::<(), Error>(e) && *final(self) == *old(self),
            },
    {
        let account = match normalize_account(&value) {
            Ok(a) => a,
            Err(e) => {
                return Err(e);
            },
        };
        if self.shares == 0 {
            self.operator = Some(Operator { account, key });
        }
        Ok(())
    }

    /// Enters the scope of one account.  The identifier is normalized, one
    /// shared reference is taken on the handle, and nothing else happens:
    /// no network submission, no configuration change.
    pub fn account(&mut self, value: IdValue) -> (r: Result<AccountScope, Error>)
        requires
            old(self).spec_shares() < u64::MAX,
        ensures
            final(self).config() == old(self).config(),
            match spec_normalize_account(value) {
                Ok(id) => {
                    &&& r matches Ok(sc) && sc.account == id
                    &&& final(self).spec_shares() == old(self).spec_shares() + 1
                },
                Err(e) => r == Err::<AccountScope, Error>(e) && final(self).spec_shares() == old(self).spec_shares(),
            },
    {
        let id = match normalize_account(&value) {
            Ok(id) => id,
            Err(e) => {
                return Err(e);
            },
        };
        self.shares = self.shares + 1;
        Ok(AccountScope { account: id })
    }

    /// Enters the scope of one smart-contract instance; as for `account`.
    pub fn contract(&mut self, value: IdValue) -> (r: Result<ContractScope, Error>)
        requires
            old(self).spec_shares() < u64::MAX,
        ensures
            final(self).config() == old(self).config(),
            match spec_normalize_contract(value) {
                Ok(id) => {
                    &&& r matches Ok(sc) && sc.contract == id
                    &&& final(self).spec_shares() == old(self).spec_shares() + 1
                },
                Err(e) => r == Err::<ContractScope, Error>(e) && final(self).spec_shares() == old(self).spec_shares(),
            },
    {
        let id = match normalize_contract(&value) {
            Ok(id) => id,
            Err(e) => {
                return Err(e);
            },
        };
        self.shares = self.shares + 1;
        Ok(ContractScope { contract: id })
    }

    /// Enters the scope of one file; as for `account`.
    pub fn file(&mut self, value: IdValue) -> (r: Result<FileScope, Error>)
        requires
            old(self).spec_shares() < u64::MAX,
        ensures
            final(self).config() == old(self).config(),
            match spec_normalize_file(value) {
                Ok(id) => {
                    &&& r matches Ok(sc) && sc.file == id
                    &&& final(self).spec_shares() == old(self).spec_shares() + 1
                },
                Err(e) => r == Err::<FileScope, Error>(e) && final(self).spec_shares() == old(self).spec_shares(),
            },
    {
        let id = match normalize_file(&value) {
            Ok(id) => id,
            Err(e) => {
                return Err(e);
            },
        };
        self.shares = self.shares + 1;
        Ok(FileScope { file: id })
    }

    /// Enters the scope of one transaction; as for `account`.
    pub fn transaction(&mut self, value: IdValue) -> (r: Result<TransactionScope, Error>)
        requires
            old(self).spec_shares() < u64::MAX,
        ensures
            final(self).config() == old(self).config(),
            match spec_normalize_transaction(value) {
                Ok(id) => {
                    &&& r matches Ok(sc) && sc.transaction == id
                    &&& final(self).spec_shares() == old(self).spec_shares() + 1
                },
                Err(e) => r == Err::<TransactionScope, Error>(e) && final(self).spec_shares()
                    == old(self).spec_shares(),
            },
    {
        let id = match normalize_transaction(&value) {
            Ok(id) => id,
            Err(e) => {
                return Err(e);
            },
        };
        self.shares = self.shares + 1;
        Ok(TransactionScope { transaction: id })
    }

    /// Records that one scope holder is gone.  Once the last one is
    /// released, configuration calls take effect again.
    pub fn release(&mut self)
        ensures
            final(self).config() == old(self).config(),
            final(self).spec_shares() == (if old(self).spec_shares() == 0 {
                0u64
            } else {
                (old(self).spec_shares() - 1) as u64
            }),
    {
        if self.shares > 0 {
            self.shares = self.shares - 1;
        }
    }

    /// The envelope around one finished body: the current node, and the
    /// current operator attached for the signing collaborator when one is
    /// configured.
    pub fn wrap(&self, body: RequestBody) -> (r: Request)
        ensures
            r@ == (RequestView {
                node: self.spec_node(),
                operator: self.spec_operator(),
                body: body@,
            }),
    {
        let operator = match &self.operator {
            Some(op) => Some(op.dup()),
            None => None,
        };
        Request { node: self.node.dup(), operator, body }
    }
}

} // verus!
