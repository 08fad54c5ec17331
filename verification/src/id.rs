//! Typed entity identifiers and the normalizer that produces them.
//!
//! An account, contract or file is named by a `shard.realm.number` triple;
//! a transaction is named by its payer account and its valid-start instant,
//! written `shard.realm.number@seconds.nanos`.  Every entry point of the
//! library accepts an identifier either in that canonical text form or as
//! an already typed value; [`normalize_account`] and its siblings turn both
//! forms into the one typed representation.

use vstd::prelude::*;
use crate::digits::dec_digits;
use crate::digits::dec_run;
use crate::digits::digits_val;
use crate::digits::format_u64_into;
use crate::digits::is_dec_digit;
use crate::digits::lemma_dec_digits_val;
use crate::digits::parse_u64_run;
use crate::digits::push_char;
use crate::error::Error;

verus! {

/// A crypto-currency account on the network.
#[derive(Clone, Copy, Debug, PartialEq, Eq, Structural)]
pub struct AccountId {
    pub shard: u64,
    pub realm: u64,
    pub num: u64,
}

/// A smart-contract instance on the network.
#[derive(Clone, Copy, Debug, PartialEq, Eq, Structural)]
pub struct ContractId {
    pub shard: u64,
    pub realm: u64,
    pub num: u64,
}

/// A file stored on the network.
#[derive(Clone, Copy, Debug, PartialEq, Eq, Structural)]
pub struct FileId {
    pub shard: u64,
    pub realm: u64,
    pub num: u64,
}

/// A transaction, named by the account that paid for it and the instant
/// from which it was valid.
#[derive(Clone, Copy, Debug, PartialEq, Eq, Structural)]
pub struct TransactionId {
    pub payer: AccountId,
    pub valid_start_seconds: u64,
    pub valid_start_nanos: u32,
}

/// An already typed identifier of any entity kind.
#[derive(Clone, Copy, Debug, PartialEq, Eq, Structural)]
pub enum EntityId {
    Account(AccountId),
    Contract(ContractId),
    File(FileId),
    Transaction(TransactionId),
}

/// What a caller may hand to an entry point that wants an identifier:
/// canonical text, or an already typed value.
pub enum IdValue {
    Text(String),
    Typed(EntityId),
}

/// The nanosecond part of an instant is below one billion.
pub const MAX_NANOS: u64 = 999_999_999;

// ---------------------------------------------------------------------
// The canonical triple grammar, `shard.realm.number`.
// ---------------------------------------------------------------------

/// The dots of a `shard.realm.number` text stand at `i` and `j`, and the
/// three runs between them are decimal numbers that fit in a `u64`.
pub open spec fn splits_ok(s: Seq<char>, i: int, j: int) -> bool {
    &&& 0 <= i < j < s.len()
    &&& s[i] == '.'
    &&& s[j] == '.'
    &&& dec_run(s.subrange(0, i))
    &&& dec_run(s.subrange(i + 1, j))
    &&& dec_run(s.subrange(j + 1, s.len() as int))
}

/// `s` is a canonical `shard.realm.number` text.
pub open spec fn triple_grammar(s: Seq<char>) -> bool {
    exists|i: int, j: int| splits_ok(s, i, j)
}

/// The three numbers a canonical triple text denotes.
pub open spec fn triple_value(s: Seq<char>) -> (u64, u64, u64)
    recommends
        triple_grammar(s),
{
    let (i, j) = choose|i: int, j: int| splits_ok(s, i, j);
    (
        digits_val(s.subrange(0, i)) as u64,
        digits_val(s.subrange(i + 1, j)) as u64,
        digits_val(s.subrange(j + 1, s.len() as int)) as u64,
    )
}

/// A triple text splits in only one way: its dots are the only dots.
pub proof fn lemma_splits_unique(s: Seq<char>, i1: int, j1: int, i2: int, j2: int)
    requires
        splits_ok(s, i1, j1),
        splits_ok(s, i2, j2),
    ensures
        i1 == i2,
        j1 == j2,
{
    assert(('.' as int) == 46);
    if i1 < i2 {
        assert(is_dec_digit(s.subrange(0, i2)[i1]));
    }
    if i2 < i1 {
        assert(is_dec_digit(s.subrange(0, i1)[i2]));
    }
    if j1 < j2 {
        assert(is_dec_digit(s.subrange(i2 + 1, j2)[j1 - i2 - 1]));
    }
    if j2 < j1 {
        assert(is_dec_digit(s.subrange(i1 + 1, j1)[j2 - i1 - 1]));
    }
}

/// Every character of a triple text is a digit or a dot.
pub proof fn lemma_triple_chars(s: Seq<char>, k: int)
    requires
        triple_grammar(s),
        0 <= k < s.len(),
    ensures
        is_dec_digit(s[k]) || s[k] == '.',
{
    let (i, j) = choose|i: int, j: int| splits_ok(s, i, j);
    if k < i {
        assert(is_dec_digit(s.subrange(0, i)[k]));
    } else if i < k < j {
        assert(is_dec_digit(s.subrange(i + 1, j)[k - i - 1]));
    } else if j < k {
        assert(is_dec_digit(s.subrange(j + 1, s.len() as int)[k - j - 1]));
    }
}

/// The position of the first `target` at or after `from`, if there is one.
fn find_char(s: &str, from: usize, target: char) -> (r: Option<usize>)
    requires
        from <= s@.len(),
    ensures
        match r {
            Some(k) => from <= k < s@.len() && s@[k as int] == target && (forall|t: int|
                from <= t < k ==> s@[t] != target),
            None => forall|t: int| from <= t < s@.len() ==> s@[t] != target,
        },
{
    let n = s.unicode_len();
    let mut i: usize = from;
    while i < n
        invariant
            from <= i <= n == s@.len(),
            forall|t: int| from <= t < i ==> s@[t] != target,
        decreases n - i,
    {
        let c = s.get_char(i);
        if c == target {
            return Some(i);
        }
        i = i + 1;
    }
    None
}

/// Reads a canonical `shard.realm.number` text.  Answers `Some` exactly on
/// texts of the grammar, with the three numbers they denote.
pub fn parse_triple(s: &str) -> (r: Option<(u64, u64, u64)>)
    ensures
        triple_grammar(s@) ==> r == Some(triple_value(s@)),
        !triple_grammar(s@) ==> r == None::<(u64, u64, u64)>,
{
    let n = s.unicode_len();
    let i = match find_char(s, 0, '.') {
        Some(i) => i,
        None => {
            proof {
                if triple_grammar(s@) {
                    let (i0, j0) = choose|i0: int, j0: int| splits_ok(s@, i0, j0);
                }
            }
            return None;
        },
    };
    let j = match find_char(s, i + 1, '.') {
        Some(j) => j,
        None => {
            proof {
                lemma_found_dots_match(s@, i as int, s@.len() as int);
            }
            return None;
        },
    };
    let first = parse_u64_run(s, 0, i);
    let second = parse_u64_run(s, i + 1, j);
    let third = parse_u64_run(s, j + 1, n);
    proof {
        lemma_found_dots_match(s@, i as int, j as int);
    }
    match (first, second, third) {
        (Some(a), Some(b), Some(c)) => {
            proof {
                assert(splits_ok(s@, i as int, j as int));
                let (i0, j0) = choose|i0: int, j0: int| splits_ok(s@, i0, j0);
                lemma_splits_unique(s@, i as int, j as int, i0, j0);
            }
            Some((a, b, c))
        },
        _ => {
            proof {
                if triple_grammar(s@) {
                    let (i0, j0) = choose|i0: int, j0: int| splits_ok(s@, i0, j0);
                    lemma_splits_unique(s@, i as int, j as int, i0, j0);
                }
            }
            None
        },
    }
}

/// If the first dot of `s` stands at `i` and the first dot after it at `j`
/// (or none stands there, with `j` the length), then any split of `s` as a
/// triple uses exactly those positions.
proof fn lemma_found_dots_match(s: Seq<char>, i: int, j: int)
    requires
        0 <= i < s.len(),
        s[i] == '.',
        forall|t: int| 0 <= t < i ==> s[t] != '.',
        i < j <= s.len(),
        forall|t: int| i + 1 <= t < j ==> s[t] != '.',
        j < s.len() ==> s[j] == '.',
    ensures
        forall|i0: int, j0: int| #[trigger] splits_ok(s, i0, j0) ==> i0 == i && j0 == j,
{
    assert(('.' as int) == 46);
    assert forall|i0: int, j0: int| #[trigger] splits_ok(s, i0, j0) implies i0 == i && j0 == j by {
        if i0 < i {
            assert(s[i0] == '.');
            assert(false);
        } else if i < i0 {
            assert(s.subrange(0, i0)[i] == s[i]);
            assert(is_dec_digit(s.subrange(0, i0)[i]));
            assert(false);
        }
        assert(i0 == i);
        if j0 < j {
            assert(i + 1 <= j0 < j);
            assert(s[j0] == '.');
            assert(false);
        } else if j < j0 {
            assert(j0 < s.len());
            assert(s[j] == '.');
            assert(s.subrange(i0 + 1, j0)[j - i0 - 1] == s[j]);
            assert(is_dec_digit(s.subrange(i0 + 1, j0)[j - i0 - 1]));
            assert(false);
        }
    }
}

// ---------------------------------------------------------------------
// The transaction grammar, `shard.realm.number@seconds.nanos`.
// ---------------------------------------------------------------------

/// The dot of a `seconds.nanos` text stands at `k`; both runs are decimal
/// numbers, and the nanosecond part stays below one billion.
pub open spec fn start_splits_ok(t: Seq<char>, k: int) -> bool {
    &&& 0 <= k < t.len()
    &&& t[k] == '.'
    &&& dec_run(t.subrange(0, k))
    &&& dec_run(t.subrange(k + 1, t.len() as int))
    &&& digits_val(t.subrange(k + 1, t.len() as int)) <= MAX_NANOS
}

/// `t` is a canonical `seconds.nanos` valid-start text.
pub open spec fn start_grammar(t: Seq<char>) -> bool {
    exists|k: int| start_splits_ok(t, k)
}

/// The seconds and nanoseconds a valid-start text denotes.
pub open spec fn start_value(t: Seq<char>) -> (u64, u32)
    recommends
        start_grammar(t),
{
    let k = choose|k: int| start_splits_ok(t, k);
    (digits_val(t.subrange(0, k)) as u64, digits_val(t.subrange(k + 1, t.len() as int)) as u32)
}

/// If the first dot of `t` stands at `k` (or none does, with `k` the
/// length), a valid-start split can only use `k`.
proof fn lemma_found_start_dot(t: Seq<char>, k: int)
    requires
        0 <= k <= t.len(),
        forall|u: int| 0 <= u < k ==> t[u] != '.',
        k < t.len() ==> t[k] == '.',
    ensures
        forall|k0: int| #[trigger] start_splits_ok(t, k0) ==> k0 == k,
{
    assert(('.' as int) == 46);
    assert forall|k0: int| #[trigger] start_splits_ok(t, k0) implies k0 == k by {
        if k0 < k {
            assert(t[k0] == '.');
            assert(false);
        } else if k < k0 {
            assert(t.subrange(0, k0)[k] == t[k]);
            assert(is_dec_digit(t.subrange(0, k0)[k]));
            assert(false);
        }
    }
}

/// Reads a canonical `seconds.nanos` text.  Answers `Some` exactly on
/// texts of the grammar, with the instant they denote.
pub fn parse_start(t: &str) -> (r: Option<(u64, u32)>)
    ensures
        start_grammar(t@) ==> r == Some(start_value(t@)),
        !start_grammar(t@) ==> r == None::<(u64, u32)>,
{
    let n = t.unicode_len();
    let k = match find_char(t, 0, '.') {
        Some(k) => k,
        None => {
            proof {
                lemma_found_start_dot(t@, t@.len() as int);
            }
            return None;
        },
    };
    proof {
        lemma_found_start_dot(t@, k as int);
    }
    let secs = parse_u64_run(t, 0, k);
    let nanos = parse_u64_run(t, k + 1, n);
    match (secs, nanos) {
        (Some(sv), Some(nv)) => {
            if nv <= MAX_NANOS {
                proof {
                    assert(start_splits_ok(t@, k as int));
                    let k0 = choose|k0: int| start_splits_ok(t@, k0);
                }
                Some((sv, nv as u32))
            } else {
                None
            }
        },
        _ => None,
    }
}

/// The separator of a transaction text stands at `a`: a triple before it,
/// a valid-start instant after it.
pub open spec fn txid_splits_ok(s: Seq<char>, a: int) -> bool {
    &&& 0 <= a < s.len()
    &&& s[a] == '@'
    &&& triple_grammar(s.subrange(0, a))
    &&& start_grammar(s.subrange(a + 1, s.len() as int))
}

/// `s` is a canonical transaction text.
pub open spec fn txid_grammar(s: Seq<char>) -> bool {
    exists|a: int| txid_splits_ok(s, a)
}

/// The transaction identifier a canonical transaction text denotes.
pub open spec fn txid_value(s: Seq<char>) -> TransactionId
    recommends
        txid_grammar(s),
{
    let a = choose|a: int| txid_splits_ok(s, a);
    let trip = triple_value(s.subrange(0, a));
    let start = start_value(s.subrange(a + 1, s.len() as int));
    TransactionId {
        payer: AccountId { shard: trip.0, realm: trip.1, num: trip.2 },
        valid_start_seconds: start.0,
        valid_start_nanos: start.1,
    }
}

/// If the first `@` of `s` stands at `a` (or none does, with `a` the
/// length), a transaction split can only use `a`.
proof fn lemma_found_at(s: Seq<char>, a: int)
    requires
        0 <= a <= s.len(),
        forall|t: int| 0 <= t < a ==> s[t] != '@',
        a < s.len() ==> s[a] == '@',
    ensures
        forall|a0: int| #[trigger] txid_splits_ok(s, a0) ==> a0 == a,
{
    assert(('@' as int) == 64);
    assert(('.' as int) == 46);
    assert forall|a0: int| #[trigger] txid_splits_ok(s, a0) implies a0 == a by {
        if a0 < a {
            assert(s[a0] == '@');
            assert(false);
        } else if a < a0 {
            lemma_triple_chars(s.subrange(0, a0), a);
            assert(s.subrange(0, a0)[a] == s[a]);
            assert(false);
        }
    }
}

/// Reads a canonical transaction text.  Succeeds exactly on texts of the
/// grammar, with the transaction identifier they denote; any other text is
/// a parse error.
pub fn parse_transaction_text(s: &str) -> (r: Result<TransactionId, Error>)
    ensures
        txid_grammar(s@) ==> r == Ok::<TransactionId, Error>(txid_value(s@)),
        !txid_grammar(s@) ==> r == Err::<TransactionId, Error>(Error::Parse),
{
    let n = s.unicode_len();
    let a = match find_char(s, 0, '@') {
        Some(a) => a,
        None => {
            proof {
                lemma_found_at(s@, s@.len() as int);
            }
            return Err(Error::Parse);
        },
    };
    proof {
        lemma_found_at(s@, a as int);
    }
    let left = s.substring_char(0, a);
    let right = s.substring_char(a + 1, n);
    let trip = parse_triple(left);
    let start = parse_start(right);
    match (trip, start) {
        (Some((sh, rl, nm)), Some((secs, nanos))) => {
            proof {
                assert(txid_splits_ok(s@, a as int));
                let a0 = choose|a0: int| txid_splits_ok(s@, a0);
            }
            Ok(
                TransactionId {
                    payer: AccountId { shard: sh, realm: rl, num: nm },
                    valid_start_seconds: secs,
                    valid_start_nanos: nanos,
                },
            )
        },
        _ => {
            proof {
                if txid_grammar(s@) {
                    let a0 = choose|a0: int| txid_splits_ok(s@, a0);
                }
            }
            Err(Error::Parse)
        },
    }
}

// ---------------------------------------------------------------------
// Typed parsing, one entry per entity kind.
// ---------------------------------------------------------------------

/// The account a canonical triple text denotes.
pub open spec fn account_of_text(s: Seq<char>) -> AccountId {
    let trip = triple_value(s);
    AccountId { shard: trip.0, realm: trip.1, num: trip.2 }
}

/// The contract a canonical triple text denotes.
pub open spec fn contract_of_text(s: Seq<char>) -> ContractId {
    let trip = triple_value(s);
    ContractId { shard: trip.0, realm: trip.1, num: trip.2 }
}

/// The file a canonical triple text denotes.
pub open spec fn file_of_text(s: Seq<char>) -> FileId {
    let trip = triple_value(s);
    FileId { shard: trip.0, realm: trip.1, num: trip.2 }
}

/// Reads a canonical account text; a text outside the grammar is a parse
/// error.
pub fn parse_account_text(s: &str) -> (r: Result<AccountId, Error>)
    ensures
        triple_grammar(s@) ==> r == Ok::<AccountId, Error>(account_of_text(s@)),
        !triple_grammar(s@) ==> r == Err::<AccountId, Error>(Error::Parse),
{
    match parse_triple(s) {
        Some((sh, rl, nm)) => Ok(AccountId { shard: sh, realm: rl, num: nm }),
        None => Err(Error::Parse),
    }
}

/// Reads a canonical contract text; a text outside the grammar is a parse
/// error.
pub fn parse_contract_text(s: &str) -> (r: Result<ContractId, Error>)
    ensures
        triple_grammar(s@) ==> r == Ok::<ContractId, Error>(contract_of_text(s@)),
        !triple_grammar(s@) ==> r == Err::<ContractId, Error>(Error::Parse),
{
    match parse_triple(s) {
        Some((sh, rl, nm)) => Ok(ContractId { shard: sh, realm: rl, num: nm }),
        None => Err(Error::Parse),
    }
}

/// Reads a canonical file text; a text outside the grammar is a parse
/// error.
pub fn parse_file_text(s: &str) -> (r: Result<FileId, Error>)
    ensures
        triple_grammar(s@) ==> r == Ok::<FileId, Error>(file_of_text(s@)),
        !triple_grammar(s@) ==> r == Err::<FileId, Error>(Error::Parse),
{
    match parse_triple(s) {
        Some((sh, rl, nm)) => Ok(FileId { shard: sh, realm: rl, num: nm }),
        None => Err(Error::Parse),
    }
}

// ---------------------------------------------------------------------
// Normalization: text or typed value to the one typed representation.
// ---------------------------------------------------------------------

/// What normalizing an identifier value to an account gives.
pub open spec fn spec_normalize_account(v: IdValue) -> Result<AccountId, Error> {
    match v {
        IdValue::Text(s) => if triple_grammar(s@) {
            Ok(account_of_text(s@))
        } else {
            Err(Error::Parse)
        },
        IdValue::Typed(EntityId::Account(id)) => Ok(id),
        IdValue::Typed(_) => Err(Error::TypeMismatch),
    }
}

/// What normalizing an identifier value to a contract gives.
pub open spec fn spec_normalize_contract(v: IdValue) -> Result<ContractId, Error> {
    match v {
        IdValue::Text(s) => if triple_grammar(s@) {
            Ok(contract_of_text(s@))
        } else {
            Err(Error::Parse)
        },
        IdValue::Typed(EntityId::Contract(id)) => Ok(id),
        IdValue::Typed(_) => Err(Error::TypeMismatch),
    }
}

/// What normalizing an identifier value to a file gives.
pub open spec fn spec_normalize_file(v: IdValue) -> Result<FileId, Error> {
    match v {
        IdValue::Text(s) => if triple_grammar(s@) {
            Ok(file_of_text(s@))
        } else {
            Err(Error::Parse)
        },
        IdValue::Typed(EntityId::File(id)) => Ok(id),
        IdValue::Typed(_) => Err(Error::TypeMismatch),
    }
}

/// What normalizing an identifier value to a transaction gives.
pub open spec fn spec_normalize_transaction(v: IdValue) -> Result<TransactionId, Error> {
    match v {
        IdValue::Text(s) => if txid_grammar(s@) {
            Ok(txid_value(s@))
        } else {
            Err(Error::Parse)
        },
        IdValue::Typed(EntityId::Transaction(id)) => Ok(id),
        IdValue::Typed(_) => Err(Error::TypeMismatch),
    }
}

/// Normalizes an identifier value to an account: canonical text is parsed,
/// a typed account passes through, any other typed kind is a mismatch.
pub fn normalize_account(v: &IdValue) -> (r: Result<AccountId, Error>)
    ensures
        r == spec_normalize_account(*v),
{
    match v {
        IdValue::Text(s) => parse_account_text(s.as_str()),
        IdValue::Typed(EntityId::Account(id)) => Ok(*id),
        IdValue::Typed(_) => Err(Error::TypeMismatch),
    }
}

/// Normalizes an identifier value to a contract.
pub fn normalize_contract(v: &IdValue) -> (r: Result<ContractId, Error>)
    ensures
        r == spec_normalize_contract(*v),
{
    match v {
        IdValue::Text(s) => parse_contract_text(s.as_str()),
        IdValue::Typed(EntityId::Contract(id)) => Ok(*id),
        IdValue::Typed(_) => Err(Error::TypeMismatch),
    }
}

/// Normalizes an identifier value to a file.
pub fn normalize_file(v: &IdValue) -> (r: Result<FileId, Error>)
    ensures
        r == spec_normalize_file(*v),
{
    match v {
        IdValue::Text(s) => parse_file_text(s.as_str()),
        IdValue::Typed(EntityId::File(id)) => Ok(*id),
        IdValue::Typed(_) => Err(Error::TypeMismatch),
    }
}

/// Normalizes an identifier value to a transaction.
pub fn normalize_transaction(v: &IdValue) -> (r: Result<TransactionId, Error>)
    ensures
        r == spec_normalize_transaction(*v),
{
    match v {
        IdValue::Text(s) => parse_transaction_text(s.as_str()),
        IdValue::Typed(EntityId::Transaction(id)) => Ok(*id),
        IdValue::Typed(_) => Err(Error::TypeMismatch),
    }
}

// ---------------------------------------------------------------------
// Canonical text of a typed identifier.
// ---------------------------------------------------------------------

/// The canonical text of a `shard.realm.number` triple.
pub open spec fn triple_text(sh: u64, rl: u64, nm: u64) -> Seq<char> {
    dec_digits(sh as nat) + seq!['.'] + dec_digits(rl as nat) + seq!['.'] + dec_digits(nm as nat)
}

/// Writes a triple in canonical text.
fn triple_to_text(sh: u64, rl: u64, nm: u64) -> (r: String)
    ensures
        r@ == triple_text(sh, rl, nm),
{
    let mut out = String::new();
    format_u64_into(sh, &mut out);
    push_char(&mut out, '.');
    format_u64_into(rl, &mut out);
    push_char(&mut out, '.');
    format_u64_into(nm, &mut out);
    proof {
        assert(out@ =~= triple_text(sh, rl, nm));
    }
    out
}

impl AccountId {
    /// The canonical text of this account.
    pub fn canonical_text(&self) -> (r: String)
        ensures
            r@ == triple_text(self.shard, self.realm, self.num),
    {
        triple_to_text(self.shard, self.realm, self.num)
    }
}

impl ContractId {
    /// The canonical text of this contract.
    pub fn canonical_text(&self) -> (r: String)
        ensures
            r@ == triple_text(self.shard, self.realm, self.num),
    {
        triple_to_text(self.shard, self.realm, self.num)
    }
}

impl FileId {
    /// The canonical text of this file.
    pub fn canonical_text(&self) -> (r: String)
        ensures
            r@ == triple_text(self.shard, self.realm, self.num),
    {
        triple_to_text(self.shard, self.realm, self.num)
    }
}

/// The canonical text of a transaction identifier.
pub open spec fn txid_text(t: TransactionId) -> Seq<char> {
    triple_text(t.payer.shard, t.payer.realm, t.payer.num) + seq!['@'] + dec_digits(
        t.valid_start_seconds as nat,
    ) + seq!['.'] + dec_digits(t.valid_start_nanos as nat)
}

impl TransactionId {
    /// A transaction identifier is well formed when its nanosecond part
    /// stays below one billion.
    pub open spec fn wf(&self) -> bool {
        self.valid_start_nanos <= MAX_NANOS
    }

    /// The canonical text of this transaction.
    pub fn canonical_text(&self) -> (r: String)
        ensures
            r@ == txid_text(*self),
    {
        let mut out = triple_to_text(self.payer.shard, self.payer.realm, self.payer.num);
        push_char(&mut out, '@');
        format_u64_into(self.valid_start_seconds, &mut out);
        push_char(&mut out, '.');
        format_u64_into(self.valid_start_nanos as u64, &mut out);
        proof {
            assert(out@ =~= txid_text(*self));
        }
        out
    }
}

// ---------------------------------------------------------------------
// Laws.
// ---------------------------------------------------------------------

/// The string and the typed entry paths agree: a canonical account text
/// and the typed account it denotes normalize to the same identifier.
pub proof fn lemma_entry_paths_agree_account(s: String, id: AccountId)
    requires
        triple_grammar(s@),
        account_of_text(s@) == id,
    ensures
        spec_normalize_account(IdValue::Text(s)) == spec_normalize_account(
            IdValue::Typed(EntityId::Account(id)),
        ),
{
}

/// The string and the typed entry paths agree for contracts.
pub proof fn lemma_entry_paths_agree_contract(s: String, id: ContractId)
    requires
        triple_grammar(s@),
        contract_of_text(s@) == id,
    ensures
        spec_normalize_contract(IdValue::Text(s)) == spec_normalize_contract(
            IdValue::Typed(EntityId::Contract(id)),
        ),
{
}

/// The string and the typed entry paths agree for files.
pub proof fn lemma_entry_paths_agree_file(s: String, id: FileId)
    requires
        triple_grammar(s@),
        file_of_text(s@) == id,
    ensures
        spec_normalize_file(IdValue::Text(s)) == spec_normalize_file(
            IdValue::Typed(EntityId::File(id)),
        ),
{
}

/// The string and the typed entry paths agree for transactions.
pub proof fn lemma_entry_paths_agree_transaction(s: String, id: TransactionId)
    requires
        txid_grammar(s@),
        txid_value(s@) == id,
    ensures
        spec_normalize_transaction(IdValue::Text(s)) == spec_normalize_transaction(
            IdValue::Typed(EntityId::Transaction(id)),
        ),
{
}

/// Writing a triple in canonical text and reading it back gives the same
/// three numbers: the canonical text lies inside the grammar and denotes
/// what it was written from.
pub proof fn lemma_triple_text_round_trip(sh: u64, rl: u64, nm: u64)
    ensures
        triple_grammar(triple_text(sh, rl, nm)),
        triple_value(triple_text(sh, rl, nm)) == (sh, rl, nm),
{
    lemma_dec_digits_val(sh as nat);
    lemma_dec_digits_val(rl as nat);
    lemma_dec_digits_val(nm as nat);
    let d1 = dec_digits(sh as nat);
    let d2 = dec_digits(rl as nat);
    let d3 = dec_digits(nm as nat);
    let s = triple_text(sh, rl, nm);
    let i = d1.len() as int;
    let j = i + 1 + d2.len() as int;
    assert(s.subrange(0, i) =~= d1);
    assert(s[i] == '.');
    assert(s.subrange(i + 1, j) =~= d2);
    assert(s[j] == '.');
    assert(s.subrange(j + 1, s.len() as int) =~= d3);
    assert(splits_ok(s, i, j));
    let (i0, j0) = choose|i0: int, j0: int| splits_ok(s, i0, j0);
    lemma_splits_unique(s, i, j, i0, j0);
}

/// Writing a well-formed transaction identifier in canonical text and
/// reading it back gives the identifier: its canonical text lies inside
/// the grammar and denotes what it was written from.
pub proof fn lemma_txid_text_round_trip(t: TransactionId)
    requires
        t.wf(),
    ensures
        txid_grammar(txid_text(t)),
        txid_value(txid_text(t)) == t,
{
    assert(('@' as int) == 64);
    assert(('.' as int) == 46);
    let trip = triple_text(t.payer.shard, t.payer.realm, t.payer.num);
    let secs = dec_digits(t.valid_start_seconds as nat);
    let nans = dec_digits(t.valid_start_nanos as nat);
    lemma_dec_digits_val(t.valid_start_seconds as nat);
    lemma_dec_digits_val(t.valid_start_nanos as nat);
    lemma_triple_text_round_trip(t.payer.shard, t.payer.realm, t.payer.num);
    let s = txid_text(t);
    let a = trip.len() as int;
    assert(s.subrange(0, a) =~= trip);
    assert(s[a] == '@');
    let rest = s.subrange(a + 1, s.len() as int);
    let k = secs.len() as int;
    assert(rest.subrange(0, k) =~= secs);
    assert(rest[k] == '.');
    assert(rest.subrange(k + 1, rest.len() as int) =~= nans);
    assert(start_splits_ok(rest, k));
    assert(txid_splits_ok(s, a));
    assert forall|u: int| 0 <= u < a implies s[u] != '@' by {
        lemma_triple_chars(trip, u);
        assert(s[u] == trip[u]);
    }
    lemma_found_at(s, a);
    let a0 = choose|a0: int| txid_splits_ok(s, a0);
    assert(a0 == a);
    assert forall|u: int| 0 <= u < k implies rest[u] != '.' by {
        assert(rest[u] == secs[u]);
        assert(is_dec_digit(secs[u]));
    }
    lemma_found_start_dot(rest, k);
    let k0 = choose|k0: int| start_splits_ok(rest, k0);
    assert(k0 == k);
}

} // verus!
