//! Building the wire form of a subscription request. Filter groups are lists
//! of `(label, filter)` pairs; every optional setting that the caller leaves
//! out stays unset on the wire, never turned into a default value.
use vstd::prelude::*;

verus! {

/// Finality level requested for the data a subscription returns.
#[derive(Clone, Copy, Debug, PartialEq, Eq, Structural)]
pub enum CommitmentLevel {
    Processed,
    Confirmed,
    Finalized,
}

/// The number that stands for a commitment level on the wire.
pub open spec fn commitment_code(c: CommitmentLevel) -> i32 {
    match c {
        CommitmentLevel::Processed => 0,
        CommitmentLevel::Confirmed => 1,
        CommitmentLevel::Finalized => 2,
    }
}

impl CommitmentLevel {
    /// Wire code of this commitment level.
    pub fn code(self) -> (r: i32)
        ensures
            r == commitment_code(self),
    {
        match self {
            CommitmentLevel::Processed => 0,
            CommitmentLevel::Confirmed => 1,
            CommitmentLevel::Finalized => 2,
        }
    }
}

/// Wire code of an optional commitment level; absent stays absent.
pub open spec fn commitment_code_opt(c: Option<CommitmentLevel>) -> Option<i32> {
    match c {
        Some(level) => Some(commitment_code(level)),
        None => None,
    }
}

fn commitment_to_wire(c: Option<CommitmentLevel>) -> (r: Option<i32>)
    ensures
        r == commitment_code_opt(c),
{
    match c {
        Some(level) => Some(level.code()),
        None => None,
    }
}

/// A memcmp predicate as the caller gives it: an offset and the expected
/// data in one of three encodings. Where several are given, raw bytes win
/// over base58, and base58 over base64.
#[derive(Clone, Debug, PartialEq, Eq)]
pub struct SubscribeRequestFilterAccountsFilterMemcmp {
    pub offset: u64,
    pub bytes: Option<Vec<u8>>,
    pub base58: Option<String>,
    pub base64: Option<String>,
}

/// A lamport comparison as the caller gives it. Where several are given,
/// the first of `eq`, `ne`, `lt`, `gt` wins.
#[derive(Clone, Copy, Debug, PartialEq, Eq, Structural)]
pub struct SubscribeRequestFilterAccountsFilterLamports {
    pub eq: Option<u64>,
    pub ne: Option<u64>,
    pub lt: Option<u64>,
    pub gt: Option<u64>,
}

/// One account predicate as the caller gives it. Where several are given,
/// the first of `memcmp`, `datasize`, `token_account_state`, `lamports` wins.
#[derive(Clone, Debug, PartialEq, Eq)]
pub struct SubscribeRequestFilterAccountsFilter {
    pub memcmp: Option<SubscribeRequestFilterAccountsFilterMemcmp>,
    pub datasize: Option<u64>,
    pub token_account_state: Option<bool>,
    pub lamports: Option<SubscribeRequestFilterAccountsFilterLamports>,
}

#[derive(Clone, Debug, PartialEq, Eq)]
pub struct SubscribeRequestFilterAccounts {
    pub account: Vec<String>,
    pub owner: Vec<String>,
    pub filters: Vec<SubscribeRequestFilterAccountsFilter>,
    pub nonempty_txn_signature: Option<bool>,
}

#[derive(Clone, Copy, Debug, PartialEq, Eq, Structural)]
pub struct SubscribeRequestFilterSlots {
    pub filter_by_commitment: Option<bool>,
    pub interslot_updates: Option<bool>,
}

#[derive(Clone, Debug, PartialEq, Eq)]
pub struct SubscribeRequestFilterTransactions {
    pub vote: Option<bool>,
    pub failed: Option<bool>,
    pub signature: Option<String>,
    pub account_include: Vec<String>,
    pub account_exclude: Vec<String>,
    pub account_required: Vec<String>,
}

#[derive(Clone, Debug, PartialEq, Eq)]
pub struct SubscribeRequestFilterBlocks {
    pub account_include: Vec<String>,
    pub include_transactions: Option<bool>,
    pub include_accounts: Option<bool>,
    pub include_entries: Option<bool>,
}

#[derive(Clone, Copy, Debug, PartialEq, Eq, Structural)]
pub struct SubscribeRequestFilterBlocksMeta {}

#[derive(Clone, Copy, Debug, PartialEq, Eq, Structural)]
pub struct SubscribeRequestFilterEntry {}

#[derive(Clone, Copy, Debug, PartialEq, Eq, Structural)]
pub struct SubscribeRequestAccountsDataSlice {
    pub offset: u64,
    pub length: u64,
}

#[derive(Clone, Copy, Debug, PartialEq, Eq, Structural)]
pub struct SubscribeRequestPing {
    pub id: i32,
}

/// A subscription request as the caller writes it: each filter group is
/// optional, and within a group each filter has a label of the caller's
/// choosing. A request with every part left out is valid: it subscribes to
/// nothing and receives only control messages.
#[derive(Clone, Debug, PartialEq, Eq)]
pub struct SubscribeRequest {
    pub accounts: Option<Vec<(String, SubscribeRequestFilterAccounts)>>,
    pub slots: Option<Vec<(String, SubscribeRequestFilterSlots)>>,
    pub transactions: Option<Vec<(String, SubscribeRequestFilterTransactions)>>,
    pub transactions_status: Option<Vec<(String, SubscribeRequestFilterTransactions)>>,
    pub blocks: Option<Vec<(String, SubscribeRequestFilterBlocks)>>,
    pub blocks_meta: Option<Vec<(String, SubscribeRequestFilterBlocksMeta)>>,
    pub entry: Option<Vec<(String, SubscribeRequestFilterEntry)>>,
    pub commitment: Option<CommitmentLevel>,
    pub accounts_data_slice: Option<Vec<SubscribeRequestAccountsDataSlice>>,
    pub ping: Option<SubscribeRequestPing>,
    pub from_slot: Option<u64>,
}

/// The expected data of a memcmp predicate on the wire.
#[derive(Clone, Debug, PartialEq, Eq)]
pub enum MemcmpData {
    Bytes(Vec<u8>),
    Base58(String),
    Base64(String),
}

#[derive(Clone, Debug, PartialEq, Eq)]
pub struct WireMemcmp {
    pub offset: u64,
    pub data: Option<MemcmpData>,
}

#[derive(Clone, Copy, Debug, PartialEq, Eq, Structural)]
pub enum LamportsCmp {
    Eq(u64),
    Ne(u64),
    Lt(u64),
    Gt(u64),
}

/// A single account predicate on the wire: at most one kind is set.
#[derive(Clone, Debug, PartialEq, Eq)]
pub enum AccountsFilterKind {
    Memcmp(WireMemcmp),
    Datasize(u64),
    TokenAccountState(bool),
    Lamports(Option<LamportsCmp>),
}

#[derive(Clone, Debug, PartialEq, Eq)]
pub struct WireAccountsFilter {
    pub filter: Option<AccountsFilterKind>,
}

#[derive(Clone, Debug, PartialEq, Eq)]
pub struct WireFilterAccounts {
    pub account: Vec<String>,
    pub owner: Vec<String>,
    pub filters: Vec<WireAccountsFilter>,
    pub nonempty_txn_signature: Option<bool>,
}

/// The wire form of a subscription request: every group present (empty
/// where the caller gave none), the commitment as its code.
#[derive(Clone, Debug, PartialEq, Eq)]
pub struct WireSubscribeRequest {
    pub accounts: Vec<(String, WireFilterAccounts)>,
    pub slots: Vec<(String, SubscribeRequestFilterSlots)>,
    pub transactions: Vec<(String, SubscribeRequestFilterTransactions)>,
    pub transactions_status: Vec<(String, SubscribeRequestFilterTransactions)>,
    pub blocks: Vec<(String, SubscribeRequestFilterBlocks)>,
    pub blocks_meta: Vec<(String, SubscribeRequestFilterBlocksMeta)>,
    pub entry: Vec<(String, SubscribeRequestFilterEntry)>,
    pub commitment: Option<i32>,
    pub accounts_data_slice: Vec<SubscribeRequestAccountsDataSlice>,
    pub ping: Option<SubscribeRequestPing>,
    pub from_slot: Option<u64>,
}

/// The expected data that a memcmp predicate sends.
pub open spec fn memcmp_data(m: SubscribeRequestFilterAccountsFilterMemcmp) -> Option<MemcmpData> {
    match m.bytes {
        Some(b) => Some(MemcmpData::Bytes(b)),
        None => match m.base58 {
            Some(s) => Some(MemcmpData::Base58(s)),
            None => match m.base64 {
                Some(s) => Some(MemcmpData::Base64(s)),
                None => None,
            },
        },
    }
}

pub open spec fn wire_memcmp(m: SubscribeRequestFilterAccountsFilterMemcmp) -> WireMemcmp {
    WireMemcmp { offset: m.offset, data: memcmp_data(m) }
}

pub open spec fn lamports_cmp(l: SubscribeRequestFilterAccountsFilterLamports) -> Option<LamportsCmp> {
    match l.eq {
        Some(v) => Some(LamportsCmp::Eq(v)),
        None => match l.ne {
            Some(v) => Some(LamportsCmp::Ne(v)),
            None => match l.lt {
                Some(v) => Some(LamportsCmp::Lt(v)),
                None => match l.gt {
                    Some(v) => Some(LamportsCmp::Gt(v)),
                    None => None,
                },
            },
        },
    }
}

pub open spec fn wire_accounts_filter(f: SubscribeRequestFilterAccountsFilter) -> WireAccountsFilter {
    WireAccountsFilter {
        filter: match f.memcmp {
            Some(m) => Some(AccountsFilterKind::Memcmp(wire_memcmp(m))),
            None => match f.datasize {
                Some(d) => Some(AccountsFilterKind::Datasize(d)),
                None => match f.token_account_state {
                    Some(t) => Some(AccountsFilterKind::TokenAccountState(t)),
                    None => match f.lamports {
                        Some(l) => Some(AccountsFilterKind::Lamports(lamports_cmp(l))),
                        None => None,
                    },
                },
            },
        },
    }
}

/// `w` is the wire form of the account filter `a`.
pub open spec fn is_wire_filter_accounts(w: WireFilterAccounts, a: SubscribeRequestFilterAccounts) -> bool {
    &&& w.account@ == a.account@
    &&& w.owner@ == a.owner@
    &&& w.filters@ == a.filters@.map_values(|f| wire_accounts_filter(f))
    &&& w.nonempty_txn_signature == a.nonempty_txn_signature
}

/// `w` holds the labels of `g` in the same order, each with the wire form of its filter.
pub open spec fn is_wire_accounts_group(
    w: Seq<(String, WireFilterAccounts)>,
    g: Seq<(String, SubscribeRequestFilterAccounts)>,
) -> bool {
    &&& w.len() == g.len()
    &&& forall|i: int| 0 <= i < w.len() ==> {
        &&& #[trigger] w[i].0 == g[i].0
        &&& is_wire_filter_accounts(w[i].1, g[i].1)
    }
}

/// The filters of an optional group; an absent group has none.
pub open spec fn group<T>(g: Option<Vec<T>>) -> Seq<T> {
    match g {
        Some(v) => v@,
        None => Seq::empty(),
    }
}

/// `w` is the wire form of the request `r`.
pub open spec fn is_wire_request(w: WireSubscribeRequest, r: SubscribeRequest) -> bool {
    &&& is_wire_accounts_group(w.accounts@, group(r.accounts))
    &&& w.slots@ == group(r.slots)
    &&& w.transactions@ == group(r.transactions)
    &&& w.transactions_status@ == group(r.transactions_status)
    &&& w.blocks@ == group(r.blocks)
    &&& w.blocks_meta@ == group(r.blocks_meta)
    &&& w.entry@ == group(r.entry)
    &&& w.commitment == commitment_code_opt(r.commitment)
    &&& w.accounts_data_slice@ == group(r.accounts_data_slice)
    &&& w.ping == r.ping
    &&& w.from_slot == r.from_slot
}

/// The vector inside an optional group, or an empty one.
pub fn group_or_empty<T>(g: Option<Vec<T>>) -> (r: Vec<T>)
    ensures
        r@ == group(g),
{
    match g {
        Some(v) => v,
        None => Vec::new(),
    }
}

impl SubscribeRequestFilterAccountsFilterMemcmp {
    pub fn to_wire(self) -> (r: WireMemcmp)
        ensures
            r == wire_memcmp(self),
    {
        let offset = self.offset;
        let data = match self.bytes {
            Some(b) => Some(MemcmpData::Bytes(b)),
            None => match self.base58 {
                Some(s) => Some(MemcmpData::Base58(s)),
                None => match self.base64 {
                    Some(s) => Some(MemcmpData::Base64(s)),
                    None => None,
                },
            },
        };
        WireMemcmp { offset, data }
    }
}

impl SubscribeRequestFilterAccountsFilterLamports {
    pub fn to_wire(self) -> (r: Option<LamportsCmp>)
        ensures
            r == lamports_cmp(self),
    {
        match self.eq {
            Some(v) => Some(LamportsCmp::Eq(v)),
            None => match self.ne {
                Some(v) => Some(LamportsCmp::Ne(v)),
                None => match self.lt {
                    Some(v) => Some(LamportsCmp::Lt(v)),
                    None => match self.gt {
                        Some(v) => Some(LamportsCmp::Gt(v)),
                        None => None,
                    },
                },
            },
        }
    }
}

impl SubscribeRequestFilterAccountsFilter {
    pub fn to_wire(self) -> (r: WireAccountsFilter)
        ensures
            r == wire_accounts_filter(self),
    {
        let filter = match self.memcmp {
            Some(m) => Some(AccountsFilterKind::Memcmp(m.to_wire())),
            None => match self.datasize {
                Some(d) => Some(AccountsFilterKind::Datasize(d)),
                None => match self.token_account_state {
                    Some(t) => Some(AccountsFilterKind::TokenAccountState(t)),
                    None => match self.lamports {
                        Some(l) => Some(AccountsFilterKind::Lamports(l.to_wire())),
                        None => None,
                    },
                },
            },
        };
        WireAccountsFilter { filter }
    }
}

impl SubscribeRequestFilterAccounts {
    pub fn to_wire(self) -> (r: WireFilterAccounts)
        ensures
            is_wire_filter_accounts(r, self),
    {
        let ghost given = self.filters@;
        let mut rest = self.filters;
        let mut filters: Vec<WireAccountsFilter> = Vec::new();
        while rest.len() > 0
            invariant
                filters@.len() + rest@.len() == given.len(),
                rest@ == given.subrange(filters@.len() as int, given.len() as int),
                filters@ == given.subrange(0, filters@.len() as int).map_values(
                    |f| wire_accounts_filter(f),
                ),
            decreases rest@.len(),
        {
            let ghost done = filters@.len() as int;
            let f = rest.remove(0);
            filters.push(f.to_wire());
            assert(given.subrange(0, done + 1) =~= given.subrange(0, done).push(given[done]));
            assert(filters@ =~= given.subrange(0, done + 1).map_values(|f| wire_accounts_filter(f)));
        }
        assert(given.subrange(0, given.len() as int) =~= given);
        WireFilterAccounts {
            account: self.account,
            owner: self.owner,
            filters,
            nonempty_txn_signature: self.nonempty_txn_signature,
        }
    }
}

/// Wire form of a group of account filters, labels and order kept.
pub fn accounts_group_to_wire(g: Vec<(String, SubscribeRequestFilterAccounts)>) -> (r: Vec<
    (String, WireFilterAccounts),
>)
    ensures
        is_wire_accounts_group(r@, g@),
{
    let ghost given = g@;
    let mut rest = g;
    let mut out: Vec<(String, WireFilterAccounts)> = Vec::new();
    while rest.len() > 0
        invariant
            out@.len() + rest@.len() == given.len(),
            rest@ == given.subrange(out@.len() as int, given.len() as int),
            is_wire_accounts_group(out@, given.subrange(0, out@.len() as int)),
        decreases rest@.len(),
    {
        let (label, filter) = rest.remove(0);
        let w = filter.to_wire();
        out.push((label, w));
    }
    assert(given.subrange(0, given.len() as int) =~= given);
    out
}

impl SubscribeRequest {
    /// A request with every group and setting left out.
    pub fn empty() -> (r: SubscribeRequest)
        ensures
            r.is_empty(),
    {
        SubscribeRequest {
            accounts: None,
            slots: None,
            transactions: None,
            transactions_status: None,
            blocks: None,
            blocks_meta: None,
            entry: None,
            commitment: None,
            accounts_data_slice: None,
            ping: None,
            from_slot: None,
        }
    }

    pub open spec fn is_empty(self) -> bool {
        &&& self.accounts is None
        &&& self.slots is None
        &&& self.transactions is None
        &&& self.transactions_status is None
        &&& self.blocks is None
        &&& self.blocks_meta is None
        &&& self.entry is None
        &&& self.commitment is None
        &&& self.accounts_data_slice is None
        &&& self.ping is None
        &&& self.from_slot is None
    }

    /// The wire form of this request.
    pub fn to_wire(self) -> (r: WireSubscribeRequest)
        ensures
            is_wire_request(r, self),
    {
        WireSubscribeRequest {
            accounts: accounts_group_to_wire(group_or_empty(self.accounts)),
            slots: group_or_empty(self.slots),
            transactions: group_or_empty(self.transactions),
            transactions_status: group_or_empty(self.transactions_status),
            blocks: group_or_empty(self.blocks),
            blocks_meta: group_or_empty(self.blocks_meta),
            entry: group_or_empty(self.entry),
            commitment: commitment_to_wire(self.commitment),
            accounts_data_slice: group_or_empty(self.accounts_data_slice),
            ping: self.ping,
            from_slot: self.from_slot,
        }
    }
}

/// Absent and `false` stay apart: two requests whose account filter at the
/// same place differs in that one leaves the signature flag out and the other
/// sets it to `false` have different wire forms, the first with the flag
/// absent and the second with it present and `false`.
pub proof fn lemma_absent_and_false_stay_apart(
    r1: SubscribeRequest,
    r2: SubscribeRequest,
    w1: WireSubscribeRequest,
    w2: WireSubscribeRequest,
    i: int,
)
    requires
        is_wire_request(w1, r1),
        is_wire_request(w2, r2),
        0 <= i < group(r1.accounts).len(),
        0 <= i < group(r2.accounts).len(),
        group(r1.accounts)[i].1.nonempty_txn_signature is None,
        group(r2.accounts)[i].1.nonempty_txn_signature == Some(false),
    ensures
        w1.accounts@[i].1.nonempty_txn_signature is None,
        w2.accounts@[i].1.nonempty_txn_signature == Some(false),
        w1 != w2,
{
    assert(w1.accounts@[i].0 == group(r1.accounts)[i].0);
    assert(w2.accounts@[i].0 == group(r2.accounts)[i].0);
    if w1 == w2 {
        assert(w1.accounts@[i] == w2.accounts@[i]);
    }
}

/// An all-empty request asks for nothing on the wire: every group is empty
/// and no setting is present.
pub proof fn lemma_empty_request_wire(r: SubscribeRequest, w: WireSubscribeRequest)
    requires
        r.is_empty(),
        is_wire_request(w, r),
    ensures
        w.accounts@.len() == 0,
        w.slots@.len() == 0,
        w.transactions@.len() == 0,
        w.transactions_status@.len() == 0,
        w.blocks@.len() == 0,
        w.blocks_meta@.len() == 0,
        w.entry@.len() == 0,
        w.accounts_data_slice@.len() == 0,
        w.commitment is None,
        w.ping is None,
        w.from_slot is None,
{
}

} // verus!
