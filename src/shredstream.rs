//! The entries subscription: its request as the caller writes it, the wire
//! form of that request, and the batches it streams back.
use vstd::prelude::*;

use crate::request::{commitment_code, group, group_or_empty, CommitmentLevel, WireFilterAccounts};

verus! {

#[derive(Clone, Debug, PartialEq, Eq)]
pub struct ShredstreamFilterAccounts {
    pub account: Vec<String>,
    pub owner: Vec<String>,
    /// Predicates in text form; the entries service takes none, so they are
    /// not sent.
    pub filters: Vec<String>,
    pub nonempty_txn_signature: Option<bool>,
}

#[derive(Clone, Debug, PartialEq, Eq)]
pub struct ShredstreamFilterTransactions {
    pub account_include: Vec<String>,
    pub account_exclude: Vec<String>,
    pub account_required: Vec<String>,
}

#[derive(Clone, Copy, Debug, PartialEq, Eq, Structural)]
pub struct ShredstreamFilterSlots {
    pub filter_by_commitment: Option<bool>,
    pub interslot_updates: Option<bool>,
}

#[derive(Clone, Copy, Debug, PartialEq, Eq, Structural)]
pub enum ShredstreamCommitmentLevel {
    Finalized,
    Confirmed,
    Processed,
}

/// The general commitment level that a level of the entries service stands for.
pub open spec fn shredstream_level(c: ShredstreamCommitmentLevel) -> CommitmentLevel {
    match c {
        ShredstreamCommitmentLevel::Processed => CommitmentLevel::Processed,
        ShredstreamCommitmentLevel::Confirmed => CommitmentLevel::Confirmed,
        ShredstreamCommitmentLevel::Finalized => CommitmentLevel::Finalized,
    }
}

impl ShredstreamCommitmentLevel {
    pub fn level(self) -> (r: CommitmentLevel)
        ensures
            r == shredstream_level(self),
    {
        match self {
            ShredstreamCommitmentLevel::Processed => CommitmentLevel::Processed,
            ShredstreamCommitmentLevel::Confirmed => CommitmentLevel::Confirmed,
            ShredstreamCommitmentLevel::Finalized => CommitmentLevel::Finalized,
        }
    }
}

/// An entries subscription as the caller writes it.
#[derive(Clone, Debug, PartialEq, Eq)]
pub struct ShredstreamEntriesRequest {
    pub accounts: Option<Vec<(String, ShredstreamFilterAccounts)>>,
    pub transactions: Option<Vec<(String, ShredstreamFilterTransactions)>>,
    pub slots: Option<Vec<(String, ShredstreamFilterSlots)>>,
    pub commitment: Option<ShredstreamCommitmentLevel>,
}

/// The wire form of an entries subscription.
#[derive(Clone, Debug, PartialEq, Eq)]
pub struct SubscribeEntriesRequest {
    pub accounts: Vec<(String, WireFilterAccounts)>,
    pub transactions: Vec<(String, ShredstreamFilterTransactions)>,
    pub slots: Vec<(String, ShredstreamFilterSlots)>,
    pub commitment: Option<i32>,
}

/// One slot's ledger entries in their serialized form.
#[derive(Clone, Debug, PartialEq, Eq)]
pub struct ShredstreamEntry {
    pub slot: u64,
    pub entries: Vec<u8>,
}

/// `w` is the wire form of the account filter `a`: the same addresses, no
/// predicates, and the signature flag exactly as given.
pub open spec fn is_wire_shredstream_accounts(w: WireFilterAccounts, a: ShredstreamFilterAccounts) -> bool {
    &&& w.account@ == a.account@
    &&& w.owner@ == a.owner@
    &&& w.filters@.len() == 0
    &&& w.nonempty_txn_signature == a.nonempty_txn_signature
}

pub open spec fn is_wire_shredstream_group(
    w: Seq<(String, WireFilterAccounts)>,
    g: Seq<(String, ShredstreamFilterAccounts)>,
) -> bool {
    &&& w.len() == g.len()
    &&& forall|i: int| 0 <= i < w.len() ==> {
        &&& #[trigger] w[i].0 == g[i].0
        &&& is_wire_shredstream_accounts(w[i].1, g[i].1)
    }
}

/// `w` is the wire form of the entries request `r`.
pub open spec fn is_wire_entries_request(w: SubscribeEntriesRequest, r: ShredstreamEntriesRequest) -> bool {
    &&& is_wire_shredstream_group(w.accounts@, group(r.accounts))
    &&& w.transactions@ == group(r.transactions)
    &&& w.slots@ == group(r.slots)
    &&& w.commitment == match r.commitment {
        Some(c) => Some(commitment_code(shredstream_level(c))),
        None => None,
    }
}

impl ShredstreamFilterAccounts {
    pub fn to_wire(self) -> (r: WireFilterAccounts)
        ensures
            is_wire_shredstream_accounts(r, self),
    {
        WireFilterAccounts {
            account: self.account,
            owner: self.owner,
            filters: Vec::new(),
            nonempty_txn_signature: self.nonempty_txn_signature,
        }
    }
}

fn shredstream_group_to_wire(g: Vec<(String, ShredstreamFilterAccounts)>) -> (r: Vec<
    (String, WireFilterAccounts),
>)
    ensures
        is_wire_shredstream_group(r@, g@),
{
    let ghost given = g@;
    let mut rest = g;
    let mut out: Vec<(String, WireFilterAccounts)> = Vec::new();
    while rest.len() > 0
        invariant
            out@.len() + rest@.len() == given.len(),
            rest@ == given.subrange(out@.len() as int, given.len() as int),
            is_wire_shredstream_group(out@, given.subrange(0, out@.len() as int)),
        decreases rest@.len(),
    {
        let (label, filter) = rest.remove(0);
        let w = filter.to_wire();
        out.push((label, w));
    }
    assert(given.subrange(0, given.len() as int) =~= given);
    out
}

/// The wire form of an entries subscription: groups kept with their labels
/// in order, absent groups empty, the commitment as its code.
pub fn node_subscribe_request_to_subscribe_request(request: ShredstreamEntriesRequest) -> (r:
    SubscribeEntriesRequest)
    ensures
        is_wire_entries_request(r, request),
{
    let commitment = match request.commitment {
        Some(c) => Some(c.level().code()),
        None => None,
    };
    SubscribeEntriesRequest {
        accounts: shredstream_group_to_wire(group_or_empty(request.accounts)),
        transactions: group_or_empty(request.transactions),
        slots: group_or_empty(request.slots),
        commitment,
    }
}

/// Absent and `false` stay apart in entries requests too: an account filter
/// that leaves the signature flag out and one that sets it to `false`, at the
/// same place of two requests, give different wire forms.
pub proof fn lemma_shredstream_absent_and_false_stay_apart(
    r1: ShredstreamEntriesRequest,
    r2: ShredstreamEntriesRequest,
    w1: SubscribeEntriesRequest,
    w2: SubscribeEntriesRequest,
    i: int,
)
    requires
        is_wire_entries_request(w1, r1),
        is_wire_entries_request(w2, r2),
        0 <= i < group(r1.accounts).len(),
        0 <= i < group(r2.accounts).len(),
        group(r1.accounts)[i].1.nonempty_txn_signature is None,
        group(r2.accounts)[i].1.nonempty_txn_signature == Some(false),
    ensures
        w1.accounts@[i].1.nonempty_txn_signature is None,
        w2.accounts@[i].1.nonempty_txn_signature == Some(false),
        w1 != w2,
{
    assert(w1.accounts@[i].0 == group(r1.accounts)[i].0);
    assert(w2.accounts@[i].0 == group(r2.accounts)[i].0);
    if w1 == w2 {
        assert(w1.accounts@[i] == w2.accounts@[i]);
    }
}

} // verus!
