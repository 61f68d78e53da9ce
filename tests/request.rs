use geyser_stream::config::{ClientConfig, GeyserClientConfig};
use geyser_stream::request::{
    accounts_group_to_wire, group_or_empty, AccountsFilterKind, CommitmentLevel, LamportsCmp,
    MemcmpData, SubscribeRequest, SubscribeRequestAccountsDataSlice,
    SubscribeRequestFilterAccounts, SubscribeRequestFilterAccountsFilter,
    SubscribeRequestFilterAccountsFilterLamports, SubscribeRequestFilterAccountsFilterMemcmp,
    SubscribeRequestFilterSlots, SubscribeRequestPing, WireMemcmp,
};
use geyser_stream::shredstream::{
    node_subscribe_request_to_subscribe_request, ShredstreamCommitmentLevel,
    ShredstreamEntriesRequest, ShredstreamFilterAccounts, ShredstreamFilterSlots,
    ShredstreamFilterTransactions,
};
use geyser_stream::update::RewardType;

fn accounts(flag: Option<bool>) -> SubscribeRequestFilterAccounts {
    SubscribeRequestFilterAccounts {
        account: vec!["Acc1".to_string()],
        owner: vec!["Own1".to_string()],
        filters: vec![],
        nonempty_txn_signature: flag,
    }
}

fn request_with_accounts(flag: Option<bool>) -> SubscribeRequest {
    let mut r = SubscribeRequest::empty();
    r.accounts = Some(vec![("main".to_string(), accounts(flag))]);
    r
}

fn no_filter() -> SubscribeRequestFilterAccountsFilter {
    SubscribeRequestFilterAccountsFilter {
        memcmp: None,
        datasize: None,
        token_account_state: None,
        lamports: None,
    }
}

#[test]
fn absent_and_false_signature_flags_stay_distinct() {
    let unset = request_with_accounts(None).to_wire();
    let falsy = request_with_accounts(Some(false)).to_wire();
    assert_eq!(unset.accounts[0].1.nonempty_txn_signature, None);
    assert_eq!(falsy.accounts[0].1.nonempty_txn_signature, Some(false));
    assert_ne!(unset, falsy);
}

#[test]
fn empty_request_has_an_empty_wire_form() {
    let w = SubscribeRequest::empty().to_wire();
    assert!(w.accounts.is_empty() && w.slots.is_empty() && w.transactions.is_empty());
    assert!(w.transactions_status.is_empty() && w.blocks.is_empty() && w.blocks_meta.is_empty());
    assert!(w.entry.is_empty() && w.accounts_data_slice.is_empty());
    assert_eq!((w.commitment, w.ping, w.from_slot), (None, None, None));
}

#[test]
fn commitment_levels_have_their_wire_codes() {
    assert_eq!(CommitmentLevel::Processed.code(), 0);
    assert_eq!(CommitmentLevel::Confirmed.code(), 1);
    assert_eq!(CommitmentLevel::Finalized.code(), 2);
    let mut r = SubscribeRequest::empty();
    r.commitment = Some(CommitmentLevel::Finalized);
    assert_eq!(r.to_wire().commitment, Some(2));
}

#[test]
fn settings_and_groups_are_carried_over() {
    let mut r = SubscribeRequest::empty();
    let slots = SubscribeRequestFilterSlots {
        filter_by_commitment: Some(true),
        interslot_updates: None,
    };
    r.slots = Some(vec![("a".to_string(), slots), ("b".to_string(), slots)]);
    r.accounts_data_slice = Some(vec![SubscribeRequestAccountsDataSlice { offset: 4, length: 32 }]);
    r.ping = Some(SubscribeRequestPing { id: 9 });
    r.from_slot = Some(u64::MAX);
    let w = r.to_wire();
    assert_eq!(w.slots, vec![("a".to_string(), slots), ("b".to_string(), slots)]);
    assert_eq!(w.accounts_data_slice, vec![SubscribeRequestAccountsDataSlice { offset: 4, length: 32 }]);
    assert_eq!(w.ping, Some(SubscribeRequestPing { id: 9 }));
    assert_eq!(w.from_slot, Some(u64::MAX));
}

#[test]
fn memcmp_prefers_bytes_then_base58_then_base64() {
    let all = SubscribeRequestFilterAccountsFilterMemcmp {
        offset: 32,
        bytes: Some(vec![1, 2]),
        base58: Some("3mJr7AoUXx2Wqd".to_string()),
        base64: Some("AQI=".to_string()),
    };
    assert_eq!(
        all.clone().to_wire(),
        WireMemcmp { offset: 32, data: Some(MemcmpData::Bytes(vec![1, 2])) }
    );
    let mut no_bytes = all.clone();
    no_bytes.bytes = None;
    assert_eq!(no_bytes.clone().to_wire().data, Some(MemcmpData::Base58("3mJr7AoUXx2Wqd".to_string())));
    let mut only64 = no_bytes;
    only64.base58 = None;
    assert_eq!(only64.clone().to_wire().data, Some(MemcmpData::Base64("AQI=".to_string())));
    only64.base64 = None;
    assert_eq!(only64.to_wire(), WireMemcmp { offset: 32, data: None });
}

#[test]
fn lamports_comparison_takes_the_first_given() {
    let l = SubscribeRequestFilterAccountsFilterLamports {
        eq: None,
        ne: Some(5),
        lt: Some(10),
        gt: Some(1),
    };
    assert_eq!(l.to_wire(), Some(LamportsCmp::Ne(5)));
    let none = SubscribeRequestFilterAccountsFilterLamports { eq: None, ne: None, lt: None, gt: None };
    assert_eq!(none.to_wire(), None);
    let gt = SubscribeRequestFilterAccountsFilterLamports { eq: None, ne: None, lt: None, gt: Some(7) };
    assert_eq!(gt.to_wire(), Some(LamportsCmp::Gt(7)));
}

#[test]
fn account_predicate_takes_the_first_kind_given() {
    let mut f = no_filter();
    f.datasize = Some(165);
    f.token_account_state = Some(true);
    assert_eq!(f.clone().to_wire().filter, Some(AccountsFilterKind::Datasize(165)));
    f.datasize = None;
    assert_eq!(f.clone().to_wire().filter, Some(AccountsFilterKind::TokenAccountState(true)));
    f.token_account_state = None;
    f.lamports = Some(SubscribeRequestFilterAccountsFilterLamports { eq: Some(0), ne: None, lt: None, gt: None });
    assert_eq!(f.clone().to_wire().filter, Some(AccountsFilterKind::Lamports(Some(LamportsCmp::Eq(0)))));
    assert_eq!(no_filter().to_wire().filter, None);
}

#[test]
fn account_groups_keep_labels_order_and_predicates() {
    let mut a = accounts(Some(true));
    let mut f = no_filter();
    f.memcmp = Some(SubscribeRequestFilterAccountsFilterMemcmp {
        offset: 0,
        bytes: None,
        base58: None,
        base64: Some("AA==".to_string()),
    });
    a.filters = vec![f, no_filter()];
    let g = vec![("z".to_string(), a), ("a".to_string(), accounts(None))];
    let w = accounts_group_to_wire(g);
    assert_eq!(w.len(), 2);
    assert_eq!(w[0].0, "z");
    assert_eq!(w[1].0, "a");
    assert_eq!(w[0].1.account, vec!["Acc1".to_string()]);
    assert_eq!(w[0].1.owner, vec!["Own1".to_string()]);
    assert_eq!(w[0].1.nonempty_txn_signature, Some(true));
    assert_eq!(w[0].1.filters.len(), 2);
    assert_eq!(
        w[0].1.filters[0].filter,
        Some(AccountsFilterKind::Memcmp(WireMemcmp { offset: 0, data: Some(MemcmpData::Base64("AA==".to_string())) }))
    );
    assert_eq!(w[0].1.filters[1].filter, None);
    assert_eq!(w[1].1.nonempty_txn_signature, None);
}

#[test]
fn absent_group_becomes_empty() {
    let none: Option<Vec<u8>> = None;
    assert!(group_or_empty(none).is_empty());
    assert_eq!(group_or_empty(Some(vec![3u8, 4])), vec![3, 4]);
}

fn shred_accounts(flag: Option<bool>) -> ShredstreamFilterAccounts {
    ShredstreamFilterAccounts {
        account: vec!["Acc".to_string()],
        owner: vec![],
        filters: vec!["memcmp:0:AA".to_string()],
        nonempty_txn_signature: flag,
    }
}

#[test]
fn entries_request_keeps_absent_signature_flag_absent() {
    let build = |flag: Option<bool>| {
        node_subscribe_request_to_subscribe_request(ShredstreamEntriesRequest {
            accounts: Some(vec![("acc".to_string(), shred_accounts(flag))]),
            transactions: None,
            slots: None,
            commitment: None,
        })
    };
    let unset = build(None);
    let falsy = build(Some(false));
    assert_eq!(unset.accounts[0].1.nonempty_txn_signature, None);
    assert_eq!(falsy.accounts[0].1.nonempty_txn_signature, Some(false));
    assert!(unset.accounts[0].1.filters.is_empty());
    assert_ne!(unset, falsy);
}

#[test]
fn entries_request_maps_groups_and_commitment() {
    let tx = ShredstreamFilterTransactions {
        account_include: vec!["Inc".to_string()],
        account_exclude: vec![],
        account_required: vec!["Req".to_string()],
    };
    let slots = ShredstreamFilterSlots { filter_by_commitment: None, interslot_updates: Some(true) };
    let w = node_subscribe_request_to_subscribe_request(ShredstreamEntriesRequest {
        accounts: None,
        transactions: Some(vec![("tx".to_string(), tx.clone())]),
        slots: Some(vec![("s".to_string(), slots)]),
        commitment: Some(ShredstreamCommitmentLevel::Confirmed),
    });
    assert!(w.accounts.is_empty());
    assert_eq!(w.transactions, vec![("tx".to_string(), tx)]);
    assert_eq!(w.slots, vec![("s".to_string(), slots)]);
    assert_eq!(w.commitment, Some(1));
    assert_eq!(ShredstreamCommitmentLevel::Processed.level().code(), 0);
    assert_eq!(ShredstreamCommitmentLevel::Finalized.level().code(), 2);
}

#[test]
fn client_config_defaults_and_metadata() {
    let c = ClientConfig {
        x_token: None,
        x_request_snapshot: None,
        max_decoding_message_size: Some(1 << 20),
        max_encoding_message_size: None,
    }
    .resolve();
    assert_eq!(
        c,
        GeyserClientConfig {
            x_token: None,
            x_request_snapshot: false,
            max_decoding_message_size: Some(1 << 20),
            max_encoding_message_size: None,
        }
    );
    assert!(c.request_metadata().is_empty());
    let c = ClientConfig {
        x_token: Some("tok-7f3a".to_string()),
        x_request_snapshot: Some(true),
        max_decoding_message_size: None,
        max_encoding_message_size: Some(7),
    }
    .resolve();
    assert_eq!(c.max_encoding_message_size, Some(7));
    assert_eq!(
        c.request_metadata(),
        vec![
            ("x-token".to_string(), "tok-7f3a".to_string()),
            ("x-request-snapshot".to_string(), "true".to_string()),
        ]
    );
}

#[test]
fn reward_types_read_from_codes() {
    assert_eq!(RewardType::from_code(0), RewardType::Unspecified);
    assert_eq!(RewardType::from_code(1), RewardType::Fee);
    assert_eq!(RewardType::from_code(2), RewardType::Rent);
    assert_eq!(RewardType::from_code(3), RewardType::Staking);
    assert_eq!(RewardType::from_code(4), RewardType::Voting);
    assert_eq!(RewardType::try_from_code(5), None);
    assert_eq!(RewardType::try_from_code(-1), None);
    assert_eq!(RewardType::try_from_code(3), Some(RewardType::Staking));
}
