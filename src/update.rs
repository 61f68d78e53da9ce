//! Inbound messages of a subscription: one payload variant per message kind,
//! each with the structure the feed sends. The session moves these values and
//! never reads ledger semantics out of them.
use vstd::prelude::*;

use crate::shredstream::ShredstreamEntry;

verus! {

/// Kind of a validator reward.
#[derive(Clone, Copy, Debug, PartialEq, Eq, Structural)]
pub enum RewardType {
    Unspecified,
    Fee,
    Rent,
    Staking,
    Voting,
}

/// The reward type that a wire code stands for; codes outside `0..=4` have none.
pub open spec fn reward_type_of(code: i32) -> Option<RewardType> {
    if code == 0 {
        Some(RewardType::Unspecified)
    } else if code == 1 {
        Some(RewardType::Fee)
    } else if code == 2 {
        Some(RewardType::Rent)
    } else if code == 3 {
        Some(RewardType::Staking)
    } else if code == 4 {
        Some(RewardType::Voting)
    } else {
        None
    }
}

impl RewardType {
    /// Reads a reward type from its wire code.
    pub fn from_code(code: i32) -> (r: RewardType)
        requires
            0 <= code <= 4,
        ensures
            reward_type_of(code) == Some(r),
    {
        if code == 0 {
            RewardType::Unspecified
        } else if code == 1 {
            RewardType::Fee
        } else if code == 2 {
            RewardType::Rent
        } else if code == 3 {
            RewardType::Staking
        } else {
            RewardType::Voting
        }
    }

    /// Reads a reward type from its wire code, `None` for an unknown code.
    pub fn try_from_code(code: i32) -> (r: Option<RewardType>)
        ensures
            r == reward_type_of(code),
    {
        if 0 <= code && code <= 4 {
            Some(RewardType::from_code(code))
        } else {
            None
        }
    }
}

#[derive(Clone, Debug, PartialEq, Eq)]
pub struct MessageHeader {
    pub num_required_signatures: u32,
    pub num_readonly_signed_accounts: u32,
    pub num_readonly_unsigned_accounts: u32,
}

#[derive(Clone, Debug, PartialEq, Eq)]
pub struct CompiledInstruction {
    pub program_id_index: u32,
    pub accounts: Vec<u8>,
    pub data: Vec<u8>,
}

#[derive(Clone, Debug, PartialEq, Eq)]
pub struct MessageAddressTableLookup {
    pub account_key: Vec<u8>,
    pub writable_indexes: Vec<u8>,
    pub readonly_indexes: Vec<u8>,
}

#[derive(Clone, Debug, PartialEq, Eq)]
pub struct Message {
    pub header: Option<MessageHeader>,
    pub account_keys: Vec<Vec<u8>>,
    pub recent_blockhash: Vec<u8>,
    pub instructions: Vec<CompiledInstruction>,
    pub versioned: bool,
    pub address_table_lookups: Vec<MessageAddressTableLookup>,
}

#[derive(Clone, Debug, PartialEq, Eq)]
pub struct Transaction {
    pub signatures: Vec<Vec<u8>>,
    pub message: Option<Message>,
}

#[derive(Clone, Debug, PartialEq, Eq)]
pub struct TransactionError {
    pub err: Vec<u8>,
}

#[derive(Clone, Debug, PartialEq, Eq)]
pub struct InnerInstruction {
    pub program_id_index: u32,
    pub accounts: Vec<u8>,
    pub data: Vec<u8>,
    /// Invocation stack height; `None` for transactions executed before it was recorded.
    pub stack_height: Option<u32>,
}

#[derive(Clone, Debug, PartialEq, Eq)]
pub struct InnerInstructions {
    pub index: u32,
    pub instructions: Vec<InnerInstruction>,
}

/// A token amount in its exact forms: the raw integer text and the
/// decimal text scaled by `decimals`.
#[derive(Clone, Debug, PartialEq, Eq)]
pub struct UiTokenAmount {
    pub decimals: u32,
    pub amount: String,
    pub ui_amount_string: String,
}

#[derive(Clone, Debug, PartialEq, Eq)]
pub struct TokenBalance {
    pub account_index: u32,
    pub mint: String,
    pub ui_token_amount: Option<UiTokenAmount>,
    pub owner: String,
    pub program_id: String,
}

#[derive(Clone, Debug, PartialEq, Eq)]
pub struct ReturnData {
    pub program_id: Vec<u8>,
    pub data: Vec<u8>,
}

#[derive(Clone, Debug, PartialEq, Eq)]
pub struct Reward {
    pub pubkey: String,
    pub lamports: i64,
    pub post_balance: u64,
    pub reward_type: RewardType,
    pub commission: String,
}

#[derive(Clone, Debug, PartialEq, Eq)]
pub struct NumPartitions {
    pub num_partitions: u64,
}

#[derive(Clone, Debug, PartialEq, Eq)]
pub struct Rewards {
    pub rewards: Vec<Reward>,
    pub num_partitions: Option<NumPartitions>,
}

#[derive(Clone, Debug, PartialEq, Eq)]
pub struct UnixTimestamp {
    pub timestamp: i64,
}

#[derive(Clone, Debug, PartialEq, Eq)]
pub struct BlockHeight {
    pub block_height: u64,
}

#[derive(Clone, Debug, PartialEq, Eq)]
pub struct TransactionStatusMeta {
    pub err: Option<TransactionError>,
    pub fee: u64,
    pub pre_balances: Vec<u64>,
    pub post_balances: Vec<u64>,
    pub inner_instructions: Vec<InnerInstructions>,
    pub inner_instructions_none: bool,
    pub log_messages: Vec<String>,
    pub log_messages_none: bool,
    pub pre_token_balances: Vec<TokenBalance>,
    pub post_token_balances: Vec<TokenBalance>,
    pub rewards: Vec<Reward>,
    pub loaded_writable_addresses: Vec<Vec<u8>>,
    pub loaded_readonly_addresses: Vec<Vec<u8>>,
    pub return_data: Option<ReturnData>,
    pub return_data_none: bool,
    /// Compute units consumed by all instructions, where recorded.
    pub compute_units_consumed: Option<u64>,
    /// Total transaction cost, where recorded.
    pub cost_units: Option<u64>,
}

#[derive(Clone, Debug, PartialEq, Eq)]
pub struct SubscribeUpdateAccountInfo {
    pub pubkey: Vec<u8>,
    pub lamports: u64,
    pub owner: Vec<u8>,
    pub executable: bool,
    pub rent_epoch: u64,
    pub data: Vec<u8>,
    pub write_version: u64,
    pub txn_signature: Option<Vec<u8>>,
}

#[derive(Clone, Debug, PartialEq, Eq)]
pub struct SubscribeUpdateAccount {
    pub account: Option<SubscribeUpdateAccountInfo>,
    pub slot: u64,
    pub is_startup: bool,
}

#[derive(Clone, Debug, PartialEq, Eq)]
pub struct SubscribeUpdateSlot {
    pub slot: u64,
    pub parent: Option<u64>,
    pub status: i32,
    pub dead_error: Option<String>,
}

#[derive(Clone, Debug, PartialEq, Eq)]
pub struct SubscribeUpdateTransactionInfo {
    pub signature: Vec<u8>,
    pub is_vote: bool,
    pub transaction: Option<Transaction>,
    pub meta: Option<TransactionStatusMeta>,
    pub index: u64,
}

#[derive(Clone, Debug, PartialEq, Eq)]
pub struct SubscribeUpdateTransaction {
    pub transaction: Option<SubscribeUpdateTransactionInfo>,
    pub slot: u64,
}

#[derive(Clone, Debug, PartialEq, Eq)]
pub struct SubscribeUpdateTransactionStatus {
    pub slot: u64,
    pub signature: Vec<u8>,
    pub is_vote: bool,
    pub index: u64,
    pub err: Option<TransactionError>,
}

#[derive(Clone, Debug, PartialEq, Eq)]
pub struct SubscribeUpdateEntry {
    pub slot: u64,
    pub index: u64,
    pub num_hashes: u64,
    pub hash: Vec<u8>,
    pub executed_transaction_count: u64,
    pub starting_transaction_index: u64,
}

#[derive(Clone, Debug, PartialEq, Eq)]
pub struct SubscribeUpdateBlock {
    pub slot: u64,
    pub blockhash: String,
    pub rewards: Option<Rewards>,
    pub block_time: Option<UnixTimestamp>,
    pub block_height: Option<BlockHeight>,
    pub parent_slot: u64,
    pub parent_blockhash: String,
    pub executed_transaction_count: u64,
    pub transactions: Vec<SubscribeUpdateTransactionInfo>,
    pub updated_account_count: u64,
    pub accounts: Vec<SubscribeUpdateAccountInfo>,
    pub entries_count: u64,
    pub entries: Vec<SubscribeUpdateEntry>,
}

#[derive(Clone, Debug, PartialEq, Eq)]
pub struct SubscribeUpdateBlockMeta {
    pub slot: u64,
    pub blockhash: String,
    pub rewards: Option<Rewards>,
    pub block_time: Option<UnixTimestamp>,
    pub block_height: Option<BlockHeight>,
    pub parent_slot: u64,
    pub parent_blockhash: String,
    pub executed_transaction_count: u64,
    pub entries_count: u64,
}

#[derive(Clone, Copy, Debug, PartialEq, Eq, Structural)]
pub struct SubscribeUpdatePing {}

#[derive(Clone, Copy, Debug, PartialEq, Eq, Structural)]
pub struct SubscribeUpdatePong {
    pub id: i32,
}

/// The payload of an inbound message: exactly one kind per message.
#[derive(Clone, Debug, PartialEq, Eq)]
pub enum UpdateOneof {
    Account(SubscribeUpdateAccount),
    Slot(SubscribeUpdateSlot),
    Transaction(SubscribeUpdateTransaction),
    TransactionStatus(SubscribeUpdateTransactionStatus),
    Block(SubscribeUpdateBlock),
    BlockMeta(SubscribeUpdateBlockMeta),
    Entry(SubscribeUpdateEntry),
    /// A slot's ledger entries, still in their serialized form.
    EntryBatch(ShredstreamEntry),
    Ping(SubscribeUpdatePing),
    Pong(SubscribeUpdatePong),
}

/// One inbound message: the labels of the filters it matched, when it was
/// created (seconds since the Unix epoch), and its payload. A message whose
/// payload kind the feed did not fill in carries `None`.
#[derive(Clone, Debug, PartialEq, Eq)]
pub struct SubscribeUpdate {
    pub filters: Vec<String>,
    pub created_at: Option<i64>,
    pub update_oneof: Option<UpdateOneof>,
}

} // verus!
