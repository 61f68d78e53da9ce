//! Ledger entries as they come out of a decoded entry batch, held as plain
//! values: addresses, hashes and signatures in their base58 text.
use vstd::prelude::*;

verus! {

#[derive(Clone, Debug, PartialEq, Eq)]
pub struct MessageHeader {
    /// Signatures required for the message to be valid; the signers are the
    /// first `num_required_signatures` account keys.
    pub num_required_signatures: u8,
    /// The last `num_readonly_signed_accounts` signed keys are read-only.
    pub num_readonly_signed_accounts: u8,
    /// The last `num_readonly_unsigned_accounts` unsigned keys are read-only.
    pub num_readonly_unsigned_accounts: u8,
}

#[derive(Clone, Debug, PartialEq, Eq)]
pub struct CompiledInstruction {
    /// Index of the executing program among the account keys.
    pub program_id_index: u8,
    /// Indices of the accounts passed to the program.
    pub accounts: Vec<u8>,
    /// The program input.
    pub data: Vec<u8>,
}

#[derive(Clone, Debug, PartialEq, Eq)]
pub struct MessageAddressTableLookup {
    /// Address of the lookup table account.
    pub account_key: String,
    /// Indexes of the writable addresses loaded from the table.
    pub writable_indexes: Vec<u8>,
    /// Indexes of the read-only addresses loaded from the table.
    pub readonly_indexes: Vec<u8>,
}

#[derive(Clone, Copy, Debug, PartialEq, Eq, Structural)]
pub enum MessageVersion {
    Legacy,
    V0,
    V1,
}

#[derive(Clone, Debug, PartialEq, Eq)]
pub struct VersionedMessage {
    pub header: MessageHeader,
    pub account_keys: Vec<String>,
    pub recent_blockhash: String,
    pub instructions: Vec<CompiledInstruction>,
    /// Address table lookups; present exactly for a `V0` message.
    pub address_table_lookups: Option<Vec<MessageAddressTableLookup>>,
    pub version: MessageVersion,
}

#[derive(Clone, Debug, PartialEq, Eq)]
pub struct VersionedTransaction {
    pub signatures: Vec<String>,
    pub message: VersionedMessage,
}

/// One ledger entry: a hash count, the resulting hash, and the transactions
/// recorded with it.
#[derive(Clone, Debug, PartialEq, Eq)]
pub struct Entry {
    pub num_hashes: u64,
    pub hash: String,
    pub transactions: Vec<VersionedTransaction>,
}

/// The decoded form of one slot's entry batch.
#[derive(Clone, Debug, PartialEq, Eq)]
pub struct DecodedShredstreamEntry {
    pub slot: u64,
    pub entries: Vec<Entry>,
}

/// A batch whose serialized entries could not be decoded.
#[derive(Clone, Debug, PartialEq, Eq)]
pub struct DecodeError {
    pub slot: u64,
    pub reason: String,
}

} // verus!
