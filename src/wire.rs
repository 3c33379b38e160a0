use vstd::prelude::*;

verus! {

/// Wire code of a slot status.
pub const SLOT_STATUS_PROCESSED: i32 = 0;
pub const SLOT_STATUS_CONFIRMED: i32 = 1;
pub const SLOT_STATUS_FINALIZED: i32 = 2;

/// Wire codes of a reward kind.
pub const REWARD_TYPE_UNSPECIFIED: i32 = 0;
pub const REWARD_TYPE_FEE: i32 = 1;
pub const REWARD_TYPE_RENT: i32 = 2;
pub const REWARD_TYPE_STAKING: i32 = 3;
pub const REWARD_TYPE_VOTING: i32 = 4;

pub struct SubscribeUpdateSlot {
    pub slot: u64,
    pub parent: Option<u64>,
    pub status: i32,
}

pub struct SubscribeUpdateAccountInfo {
    pub pubkey: Vec<u8>,
    pub lamports: u64,
    pub owner: Vec<u8>,
    pub executable: bool,
    pub rent_epoch: u64,
    pub data: Vec<u8>,
    pub write_version: u64,
    pub txn_signature: Option<Vec<u8>>,
}

pub struct SubscribeUpdateAccount {
    pub account: Option<SubscribeUpdateAccountInfo>,
    pub slot: u64,
    pub is_startup: bool,
}

pub struct MessageHeader {
    pub num_required_signatures: u32,
    pub num_readonly_signed_accounts: u32,
    pub num_readonly_unsigned_accounts: u32,
}

pub struct CompiledInstruction {
    pub program_id_index: u32,
    pub accounts: Vec<u8>,
    pub data: Vec<u8>,
}

pub struct MessageAddressTableLookup {
    pub account_key: Vec<u8>,
    pub writable_indexes: Vec<u8>,
    pub readonly_indexes: Vec<u8>,
}

pub struct Message {
    pub header: Option<MessageHeader>,
    pub account_keys: Vec<Vec<u8>>,
    pub recent_blockhash: Vec<u8>,
    pub instructions: Vec<CompiledInstruction>,
    pub versioned: bool,
    pub address_table_lookups: Vec<MessageAddressTableLookup>,
}

pub struct Transaction {
    pub signatures: Vec<Vec<u8>>,
    pub message: Option<Message>,
}

pub struct TransactionError {
    pub err: Vec<u8>,
}

pub struct InnerInstruction {
    pub program_id_index: u32,
    pub accounts: Vec<u8>,
    pub data: Vec<u8>,
    pub stack_height: Option<u32>,
}

pub struct InnerInstructions {
    pub index: u32,
    pub instructions: Vec<InnerInstruction>,
}

pub struct UiTokenAmount {
    pub decimals: u32,
    pub amount: String,
    pub ui_amount_string: String,
}

pub struct TokenBalance {
    pub account_index: u32,
    pub mint: String,
    pub ui_token_amount: Option<UiTokenAmount>,
    pub owner: String,
    pub program_id: String,
}

pub struct Reward {
    pub pubkey: String,
    pub lamports: i64,
    pub post_balance: u64,
    pub reward_type: i32,
    pub commission: String,
}

pub struct Rewards {
    pub rewards: Vec<Reward>,
}

pub struct ReturnData {
    pub program_id: Vec<u8>,
    pub data: Vec<u8>,
}

pub struct TransactionStatusMeta {
    pub err: Option<TransactionError>,
    pub fee: u64,
    pub pre_balances: Vec<u64>,
    pub post_balances: Vec<u64>,
    pub inner_instructions: Vec<InnerInstructions>,
    pub inner_instructions_none: bool,
    pub log_messages: Vec<String>,
    pub log_messages_none: bool,
    pub pre_token_balances: Vec<TokenBalance>,
    pub post_token_balances: Vec<TokenBalance>,
    pub rewards: Vec<Reward>,
    pub loaded_writable_addresses: Vec<Vec<u8>>,
    pub loaded_readonly_addresses: Vec<Vec<u8>>,
    pub return_data: Option<ReturnData>,
    pub return_data_none: bool,
    pub compute_units_consumed: Option<u64>,
}

pub struct SubscribeUpdateTransactionInfo {
    pub signature: Vec<u8>,
    pub is_vote: bool,
    pub transaction: Option<Transaction>,
    pub meta: Option<TransactionStatusMeta>,
    pub index: u64,
}

pub struct SubscribeUpdateTransaction {
    pub transaction: Option<SubscribeUpdateTransactionInfo>,
    pub slot: u64,
}

pub struct BlockHeight {
    pub block_height: u64,
}

pub struct UnixTimestamp {
    pub timestamp: i64,
}

pub struct SubscribeUpdateBlock {
    pub slot: u64,
    pub blockhash: String,
    pub rewards: Option<Rewards>,
    pub block_time: Option<UnixTimestamp>,
    pub block_height: Option<BlockHeight>,
    pub transactions: Vec<SubscribeUpdateTransactionInfo>,
    pub parent_slot: u64,
    pub parent_blockhash: String,
}

pub struct SubscribeUpdateBlockMeta {
    pub slot: u64,
    pub blockhash: String,
    pub rewards: Option<Rewards>,
    pub block_time: Option<UnixTimestamp>,
    pub block_height: Option<BlockHeight>,
    pub parent_slot: u64,
    pub parent_blockhash: String,
    pub executed_transaction_count: u64,
}

pub struct SubscribeUpdatePing {}

pub enum UpdateOneof {
    Account(SubscribeUpdateAccount),
    Slot(SubscribeUpdateSlot),
    Transaction(SubscribeUpdateTransaction),
    Block(SubscribeUpdateBlock),
    Ping(SubscribeUpdatePing),
    BlockMeta(SubscribeUpdateBlockMeta),
}

/// One message on a subscriber's outbound stream: the labels under which
/// it matched (none for a ping) and its payload.
pub struct SubscribeUpdate {
    pub filters: Vec<String>,
    pub update_oneof: Option<UpdateOneof>,
}

} // verus!
