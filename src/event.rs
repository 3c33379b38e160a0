use vstd::prelude::*;

verus! {

/// Commitment level of a slot as reported by the host.
#[derive(Clone, Copy, Debug, PartialEq, Eq, Structural)]
pub enum SlotStatus {
    Processed,
    Confirmed,
    Rooted,
}

/// Commitment level of a slot as it appears on the wire.
#[derive(Clone, Copy, Debug, PartialEq, Eq, Structural)]
pub enum SubscribeUpdateSlotStatus {
    Processed,
    Confirmed,
    Finalized,
}

pub open spec fn wire_status(s: SlotStatus) -> SubscribeUpdateSlotStatus {
    match s {
        SlotStatus::Processed => SubscribeUpdateSlotStatus::Processed,
        SlotStatus::Confirmed => SubscribeUpdateSlotStatus::Confirmed,
        SlotStatus::Rooted => SubscribeUpdateSlotStatus::Finalized,
    }
}

#[derive(Clone, Copy, Debug)]
pub struct MessageSlot {
    pub slot: u64,
    pub parent: Option<u64>,
    pub status: SubscribeUpdateSlotStatus,
}

impl MessageSlot {
    /// Builds a slot event from the host's slot notification; the host's
    /// `Rooted` status is renamed `Finalized`.
    pub fn new(slot: u64, parent: Option<u64>, status: SlotStatus) -> (r: MessageSlot)
        ensures
            r.slot == slot,
            r.parent == parent,
            r.status == wire_status(status),
    {
        let status = match status {
            SlotStatus::Processed => SubscribeUpdateSlotStatus::Processed,
            SlotStatus::Confirmed => SubscribeUpdateSlotStatus::Confirmed,
            SlotStatus::Rooted => SubscribeUpdateSlotStatus::Finalized,
        };
        MessageSlot { slot, parent, status }
    }
}


/// One account write as the host reports it: keys are raw byte slices.
pub struct ReplicaAccountInfo {
    pub pubkey: Vec<u8>,
    pub lamports: u64,
    pub owner: Vec<u8>,
    pub executable: bool,
    pub rent_epoch: u64,
    pub data: Vec<u8>,
    pub write_version: u64,
    pub txn_signature: Option<Vec<u8>>,
}

/// Byte length of a public key.
pub const PUBKEY_BYTES: usize = 32;

pub struct MessageAccountInfo {
    pub pubkey: Vec<u8>,
    pub lamports: u64,
    pub owner: Vec<u8>,
    pub executable: bool,
    pub rent_epoch: u64,
    pub data: Vec<u8>,
    pub write_version: u64,
    pub txn_signature: Option<Vec<u8>>,
}

pub struct MessageAccount {
    pub account: MessageAccountInfo,
    pub slot: u64,
    pub is_startup: bool,
}

pub open spec fn opt_bytes(o: Option<Vec<u8>>) -> Option<Seq<u8>> {
    match o {
        Some(v) => Some(v@),
        None => None,
    }
}

/// The account record carries the host's values field for field.
pub open spec fn account_copied(a: ReplicaAccountInfo, m: MessageAccountInfo) -> bool {
    &&& m.pubkey@ == a.pubkey@
    &&& m.lamports == a.lamports
    &&& m.owner@ == a.owner@
    &&& m.executable == a.executable
    &&& m.rent_epoch == a.rent_epoch
    &&& m.data@ == a.data@
    &&& m.write_version == a.write_version
    &&& opt_bytes(m.txn_signature) == opt_bytes(a.txn_signature)
}

pub fn copy_bytes(v: &Vec<u8>) -> (r: Vec<u8>)
    ensures
        r@ == v@,
{
    let mut r: Vec<u8> = Vec::with_capacity(v.len());
    let mut i: usize = 0;
    while i < v.len()
        invariant
            i <= v.len(),
            r@ == v@.subrange(0, i as int),
        decreases v.len() - i,
    {
        r.push(v[i]);
        i = i + 1;
        assert(r@ =~= v@.subrange(0, i as int));
    }
    assert(r@ =~= v@);
    r
}

pub fn copy_opt_bytes(o: &Option<Vec<u8>>) -> (r: Option<Vec<u8>>)
    ensures
        opt_bytes(r) == opt_bytes(*o),
{
    match o {
        Some(v) => Some(copy_bytes(v)),
        None => None,
    }
}

impl MessageAccount {
    /// Builds an account event; the host hands keys over as 32-byte slices.
    pub fn new(account: &ReplicaAccountInfo, slot: u64, is_startup: bool) -> (r: MessageAccount)
        requires
            account.pubkey@.len() == PUBKEY_BYTES,
            account.owner@.len() == PUBKEY_BYTES,
        ensures
            account_copied(*account, r.account),
            r.slot == slot,
            r.is_startup == is_startup,
    {
        MessageAccount {
            account: MessageAccountInfo {
                pubkey: copy_bytes(&account.pubkey),
                lamports: account.lamports,
                owner: copy_bytes(&account.owner),
                executable: account.executable,
                rent_epoch: account.rent_epoch,
                data: copy_bytes(&account.data),
                write_version: account.write_version,
                txn_signature: copy_opt_bytes(&account.txn_signature),
            },
            slot,
            is_startup,
        }
    }
}


pub struct MessageHeader {
    pub num_required_signatures: u8,
    pub num_readonly_signed_accounts: u8,
    pub num_readonly_unsigned_accounts: u8,
}

pub struct CompiledInstruction {
    pub program_id_index: u8,
    pub accounts: Vec<u8>,
    pub data: Vec<u8>,
}

pub struct MessageAddressTableLookup {
    pub account_key: Vec<u8>,
    pub writable_indexes: Vec<u8>,
    pub readonly_indexes: Vec<u8>,
}

/// The parts shared by legacy and versioned transaction messages.
pub struct MessageBody {
    pub header: MessageHeader,
    pub account_keys: Vec<Vec<u8>>,
    pub recent_blockhash: Vec<u8>,
    pub instructions: Vec<CompiledInstruction>,
}

pub enum SanitizedMessage {
    Legacy(MessageBody),
    V0(MessageBody, Vec<MessageAddressTableLookup>),
}

pub struct SanitizedTransaction {
    pub signatures: Vec<Vec<u8>>,
    pub message: SanitizedMessage,
}

pub struct InnerInstruction {
    pub instruction: CompiledInstruction,
    pub stack_height: Option<u32>,
}

pub struct InnerInstructions {
    pub index: u8,
    pub instructions: Vec<InnerInstruction>,
}

pub struct UiTokenAmount {
    pub decimals: u8,
    pub amount: String,
    pub ui_amount_string: String,
}

pub struct TransactionTokenBalance {
    pub account_index: u8,
    pub mint: String,
    pub ui_token_amount: UiTokenAmount,
    pub owner: String,
    pub program_id: String,
}

#[derive(Clone, Copy, Debug, PartialEq, Eq, Structural)]
pub enum RewardType {
    Fee,
    Rent,
    Staking,
    Voting,
}

pub struct Reward {
    pub pubkey: String,
    pub lamports: i64,
    pub post_balance: u64,
    pub reward_type: Option<RewardType>,
    pub commission: Option<u8>,
}

pub struct LoadedAddresses {
    pub writable: Vec<Vec<u8>>,
    pub readonly: Vec<Vec<u8>>,
}

pub struct TransactionReturnData {
    pub program_id: Vec<u8>,
    pub data: Vec<u8>,
}

/// Execution status of a transaction. A failed transaction carries its
/// error in the host's binary encoding.
pub struct TransactionStatusMeta {
    pub status_error: Option<Vec<u8>>,
    pub fee: u64,
    pub pre_balances: Vec<u64>,
    pub post_balances: Vec<u64>,
    pub inner_instructions: Option<Vec<InnerInstructions>>,
    pub log_messages: Option<Vec<String>>,
    pub pre_token_balances: Option<Vec<TransactionTokenBalance>>,
    pub post_token_balances: Option<Vec<TransactionTokenBalance>>,
    pub rewards: Option<Vec<Reward>>,
    pub loaded_addresses: LoadedAddresses,
    pub return_data: Option<TransactionReturnData>,
    pub compute_units_consumed: Option<u64>,
}

pub struct MessageTransactionInfo {
    pub signature: Vec<u8>,
    pub is_vote: bool,
    pub transaction: SanitizedTransaction,
    pub meta: TransactionStatusMeta,
    pub index: u64,
}

pub struct MessageTransaction {
    pub transaction: MessageTransactionInfo,
    pub slot: u64,
}

pub struct MessageBlockMeta {
    pub parent_slot: u64,
    pub slot: u64,
    pub parent_blockhash: String,
    pub blockhash: String,
    pub rewards: Vec<Reward>,
    pub block_time: Option<i64>,
    pub block_height: Option<u64>,
    pub executed_transaction_count: u64,
}

pub struct MessageBlock {
    pub parent_slot: u64,
    pub slot: u64,
    pub parent_blockhash: String,
    pub blockhash: String,
    pub rewards: Vec<Reward>,
    pub block_time: Option<i64>,
    pub block_height: Option<u64>,
    pub transactions: Vec<MessageTransactionInfo>,
}

/// One ledger event, as the host hands it to the dispatch loop.
pub enum Message {
    Slot(MessageSlot),
    Account(MessageAccount),
    Transaction(MessageTransaction),
    Block(MessageBlock),
    BlockMeta(MessageBlockMeta),
}

impl MessageBlock {
    /// Joins a block's metadata with the transactions executed in it.
    pub fn new(meta: MessageBlockMeta, transactions: Vec<MessageTransactionInfo>) -> (r: MessageBlock)
        ensures
            r.parent_slot == meta.parent_slot,
            r.slot == meta.slot,
            r.parent_blockhash == meta.parent_blockhash,
            r.blockhash == meta.blockhash,
            r.rewards == meta.rewards,
            r.block_time == meta.block_time,
            r.block_height == meta.block_height,
            r.transactions == transactions,
    {
        MessageBlock {
            parent_slot: meta.parent_slot,
            slot: meta.slot,
            parent_blockhash: meta.parent_blockhash,
            blockhash: meta.blockhash,
            rewards: meta.rewards,
            block_time: meta.block_time,
            block_height: meta.block_height,
            transactions,
        }
    }
}

/// A block's metadata as the host reports it.
pub struct ReplicaBlockInfo {
    pub parent_slot: u64,
    pub slot: u64,
    pub parent_blockhash: String,
    pub blockhash: String,
    pub rewards: Vec<Reward>,
    pub block_time: Option<i64>,
    pub block_height: Option<u64>,
    pub executed_transaction_count: u64,
}

pub open spec fn reward_copied(a: Reward, b: Reward) -> bool {
    &&& b.pubkey@ == a.pubkey@
    &&& b.lamports == a.lamports
    &&& b.post_balance == a.post_balance
    &&& b.reward_type == a.reward_type
    &&& b.commission == a.commission
}

pub open spec fn rewards_copied(a: Seq<Reward>, b: Seq<Reward>) -> bool {
    &&& b.len() == a.len()
    &&& forall|i: int| 0 <= i < a.len() ==> #[trigger] reward_copied(a[i], b[i])
}

pub fn copy_rewards(v: &Vec<Reward>) -> (r: Vec<Reward>)
    ensures
        rewards_copied(v@, r@),
{
    let mut r: Vec<Reward> = Vec::with_capacity(v.len());
    let mut i: usize = 0;
    while i < v.len()
        invariant
            i <= v.len(),
            rewards_copied(v@.subrange(0, i as int), r@),
        decreases v.len() - i,
    {
        let w = &v[i];
        r.push(Reward {
            pubkey: w.pubkey.clone(),
            lamports: w.lamports,
            post_balance: w.post_balance,
            reward_type: w.reward_type,
            commission: w.commission,
        });
        i = i + 1;
    }
    assert(v@.subrange(0, v.len() as int) =~= v@);
    r
}

impl MessageBlockMeta {
    /// Builds a block-meta event from the host's block notification.
    pub fn new(info: &ReplicaBlockInfo) -> (r: MessageBlockMeta)
        ensures
            r.parent_slot == info.parent_slot,
            r.slot == info.slot,
            r.parent_blockhash@ == info.parent_blockhash@,
            r.blockhash@ == info.blockhash@,
            rewards_copied(info.rewards@, r.rewards@),
            r.block_time == info.block_time,
            r.block_height == info.block_height,
            r.executed_transaction_count == info.executed_transaction_count,
    {
        MessageBlockMeta {
            parent_slot: info.parent_slot,
            slot: info.slot,
            parent_blockhash: info.parent_blockhash.clone(),
            blockhash: info.blockhash.clone(),
            rewards: copy_rewards(&info.rewards),
            block_time: info.block_time,
            block_height: info.block_height,
            executed_transaction_count: info.executed_transaction_count,
        }
    }
}

impl MessageTransaction {
    /// A transaction event at `slot`.
    pub fn new(transaction: MessageTransactionInfo, slot: u64) -> (r: MessageTransaction)
        ensures
            r.transaction == transaction,
            r.slot == slot,
    {
        MessageTransaction { transaction, slot }
    }
}

} // verus!
