use vstd::prelude::*;
use crate::event;
use crate::event::{copy_bytes, copy_opt_bytes, opt_bytes};
use crate::wire;

verus! {

/// Wire code of a slot status.
pub open spec fn slot_status_code(s: event::SubscribeUpdateSlotStatus) -> i32 {
    match s {
        event::SubscribeUpdateSlotStatus::Processed => wire::SLOT_STATUS_PROCESSED,
        event::SubscribeUpdateSlotStatus::Confirmed => wire::SLOT_STATUS_CONFIRMED,
        event::SubscribeUpdateSlotStatus::Finalized => wire::SLOT_STATUS_FINALIZED,
    }
}

/// Wire code of a reward kind; an absent kind is `Unspecified`.
pub open spec fn reward_type_code(t: Option<event::RewardType>) -> i32 {
    match t {
        None => wire::REWARD_TYPE_UNSPECIFIED,
        Some(event::RewardType::Fee) => wire::REWARD_TYPE_FEE,
        Some(event::RewardType::Rent) => wire::REWARD_TYPE_RENT,
        Some(event::RewardType::Staking) => wire::REWARD_TYPE_STAKING,
        Some(event::RewardType::Voting) => wire::REWARD_TYPE_VOTING,
    }
}

pub open spec fn digit_char(d: nat) -> char {
    if d == 0 { '0' } else if d == 1 { '1' } else if d == 2 { '2' } else if d == 3 { '3' }
    else if d == 4 { '4' } else if d == 5 { '5' } else if d == 6 { '6' } else if d == 7 { '7' }
    else if d == 8 { '8' } else { '9' }
}

/// Decimal notation of a natural number, without leading zeros.
pub open spec fn decimal(n: nat) -> Seq<char>
    decreases n,
{
    if n < 10 {
        seq![digit_char(n)]
    } else {
        decimal(n / 10).push(digit_char(n % 10))
    }
}

/// A reward's commission on the wire: its decimal notation, or empty when absent.
pub open spec fn commission_text(c: Option<u8>) -> Seq<char> {
    match c {
        Some(v) => decimal(v as nat),
        None => Seq::empty(),
    }
}

pub open spec fn keys_copied(d: Seq<Vec<u8>>, w: Seq<Vec<u8>>) -> bool {
    &&& w.len() == d.len()
    &&& forall|i: int| 0 <= i < d.len() ==> #[trigger] w[i]@ == d[i]@
}

pub open spec fn strings_copied(d: Seq<String>, w: Seq<String>) -> bool {
    &&& w.len() == d.len()
    &&& forall|i: int| 0 <= i < d.len() ==> #[trigger] w[i]@ == d[i]@
}

pub fn slot_status_to_wire(s: event::SubscribeUpdateSlotStatus) -> (r: i32)
    ensures
        r == slot_status_code(s),
{
    match s {
        event::SubscribeUpdateSlotStatus::Processed => wire::SLOT_STATUS_PROCESSED,
        event::SubscribeUpdateSlotStatus::Confirmed => wire::SLOT_STATUS_CONFIRMED,
        event::SubscribeUpdateSlotStatus::Finalized => wire::SLOT_STATUS_FINALIZED,
    }
}

pub fn copy_keys(v: &Vec<Vec<u8>>) -> (r: Vec<Vec<u8>>)
    ensures
        keys_copied(v@, r@),
{
    let mut r: Vec<Vec<u8>> = Vec::with_capacity(v.len());
    let mut i: usize = 0;
    while i < v.len()
        invariant
            i <= v.len(),
            keys_copied(v@.subrange(0, i as int), r@),
        decreases v.len() - i,
    {
        r.push(copy_bytes(&v[i]));
        i = i + 1;
    }
    assert(v@.subrange(0, v.len() as int) =~= v@);
    r
}

pub fn copy_strings(v: &Vec<String>) -> (r: Vec<String>)
    ensures
        strings_copied(v@, r@),
{
    let mut r: Vec<String> = Vec::with_capacity(v.len());
    let mut i: usize = 0;
    while i < v.len()
        invariant
            i <= v.len(),
            strings_copied(v@.subrange(0, i as int), r@),
        decreases v.len() - i,
    {
        r.push(v[i].clone());
        i = i + 1;
    }
    assert(v@.subrange(0, v.len() as int) =~= v@);
    r
}

pub fn copy_u64s(v: &Vec<u64>) -> (r: Vec<u64>)
    ensures
        r@ == v@,
{
    let mut r: Vec<u64> = Vec::with_capacity(v.len());
    let mut i: usize = 0;
    while i < v.len()
        invariant
            i <= v.len(),
            r@ == v@.subrange(0, i as int),
        decreases v.len() - i,
    {
        r.push(v[i]);
        i = i + 1;
        assert(r@ =~= v@.subrange(0, i as int));
    }
    assert(r@ =~= v@);
    r
}

fn digit_str(d: u8) -> (r: &'static str)
    requires
        d < 10,
    ensures
        r@ == seq![digit_char(d as nat)],
{
    proof {
        reveal_strlit("0");
        reveal_strlit("1");
        reveal_strlit("2");
        reveal_strlit("3");
        reveal_strlit("4");
        reveal_strlit("5");
        reveal_strlit("6");
        reveal_strlit("7");
        reveal_strlit("8");
        reveal_strlit("9");
    }
    if d == 0 { "0" } else if d == 1 { "1" } else if d == 2 { "2" } else if d == 3 { "3" }
    else if d == 4 { "4" } else if d == 5 { "5" } else if d == 6 { "6" } else if d == 7 { "7" }
    else if d == 8 { "8" } else { "9" }
}

/// Decimal notation of a byte value.
pub fn u8_to_decimal(v: u8) -> (r: String)
    ensures
        r@ == decimal(v as nat),
{
    let mut s = String::new();
    if v >= 100 {
        s = s.concat(digit_str(v / 100));
        assert(s@ =~= decimal((v / 100) as nat));
        s = s.concat(digit_str((v / 10) % 10));
        assert((v / 10) / 10 == v / 100);
        assert(s@ =~= decimal((v / 10) as nat));
    } else if v >= 10 {
        s = s.concat(digit_str(v / 10));
        assert(s@ =~= decimal((v / 10) as nat));
    }
    s = s.concat(digit_str(v % 10));
    assert(s@ =~= decimal(v as nat));
    s
}

pub open spec fn header_projected(d: event::MessageHeader, w: wire::MessageHeader) -> bool {
    &&& w.num_required_signatures == d.num_required_signatures as u32
    &&& w.num_readonly_signed_accounts == d.num_readonly_signed_accounts as u32
    &&& w.num_readonly_unsigned_accounts == d.num_readonly_unsigned_accounts as u32
}

pub open spec fn instruction_projected(d: event::CompiledInstruction, w: wire::CompiledInstruction) -> bool {
    &&& w.program_id_index == d.program_id_index as u32
    &&& w.accounts@ == d.accounts@
    &&& w.data@ == d.data@
}

pub open spec fn instructions_projected(d: Seq<event::CompiledInstruction>, w: Seq<wire::CompiledInstruction>) -> bool {
    &&& w.len() == d.len()
    &&& forall|i: int| 0 <= i < d.len() ==> #[trigger] instruction_projected(d[i], w[i])
}

pub open spec fn lookup_projected(d: event::MessageAddressTableLookup, w: wire::MessageAddressTableLookup) -> bool {
    &&& w.account_key@ == d.account_key@
    &&& w.writable_indexes@ == d.writable_indexes@
    &&& w.readonly_indexes@ == d.readonly_indexes@
}

pub open spec fn lookups_projected(d: Seq<event::MessageAddressTableLookup>, w: Seq<wire::MessageAddressTableLookup>) -> bool {
    &&& w.len() == d.len()
    &&& forall|i: int| 0 <= i < d.len() ==> #[trigger] lookup_projected(d[i], w[i])
}

pub open spec fn body_projected(d: event::MessageBody, w: wire::Message) -> bool {
    &&& w.header.is_some() && header_projected(d.header, w.header.unwrap())
    &&& keys_copied(d.account_keys@, w.account_keys@)
    &&& w.recent_blockhash@ == d.recent_blockhash@
    &&& instructions_projected(d.instructions@, w.instructions@)
}

/// A legacy message is unversioned with no lookups; a versioned one carries its lookups.
pub open spec fn message_projected(d: event::SanitizedMessage, w: wire::Message) -> bool {
    match d {
        event::SanitizedMessage::Legacy(b) => body_projected(b, w) && !w.versioned
            && w.address_table_lookups@.len() == 0,
        event::SanitizedMessage::V0(b, l) => body_projected(b, w) && w.versioned
            && lookups_projected(l@, w.address_table_lookups@),
    }
}

pub open spec fn transaction_projected(d: event::SanitizedTransaction, w: wire::Transaction) -> bool {
    &&& keys_copied(d.signatures@, w.signatures@)
    &&& w.message.is_some() && message_projected(d.message, w.message.unwrap())
}

pub open spec fn inner_instruction_projected(d: event::InnerInstruction, w: wire::InnerInstruction) -> bool {
    &&& w.program_id_index == d.instruction.program_id_index as u32
    &&& w.accounts@ == d.instruction.accounts@
    &&& w.data@ == d.instruction.data@
    &&& w.stack_height == d.stack_height
}

pub open spec fn inner_list_projected(d: Seq<event::InnerInstruction>, w: Seq<wire::InnerInstruction>) -> bool {
    &&& w.len() == d.len()
    &&& forall|i: int| 0 <= i < d.len() ==> #[trigger] inner_instruction_projected(d[i], w[i])
}

pub open spec fn inner_group_projected(d: event::InnerInstructions, w: wire::InnerInstructions) -> bool {
    &&& w.index == d.index as u32
    &&& inner_list_projected(d.instructions@, w.instructions@)
}

pub open spec fn inner_groups_projected(d: Seq<event::InnerInstructions>, w: Seq<wire::InnerInstructions>) -> bool {
    &&& w.len() == d.len()
    &&& forall|i: int| 0 <= i < d.len() ==> #[trigger] inner_group_projected(d[i], w[i])
}

pub open spec fn token_balance_projected(d: event::TransactionTokenBalance, w: wire::TokenBalance) -> bool {
    &&& w.account_index == d.account_index as u32
    &&& w.mint@ == d.mint@
    &&& w.ui_token_amount.is_some()
    &&& w.ui_token_amount.unwrap().decimals == d.ui_token_amount.decimals as u32
    &&& w.ui_token_amount.unwrap().amount@ == d.ui_token_amount.amount@
    &&& w.ui_token_amount.unwrap().ui_amount_string@ == d.ui_token_amount.ui_amount_string@
    &&& w.owner@ == d.owner@
    &&& w.program_id@ == d.program_id@
}

pub open spec fn token_balances_projected(d: Seq<event::TransactionTokenBalance>, w: Seq<wire::TokenBalance>) -> bool {
    &&& w.len() == d.len()
    &&& forall|i: int| 0 <= i < d.len() ==> #[trigger] token_balance_projected(d[i], w[i])
}

pub open spec fn reward_projected(d: event::Reward, w: wire::Reward) -> bool {
    &&& w.pubkey@ == d.pubkey@
    &&& w.lamports == d.lamports
    &&& w.post_balance == d.post_balance
    &&& w.reward_type == reward_type_code(d.reward_type)
    &&& w.commission@ == commission_text(d.commission)
}

pub open spec fn rewards_projected(d: Seq<event::Reward>, w: Seq<wire::Reward>) -> bool {
    &&& w.len() == d.len()
    &&& forall|i: int| 0 <= i < d.len() ==> #[trigger] reward_projected(d[i], w[i])
}

/// An optional list goes on the wire as a list, empty when absent, and a flag
/// that tells "absent" from "empty".
pub open spec fn opt_list_len<T>(o: Option<Vec<T>>) -> nat {
    match o {
        Some(v) => v@.len(),
        None => 0,
    }
}

pub open spec fn meta_projected(d: event::TransactionStatusMeta, w: wire::TransactionStatusMeta) -> bool {
    &&& match d.status_error {
        None => w.err.is_none(),
        Some(e) => w.err.is_some() && w.err.unwrap().err@ == e@,
    }
    &&& w.fee == d.fee
    &&& w.pre_balances@ == d.pre_balances@
    &&& w.post_balances@ == d.post_balances@
    &&& w.inner_instructions_none == d.inner_instructions.is_none()
    &&& match d.inner_instructions {
        Some(v) => inner_groups_projected(v@, w.inner_instructions@),
        None => w.inner_instructions@.len() == 0,
    }
    &&& w.log_messages_none == d.log_messages.is_none()
    &&& match d.log_messages {
        Some(v) => strings_copied(v@, w.log_messages@),
        None => w.log_messages@.len() == 0,
    }
    &&& match d.pre_token_balances {
        Some(v) => token_balances_projected(v@, w.pre_token_balances@),
        None => w.pre_token_balances@.len() == 0,
    }
    &&& match d.post_token_balances {
        Some(v) => token_balances_projected(v@, w.post_token_balances@),
        None => w.post_token_balances@.len() == 0,
    }
    &&& match d.rewards {
        Some(v) => rewards_projected(v@, w.rewards@),
        None => w.rewards@.len() == 0,
    }
    &&& keys_copied(d.loaded_addresses.writable@, w.loaded_writable_addresses@)
    &&& keys_copied(d.loaded_addresses.readonly@, w.loaded_readonly_addresses@)
    &&& w.return_data_none == d.return_data.is_none()
    &&& match d.return_data {
        Some(r) => w.return_data.is_some() && w.return_data.unwrap().program_id@ == r.program_id@
            && w.return_data.unwrap().data@ == r.data@,
        None => w.return_data.is_none(),
    }
    &&& w.compute_units_consumed == d.compute_units_consumed
}

pub fn header_to_wire(h: &event::MessageHeader) -> (r: wire::MessageHeader)
    ensures
        header_projected(*h, r),
{
    wire::MessageHeader {
        num_required_signatures: h.num_required_signatures as u32,
        num_readonly_signed_accounts: h.num_readonly_signed_accounts as u32,
        num_readonly_unsigned_accounts: h.num_readonly_unsigned_accounts as u32,
    }
}

pub fn instruction_to_wire(ix: &event::CompiledInstruction) -> (r: wire::CompiledInstruction)
    ensures
        instruction_projected(*ix, r),
{
    wire::CompiledInstruction {
        program_id_index: ix.program_id_index as u32,
        accounts: copy_bytes(&ix.accounts),
        data: copy_bytes(&ix.data),
    }
}

pub fn instructions_to_wire(v: &Vec<event::CompiledInstruction>) -> (r: Vec<wire::CompiledInstruction>)
    ensures
        instructions_projected(v@, r@),
{
    let mut r: Vec<wire::CompiledInstruction> = Vec::with_capacity(v.len());
    let mut i: usize = 0;
    while i < v.len()
        invariant
            i <= v.len(),
            instructions_projected(v@.subrange(0, i as int), r@),
        decreases v.len() - i,
    {
        r.push(instruction_to_wire(&v[i]));
        i = i + 1;
    }
    assert(v@.subrange(0, v.len() as int) =~= v@);
    r
}

pub fn lookup_to_wire(l: &event::MessageAddressTableLookup) -> (r: wire::MessageAddressTableLookup)
    ensures
        lookup_projected(*l, r),
{
    wire::MessageAddressTableLookup {
        account_key: copy_bytes(&l.account_key),
        writable_indexes: copy_bytes(&l.writable_indexes),
        readonly_indexes: copy_bytes(&l.readonly_indexes),
    }
}

pub fn lookups_to_wire(v: &Vec<event::MessageAddressTableLookup>) -> (r: Vec<wire::MessageAddressTableLookup>)
    ensures
        lookups_projected(v@, r@),
{
    let mut r: Vec<wire::MessageAddressTableLookup> = Vec::with_capacity(v.len());
    let mut i: usize = 0;
    while i < v.len()
        invariant
            i <= v.len(),
            lookups_projected(v@.subrange(0, i as int), r@),
        decreases v.len() - i,
    {
        r.push(lookup_to_wire(&v[i]));
        i = i + 1;
    }
    assert(v@.subrange(0, v.len() as int) =~= v@);
    r
}

/// Projects a sanitized message; legacy messages get an empty lookup list.
pub fn message_to_wire(m: &event::SanitizedMessage) -> (r: wire::Message)
    ensures
        message_projected(*m, r),
{
    match m {
        event::SanitizedMessage::Legacy(b) => wire::Message {
            header: Some(header_to_wire(&b.header)),
            account_keys: copy_keys(&b.account_keys),
            recent_blockhash: copy_bytes(&b.recent_blockhash),
            instructions: instructions_to_wire(&b.instructions),
            versioned: false,
            address_table_lookups: Vec::new(),
        },
        event::SanitizedMessage::V0(b, l) => wire::Message {
            header: Some(header_to_wire(&b.header)),
            account_keys: copy_keys(&b.account_keys),
            recent_blockhash: copy_bytes(&b.recent_blockhash),
            instructions: instructions_to_wire(&b.instructions),
            versioned: true,
            address_table_lookups: lookups_to_wire(l),
        },
    }
}

pub fn transaction_to_wire(t: &event::SanitizedTransaction) -> (r: wire::Transaction)
    ensures
        transaction_projected(*t, r),
{
    wire::Transaction { signatures: copy_keys(&t.signatures), message: Some(message_to_wire(&t.message)) }
}

pub fn inner_instruction_to_wire(ix: &event::InnerInstruction) -> (r: wire::InnerInstruction)
    ensures
        inner_instruction_projected(*ix, r),
{
    wire::InnerInstruction {
        program_id_index: ix.instruction.program_id_index as u32,
        accounts: copy_bytes(&ix.instruction.accounts),
        data: copy_bytes(&ix.instruction.data),
        stack_height: ix.stack_height,
    }
}

pub fn inner_group_to_wire(g: &event::InnerInstructions) -> (r: wire::InnerInstructions)
    ensures
        inner_group_projected(*g, r),
{
    let v = &g.instructions;
    let mut r: Vec<wire::InnerInstruction> = Vec::with_capacity(v.len());
    let mut i: usize = 0;
    while i < v.len()
        invariant
            i <= v.len(),
            inner_list_projected(v@.subrange(0, i as int), r@),
        decreases v.len() - i,
    {
        r.push(inner_instruction_to_wire(&v[i]));
        i = i + 1;
    }
    assert(v@.subrange(0, v.len() as int) =~= v@);
    wire::InnerInstructions { index: g.index as u32, instructions: r }
}

pub fn inner_groups_to_wire(v: &Vec<event::InnerInstructions>) -> (r: Vec<wire::InnerInstructions>)
    ensures
        inner_groups_projected(v@, r@),
{
    let mut r: Vec<wire::InnerInstructions> = Vec::with_capacity(v.len());
    let mut i: usize = 0;
    while i < v.len()
        invariant
            i <= v.len(),
            inner_groups_projected(v@.subrange(0, i as int), r@),
        decreases v.len() - i,
    {
        r.push(inner_group_to_wire(&v[i]));
        i = i + 1;
    }
    assert(v@.subrange(0, v.len() as int) =~= v@);
    r
}

pub fn token_balance_to_wire(b: &event::TransactionTokenBalance) -> (r: wire::TokenBalance)
    ensures
        token_balance_projected(*b, r),
{
    wire::TokenBalance {
        account_index: b.account_index as u32,
        mint: b.mint.clone(),
        ui_token_amount: Some(wire::UiTokenAmount {
            decimals: b.ui_token_amount.decimals as u32,
            amount: b.ui_token_amount.amount.clone(),
            ui_amount_string: b.ui_token_amount.ui_amount_string.clone(),
        }),
        owner: b.owner.clone(),
        program_id: b.program_id.clone(),
    }
}

pub fn token_balances_to_wire(v: &Vec<event::TransactionTokenBalance>) -> (r: Vec<wire::TokenBalance>)
    ensures
        token_balances_projected(v@, r@),
{
    let mut r: Vec<wire::TokenBalance> = Vec::with_capacity(v.len());
    let mut i: usize = 0;
    while i < v.len()
        invariant
            i <= v.len(),
            token_balances_projected(v@.subrange(0, i as int), r@),
        decreases v.len() - i,
    {
        r.push(token_balance_to_wire(&v[i]));
        i = i + 1;
    }
    assert(v@.subrange(0, v.len() as int) =~= v@);
    r
}

pub fn reward_to_wire(rw: &event::Reward) -> (r: wire::Reward)
    ensures
        reward_projected(*rw, r),
{
    let reward_type = match rw.reward_type {
        None => wire::REWARD_TYPE_UNSPECIFIED,
        Some(event::RewardType::Fee) => wire::REWARD_TYPE_FEE,
        Some(event::RewardType::Rent) => wire::REWARD_TYPE_RENT,
        Some(event::RewardType::Staking) => wire::REWARD_TYPE_STAKING,
        Some(event::RewardType::Voting) => wire::REWARD_TYPE_VOTING,
    };
    let commission = match rw.commission {
        Some(c) => u8_to_decimal(c),
        None => String::new(),
    };
    wire::Reward {
        pubkey: rw.pubkey.clone(),
        lamports: rw.lamports,
        post_balance: rw.post_balance,
        reward_type,
        commission,
    }
}

pub fn rewards_to_wire(v: &Vec<event::Reward>) -> (r: Vec<wire::Reward>)
    ensures
        rewards_projected(v@, r@),
{
    let mut r: Vec<wire::Reward> = Vec::with_capacity(v.len());
    let mut i: usize = 0;
    while i < v.len()
        invariant
            i <= v.len(),
            rewards_projected(v@.subrange(0, i as int), r@),
        decreases v.len() - i,
    {
        r.push(reward_to_wire(&v[i]));
        i = i + 1;
    }
    assert(v@.subrange(0, v.len() as int) =~= v@);
    r
}

/// Projects execution metadata: the error as its encoded bytes, absent on
/// success, and each optional list as a list plus an "absent" flag.
pub fn meta_to_wire(m: &event::TransactionStatusMeta) -> (r: wire::TransactionStatusMeta)
    ensures
        meta_projected(*m, r),
{
    let err = match &m.status_error {
        None => None,
        Some(e) => Some(wire::TransactionError { err: copy_bytes(e) }),
    };
    let inner_instructions = match &m.inner_instructions {
        Some(v) => inner_groups_to_wire(v),
        None => Vec::new(),
    };
    let log_messages = match &m.log_messages {
        Some(v) => copy_strings(v),
        None => Vec::new(),
    };
    let pre_token_balances = match &m.pre_token_balances {
        Some(v) => token_balances_to_wire(v),
        None => Vec::new(),
    };
    let post_token_balances = match &m.post_token_balances {
        Some(v) => token_balances_to_wire(v),
        None => Vec::new(),
    };
    let rewards = match &m.rewards {
        Some(v) => rewards_to_wire(v),
        None => Vec::new(),
    };
    let return_data = match &m.return_data {
        Some(d) => Some(wire::ReturnData { program_id: copy_bytes(&d.program_id), data: copy_bytes(&d.data) }),
        None => None,
    };
    wire::TransactionStatusMeta {
        err,
        fee: m.fee,
        pre_balances: copy_u64s(&m.pre_balances),
        post_balances: copy_u64s(&m.post_balances),
        inner_instructions,
        inner_instructions_none: m.inner_instructions.is_none(),
        log_messages,
        log_messages_none: m.log_messages.is_none(),
        pre_token_balances,
        post_token_balances,
        rewards,
        loaded_writable_addresses: copy_keys(&m.loaded_addresses.writable),
        loaded_readonly_addresses: copy_keys(&m.loaded_addresses.readonly),
        return_data,
        return_data_none: m.return_data.is_none(),
        compute_units_consumed: m.compute_units_consumed,
    }
}

pub open spec fn tx_info_projected(d: event::MessageTransactionInfo, w: wire::SubscribeUpdateTransactionInfo) -> bool {
    &&& w.signature@ == d.signature@
    &&& w.is_vote == d.is_vote
    &&& w.transaction.is_some() && transaction_projected(d.transaction, w.transaction.unwrap())
    &&& w.meta.is_some() && meta_projected(d.meta, w.meta.unwrap())
    &&& w.index == d.index
}

pub open spec fn tx_infos_projected(d: Seq<event::MessageTransactionInfo>, w: Seq<wire::SubscribeUpdateTransactionInfo>) -> bool {
    &&& w.len() == d.len()
    &&& forall|i: int| 0 <= i < d.len() ==> #[trigger] tx_info_projected(d[i], w[i])
}

pub open spec fn account_projected(d: event::MessageAccountInfo, w: wire::SubscribeUpdateAccountInfo) -> bool {
    &&& w.pubkey@ == d.pubkey@
    &&& w.lamports == d.lamports
    &&& w.owner@ == d.owner@
    &&& w.executable == d.executable
    &&& w.rent_epoch == d.rent_epoch
    &&& w.data@ == d.data@
    &&& w.write_version == d.write_version
    &&& opt_bytes(w.txn_signature) == opt_bytes(d.txn_signature)
}

pub open spec fn block_time_projected(d: Option<i64>, w: Option<wire::UnixTimestamp>) -> bool {
    match d {
        Some(t) => w.is_some() && w.unwrap().timestamp == t,
        None => w.is_none(),
    }
}

pub open spec fn block_height_projected(d: Option<u64>, w: Option<wire::BlockHeight>) -> bool {
    match d {
        Some(h) => w.is_some() && w.unwrap().block_height == h,
        None => w.is_none(),
    }
}

pub open spec fn block_rewards_projected(d: Seq<event::Reward>, w: Option<wire::Rewards>) -> bool {
    w.is_some() && rewards_projected(d, w.unwrap().rewards@)
}

/// The wire payload of an event: every kind maps to the payload of the same
/// kind, field for field.
pub open spec fn update_projected(m: event::Message, u: wire::UpdateOneof) -> bool {
    match m {
        event::Message::Slot(s) => match u {
            wire::UpdateOneof::Slot(w) => w.slot == s.slot && w.parent == s.parent
                && w.status == slot_status_code(s.status),
            _ => false,
        },
        event::Message::Account(a) => match u {
            wire::UpdateOneof::Account(w) => w.account.is_some() && account_projected(a.account, w.account.unwrap())
                && w.slot == a.slot && w.is_startup == a.is_startup,
            _ => false,
        },
        event::Message::Transaction(t) => match u {
            wire::UpdateOneof::Transaction(w) => w.transaction.is_some()
                && tx_info_projected(t.transaction, w.transaction.unwrap()) && w.slot == t.slot,
            _ => false,
        },
        event::Message::Block(b) => match u {
            wire::UpdateOneof::Block(w) => w.slot == b.slot && w.blockhash@ == b.blockhash@
                && block_rewards_projected(b.rewards@, w.rewards)
                && block_time_projected(b.block_time, w.block_time)
                && block_height_projected(b.block_height, w.block_height)
                && tx_infos_projected(b.transactions@, w.transactions@)
                && w.parent_slot == b.parent_slot && w.parent_blockhash@ == b.parent_blockhash@,
            _ => false,
        },
        event::Message::BlockMeta(b) => match u {
            wire::UpdateOneof::BlockMeta(w) => w.slot == b.slot && w.blockhash@ == b.blockhash@
                && block_rewards_projected(b.rewards@, w.rewards)
                && block_time_projected(b.block_time, w.block_time)
                && block_height_projected(b.block_height, w.block_height)
                && w.parent_slot == b.parent_slot && w.parent_blockhash@ == b.parent_blockhash@
                && w.executed_transaction_count == b.executed_transaction_count,
            _ => false,
        },
    }
}

pub fn tx_info_to_wire(t: &event::MessageTransactionInfo) -> (r: wire::SubscribeUpdateTransactionInfo)
    ensures
        tx_info_projected(*t, r),
{
    wire::SubscribeUpdateTransactionInfo {
        signature: copy_bytes(&t.signature),
        is_vote: t.is_vote,
        transaction: Some(transaction_to_wire(&t.transaction)),
        meta: Some(meta_to_wire(&t.meta)),
        index: t.index,
    }
}

pub fn tx_infos_to_wire(v: &Vec<event::MessageTransactionInfo>) -> (r: Vec<wire::SubscribeUpdateTransactionInfo>)
    ensures
        tx_infos_projected(v@, r@),
{
    let mut r: Vec<wire::SubscribeUpdateTransactionInfo> = Vec::with_capacity(v.len());
    let mut i: usize = 0;
    while i < v.len()
        invariant
            i <= v.len(),
            tx_infos_projected(v@.subrange(0, i as int), r@),
        decreases v.len() - i,
    {
        r.push(tx_info_to_wire(&v[i]));
        i = i + 1;
    }
    assert(v@.subrange(0, v.len() as int) =~= v@);
    r
}

fn block_time_to_wire(t: Option<i64>) -> (r: Option<wire::UnixTimestamp>)
    ensures
        block_time_projected(t, r),
{
    match t {
        Some(timestamp) => Some(wire::UnixTimestamp { timestamp }),
        None => None,
    }
}

fn block_height_to_wire(h: Option<u64>) -> (r: Option<wire::BlockHeight>)
    ensures
        block_height_projected(h, r),
{
    match h {
        Some(block_height) => Some(wire::BlockHeight { block_height }),
        None => None,
    }
}

/// Projects a ledger event to its wire payload.
pub fn update_oneof_from(m: &event::Message) -> (r: wire::UpdateOneof)
    ensures
        update_projected(*m, r),
{
    match m {
        event::Message::Slot(s) => wire::UpdateOneof::Slot(wire::SubscribeUpdateSlot {
            slot: s.slot,
            parent: s.parent,
            status: slot_status_to_wire(s.status),
        }),
        event::Message::Account(a) => wire::UpdateOneof::Account(wire::SubscribeUpdateAccount {
            account: Some(wire::SubscribeUpdateAccountInfo {
                pubkey: copy_bytes(&a.account.pubkey),
                lamports: a.account.lamports,
                owner: copy_bytes(&a.account.owner),
                executable: a.account.executable,
                rent_epoch: a.account.rent_epoch,
                data: copy_bytes(&a.account.data),
                write_version: a.account.write_version,
                txn_signature: copy_opt_bytes(&a.account.txn_signature),
            }),
            slot: a.slot,
            is_startup: a.is_startup,
        }),
        event::Message::Transaction(t) => wire::UpdateOneof::Transaction(wire::SubscribeUpdateTransaction {
            transaction: Some(tx_info_to_wire(&t.transaction)),
            slot: t.slot,
        }),
        event::Message::Block(b) => wire::UpdateOneof::Block(wire::SubscribeUpdateBlock {
            slot: b.slot,
            blockhash: b.blockhash.clone(),
            rewards: Some(wire::Rewards { rewards: rewards_to_wire(&b.rewards) }),
            block_time: block_time_to_wire(b.block_time),
            block_height: block_height_to_wire(b.block_height),
            transactions: tx_infos_to_wire(&b.transactions),
            parent_slot: b.parent_slot,
            parent_blockhash: b.parent_blockhash.clone(),
        }),
        event::Message::BlockMeta(b) => wire::UpdateOneof::BlockMeta(wire::SubscribeUpdateBlockMeta {
            slot: b.slot,
            blockhash: b.blockhash.clone(),
            rewards: Some(wire::Rewards { rewards: rewards_to_wire(&b.rewards) }),
            block_time: block_time_to_wire(b.block_time),
            block_height: block_height_to_wire(b.block_height),
            parent_slot: b.parent_slot,
            parent_blockhash: b.parent_blockhash.clone(),
            executed_transaction_count: b.executed_transaction_count,
        }),
    }
}

} // verus!
