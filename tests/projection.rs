use geyser_grpc::event::{
    CompiledInstruction, InnerInstruction, InnerInstructions, LoadedAddresses, MessageBody,
    MessageHeader, MessageAddressTableLookup, ReplicaAccountInfo, ReplicaBlockInfo, Reward,
    RewardType, SanitizedMessage, SanitizedTransaction, TransactionReturnData,
    TransactionStatusMeta, TransactionTokenBalance, UiTokenAmount,
};
use geyser_grpc::project::{meta_to_wire, reward_to_wire, u8_to_decimal, update_oneof_from};
use geyser_grpc::wire::UpdateOneof;
use geyser_grpc::{
    Message, MessageAccount, MessageBlock, MessageBlockMeta, MessageTransaction,
    MessageTransactionInfo,
};

fn reward(commission: Option<u8>, reward_type: Option<RewardType>) -> Reward {
    Reward { pubkey: "pk".to_string(), lamports: -5, post_balance: 100, reward_type, commission }
}

fn empty_meta() -> TransactionStatusMeta {
    TransactionStatusMeta {
        status_error: None,
        fee: 5000,
        pre_balances: vec![10, 20],
        post_balances: vec![5, 25],
        inner_instructions: None,
        log_messages: None,
        pre_token_balances: None,
        post_token_balances: None,
        rewards: None,
        loaded_addresses: LoadedAddresses { writable: vec![], readonly: vec![] },
        return_data: None,
        compute_units_consumed: None,
    }
}

fn body() -> MessageBody {
    MessageBody {
        header: MessageHeader {
            num_required_signatures: 1,
            num_readonly_signed_accounts: 0,
            num_readonly_unsigned_accounts: 2,
        },
        account_keys: vec![vec![1; 32], vec![2; 32]],
        recent_blockhash: vec![3; 32],
        instructions: vec![CompiledInstruction { program_id_index: 1, accounts: vec![0], data: vec![4, 5] }],
    }
}

fn tx_info(message: SanitizedMessage) -> MessageTransactionInfo {
    MessageTransactionInfo {
        signature: vec![8; 64],
        is_vote: true,
        transaction: SanitizedTransaction { signatures: vec![vec![8; 64]], message },
        meta: empty_meta(),
        index: 3,
    }
}

#[test]
fn commission_is_decimal_text() {
    assert_eq!(u8_to_decimal(0), "0");
    assert_eq!(u8_to_decimal(7), "7");
    assert_eq!(u8_to_decimal(10), "10");
    assert_eq!(u8_to_decimal(100), "100");
    assert_eq!(u8_to_decimal(255), "255");
    assert_eq!(reward_to_wire(&reward(Some(42), None)).commission, "42");
    assert_eq!(reward_to_wire(&reward(None, None)).commission, "");
}

#[test]
fn reward_kinds_map_to_codes() {
    assert_eq!(reward_to_wire(&reward(None, None)).reward_type, 0);
    assert_eq!(reward_to_wire(&reward(None, Some(RewardType::Fee))).reward_type, 1);
    assert_eq!(reward_to_wire(&reward(None, Some(RewardType::Rent))).reward_type, 2);
    assert_eq!(reward_to_wire(&reward(None, Some(RewardType::Staking))).reward_type, 3);
    assert_eq!(reward_to_wire(&reward(None, Some(RewardType::Voting))).reward_type, 4);
    let w = reward_to_wire(&reward(Some(1), Some(RewardType::Fee)));
    assert_eq!(w.pubkey, "pk");
    assert_eq!(w.lamports, -5);
    assert_eq!(w.post_balance, 100);
}

#[test]
fn absent_lists_are_flagged() {
    let w = meta_to_wire(&empty_meta());
    assert!(w.err.is_none());
    assert_eq!(w.fee, 5000);
    assert_eq!(w.pre_balances, vec![10, 20]);
    assert_eq!(w.post_balances, vec![5, 25]);
    assert!(w.inner_instructions.is_empty());
    assert!(w.inner_instructions_none);
    assert!(w.log_messages.is_empty());
    assert!(w.log_messages_none);
    assert!(w.return_data.is_none());
    assert!(w.return_data_none);
    assert!(w.pre_token_balances.is_empty());
    assert!(w.rewards.is_empty());
}

#[test]
fn present_lists_are_projected() {
    let mut m = empty_meta();
    m.status_error = Some(vec![1, 0, 0, 0]);
    m.inner_instructions = Some(vec![InnerInstructions {
        index: 2,
        instructions: vec![InnerInstruction {
            instruction: CompiledInstruction { program_id_index: 3, accounts: vec![1], data: vec![9] },
            stack_height: Some(2),
        }],
    }]);
    m.log_messages = Some(vec![]);
    m.pre_token_balances = Some(vec![TransactionTokenBalance {
        account_index: 1,
        mint: "mint".to_string(),
        ui_token_amount: UiTokenAmount { decimals: 6, amount: "1000".to_string(), ui_amount_string: "0.001".to_string() },
        owner: "own".to_string(),
        program_id: "prog".to_string(),
    }]);
    m.rewards = Some(vec![reward(Some(3), Some(RewardType::Staking))]);
    m.loaded_addresses = LoadedAddresses { writable: vec![vec![4; 32]], readonly: vec![] };
    m.return_data = Some(TransactionReturnData { program_id: vec![6; 32], data: vec![1] });
    m.compute_units_consumed = Some(77);
    let w = meta_to_wire(&m);
    assert_eq!(w.err.unwrap().err, vec![1, 0, 0, 0]);
    assert!(!w.inner_instructions_none);
    assert_eq!(w.inner_instructions.len(), 1);
    assert_eq!(w.inner_instructions[0].index, 2);
    assert_eq!(w.inner_instructions[0].instructions[0].program_id_index, 3);
    assert_eq!(w.inner_instructions[0].instructions[0].stack_height, Some(2));
    assert!(w.log_messages.is_empty());
    assert!(!w.log_messages_none);
    let tb = &w.pre_token_balances[0];
    assert_eq!(tb.account_index, 1);
    assert_eq!(tb.mint, "mint");
    let ui = tb.ui_token_amount.as_ref().unwrap();
    assert_eq!(ui.decimals, 6);
    assert_eq!(ui.amount, "1000");
    assert_eq!(ui.ui_amount_string, "0.001");
    assert_eq!(w.rewards[0].commission, "3");
    assert_eq!(w.rewards[0].reward_type, 3);
    assert_eq!(w.loaded_writable_addresses, vec![vec![4; 32]]);
    assert!(w.loaded_readonly_addresses.is_empty());
    assert!(!w.return_data_none);
    assert_eq!(w.return_data.unwrap().program_id, vec![6; 32]);
    assert_eq!(w.compute_units_consumed, Some(77));
}

#[test]
fn legacy_message_has_no_lookups() {
    let e = Message::Transaction(MessageTransaction::new(tx_info(SanitizedMessage::Legacy(body())), 11));
    match update_oneof_from(&e) {
        UpdateOneof::Transaction(t) => {
            assert_eq!(t.slot, 11);
            let info = t.transaction.unwrap();
            assert_eq!(info.signature, vec![8; 64]);
            assert!(info.is_vote);
            assert_eq!(info.index, 3);
            let msg = info.transaction.unwrap().message.unwrap();
            assert!(!msg.versioned);
            assert!(msg.address_table_lookups.is_empty());
            let h = msg.header.unwrap();
            assert_eq!(h.num_required_signatures, 1);
            assert_eq!(h.num_readonly_unsigned_accounts, 2);
            assert_eq!(msg.account_keys, vec![vec![1; 32], vec![2; 32]]);
            assert_eq!(msg.recent_blockhash, vec![3; 32]);
            assert_eq!(msg.instructions[0].program_id_index, 1);
            assert_eq!(msg.instructions[0].data, vec![4, 5]);
        }
        _ => panic!("not a transaction update"),
    }
}

#[test]
fn versioned_message_keeps_lookups() {
    let lookup = MessageAddressTableLookup { account_key: vec![5; 32], writable_indexes: vec![0, 1], readonly_indexes: vec![2] };
    let e = Message::Transaction(MessageTransaction::new(tx_info(SanitizedMessage::V0(body(), vec![lookup])), 12));
    match update_oneof_from(&e) {
        UpdateOneof::Transaction(t) => {
            let msg = t.transaction.unwrap().transaction.unwrap().message.unwrap();
            assert!(msg.versioned);
            assert_eq!(msg.address_table_lookups.len(), 1);
            assert_eq!(msg.address_table_lookups[0].account_key, vec![5; 32]);
            assert_eq!(msg.address_table_lookups[0].writable_indexes, vec![0, 1]);
            assert_eq!(msg.address_table_lookups[0].readonly_indexes, vec![2]);
        }
        _ => panic!("not a transaction update"),
    }
}

fn block_info() -> ReplicaBlockInfo {
    ReplicaBlockInfo {
        parent_slot: 9,
        slot: 10,
        parent_blockhash: "parent".to_string(),
        blockhash: "hash".to_string(),
        rewards: vec![reward(Some(10), Some(RewardType::Voting))],
        block_time: Some(1_700_000_000),
        block_height: None,
        executed_transaction_count: 4,
    }
}

#[test]
fn block_meta_projection() {
    let meta = MessageBlockMeta::new(&block_info());
    assert_eq!(meta.blockhash, "hash");
    assert_eq!(meta.rewards.len(), 1);
    match update_oneof_from(&Message::BlockMeta(meta)) {
        UpdateOneof::BlockMeta(b) => {
            assert_eq!(b.slot, 10);
            assert_eq!(b.parent_slot, 9);
            assert_eq!(b.blockhash, "hash");
            assert_eq!(b.parent_blockhash, "parent");
            assert_eq!(b.block_time.unwrap().timestamp, 1_700_000_000);
            assert!(b.block_height.is_none());
            assert_eq!(b.executed_transaction_count, 4);
            assert_eq!(b.rewards.unwrap().rewards[0].commission, "10");
        }
        _ => panic!("not a block-meta update"),
    }
}

#[test]
fn block_projection() {
    let meta = MessageBlockMeta::new(&block_info());
    let block = MessageBlock::new(meta, vec![tx_info(SanitizedMessage::Legacy(body()))]);
    match update_oneof_from(&Message::Block(block)) {
        UpdateOneof::Block(b) => {
            assert_eq!(b.slot, 10);
            assert_eq!(b.transactions.len(), 1);
            assert_eq!(b.transactions[0].index, 3);
            assert_eq!(b.rewards.unwrap().rewards[0].reward_type, 4);
        }
        _ => panic!("not a block update"),
    }
}

#[test]
fn account_event_copies_host_values() {
    let host = ReplicaAccountInfo {
        pubkey: vec![1; 32],
        lamports: 42,
        owner: vec![2; 32],
        executable: true,
        rent_epoch: 3,
        data: vec![7, 7],
        write_version: 9,
        txn_signature: Some(vec![5; 64]),
    };
    let a = MessageAccount::new(&host, 17, true);
    assert_eq!(a.slot, 17);
    assert!(a.is_startup);
    match update_oneof_from(&Message::Account(a)) {
        UpdateOneof::Account(w) => {
            let info = w.account.unwrap();
            assert_eq!(info.pubkey, vec![1; 32]);
            assert_eq!(info.lamports, 42);
            assert_eq!(info.owner, vec![2; 32]);
            assert!(info.executable);
            assert_eq!(info.rent_epoch, 3);
            assert_eq!(info.data, vec![7, 7]);
            assert_eq!(info.write_version, 9);
            assert_eq!(info.txn_signature, Some(vec![5; 64]));
            assert_eq!(w.slot, 17);
        }
        _ => panic!("not an account update"),
    }
}
