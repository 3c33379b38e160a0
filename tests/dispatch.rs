use geyser_grpc::dispatch::{Dispatcher, SendOutcome};
use geyser_grpc::event::{MessageAccountInfo, SlotStatus, SubscribeUpdateSlotStatus};
use geyser_grpc::session::{
    add_client_failed_status, admissible, apply_control, keepalive_continues, lagged_status,
    ping_update, reader_step, Code, ControlMessage, IdAllocator, ReaderAction, ReaderInput,
};
use geyser_grpc::wire::{SubscribeUpdate, UpdateOneof};
use geyser_grpc::{Message, MessageAccount, MessageSlot};

/// A bounded outbound queue for the tests: it holds what was enqueued.
struct TestQueue {
    capacity: usize,
    items: Vec<SubscribeUpdate>,
    closed: bool,
}

impl TestQueue {
    fn new(capacity: usize) -> TestQueue {
        TestQueue { capacity, items: Vec::new(), closed: false }
    }

    fn try_send(&mut self, u: SubscribeUpdate) -> SendOutcome {
        if self.closed {
            SendOutcome::Closed
        } else if self.items.len() >= self.capacity {
            SendOutcome::Full
        } else {
            self.items.push(u);
            SendOutcome::Accepted
        }
    }
}

fn account_event(owner: u8, slot: u64) -> Message {
    Message::Account(MessageAccount {
        account: MessageAccountInfo {
            pubkey: vec![9; 32],
            lamports: 10,
            owner: vec![owner; 32],
            executable: false,
            rent_epoch: 0,
            data: vec![1, 2, 3],
            write_version: 1,
            txn_signature: None,
        },
        slot,
        is_startup: false,
    })
}

/// The filter of these tests: matches accounts whose owner's first byte is
/// the given value, under the given label.
fn labels_for(filter: &Option<(u8, String)>, m: &Message) -> Vec<String> {
    match (filter, m) {
        (Some((owner, label)), Message::Account(a)) if a.account.owner[0] == *owner => {
            vec![label.clone()]
        }
        _ => vec![],
    }
}

/// Runs one event through the table: offer, enqueue, settle. Returns the
/// ids evicted for lagging.
fn dispatch(
    d: &mut Dispatcher<(u8, String), usize>,
    queues: &mut Vec<TestQueue>,
    m: &Message,
) -> Vec<u64> {
    let mut outcomes = Vec::new();
    for i in 0..d.len() {
        let s = d.subscriber(i);
        let labels = labels_for(&s.filter, m);
        let q = s.outbound;
        let outcome = match d.deliver(i, labels, m) {
            Some(u) => queues[q].try_send(u),
            None => SendOutcome::Skipped,
        };
        outcomes.push(outcome);
    }
    d.settle(&outcomes).into_iter().map(|e| e.id).collect()
}

fn account_slot(u: &SubscribeUpdate) -> u64 {
    match &u.update_oneof {
        Some(UpdateOneof::Account(a)) => a.slot,
        _ => panic!("not an account update"),
    }
}

#[test]
fn basic_delivery() {
    let mut d: Dispatcher<(u8, String), usize> = Dispatcher::new();
    let mut queues = vec![TestQueue::new(16)];
    d.register(0, 0);
    assert!(d.update_filter(0, (7, "a".to_string())));
    dispatch(&mut d, &mut queues, &account_event(7, 7));
    assert_eq!(queues[0].items.len(), 1);
    let u = &queues[0].items[0];
    assert_eq!(u.filters, vec!["a".to_string()]);
    assert_eq!(account_slot(u), 7);
    match &u.update_oneof {
        Some(UpdateOneof::Account(a)) => {
            let info = a.account.as_ref().unwrap();
            assert_eq!(info.owner, vec![7; 32]);
            assert_eq!(info.pubkey, vec![9; 32]);
            assert_eq!(info.data, vec![1, 2, 3]);
        }
        _ => panic!("not an account update"),
    }
}

#[test]
fn slow_consumer_eviction() {
    let mut d: Dispatcher<(u8, String), usize> = Dispatcher::new();
    let mut queues = vec![TestQueue::new(2)];
    d.register(0, 0);
    d.update_filter(0, (1, "a".to_string()));
    assert_eq!(d.connections_total(), 1);
    assert!(dispatch(&mut d, &mut queues, &account_event(1, 1)).is_empty());
    assert!(dispatch(&mut d, &mut queues, &account_event(1, 2)).is_empty());
    let evicted = dispatch(&mut d, &mut queues, &account_event(1, 3));
    assert_eq!(evicted, vec![0]);
    assert_eq!(queues[0].items.len(), 2);
    assert_eq!(account_slot(&queues[0].items[0]), 1);
    assert_eq!(account_slot(&queues[0].items[1]), 2);
    assert_eq!(d.len(), 0);
    assert_eq!(d.connections_total(), 0);
    let status = lagged_status();
    assert_eq!(status.code, Code::Internal);
    assert_eq!(status.message, "lagged");
    // a later event finds nobody to evict again
    assert!(dispatch(&mut d, &mut queues, &account_event(1, 4)).is_empty());
}

#[test]
fn filter_update() {
    let mut d: Dispatcher<(u8, String), usize> = Dispatcher::new();
    let mut queues = vec![TestQueue::new(16)];
    d.register(0, 0);
    let e = account_event(3, 5);
    dispatch(&mut d, &mut queues, &e);
    assert!(queues[0].items.is_empty());
    assert!(d.update_filter(0, (3, "f1".to_string())));
    dispatch(&mut d, &mut queues, &e);
    assert_eq!(queues[0].items.len(), 1);
    assert_eq!(queues[0].items[0].filters, vec!["f1".to_string()]);
}

#[test]
fn bad_filter() {
    let action: ReaderAction<u8> =
        reader_step(ReaderInput::Request(Err("too many account filters".to_string())));
    match action {
        ReaderAction::Fail(s) => {
            assert_eq!(s.code, Code::InvalidArgument);
            assert_eq!(s.message, "failed to create filter: too many account filters");
        }
        _ => panic!("expected a terminal status"),
    }
    assert!(matches!(reader_step(ReaderInput::Request(Ok(4u8))), ReaderAction::UpdateFilter(4)));
    assert!(matches!(reader_step::<u8>(ReaderInput::End), ReaderAction::Exit));
}

#[test]
fn keepalive() {
    let p = ping_update();
    assert!(p.filters.is_empty());
    assert!(matches!(p.update_oneof, Some(UpdateOneof::Ping(_))));
    assert!(keepalive_continues(SendOutcome::Accepted));
    assert!(keepalive_continues(SendOutcome::Full));
    assert!(!keepalive_continues(SendOutcome::Closed));
}

#[test]
fn per_subscriber_ordering() {
    let mut d: Dispatcher<(u8, String), usize> = Dispatcher::new();
    let mut queues = vec![TestQueue::new(16), TestQueue::new(16)];
    d.register(0, 0);
    d.register(1, 1);
    d.update_filter(0, (1, "a".to_string()));
    d.update_filter(1, (2, "b".to_string()));
    for slot in 0..6u64 {
        let owner = if slot % 2 == 0 { 1 } else { 2 };
        dispatch(&mut d, &mut queues, &account_event(owner, slot));
    }
    let a: Vec<u64> = queues[0].items.iter().map(account_slot).collect();
    let b: Vec<u64> = queues[1].items.iter().map(account_slot).collect();
    assert_eq!(a, vec![0, 2, 4]);
    assert_eq!(b, vec![1, 3, 5]);
}

#[test]
fn lagging_subscriber_does_not_disturb_another() {
    let mut d: Dispatcher<(u8, String), usize> = Dispatcher::new();
    let mut queues = vec![TestQueue::new(100), TestQueue::new(0)];
    d.register(0, 0);
    d.register(1, 1);
    d.update_filter(0, (1, "a".to_string()));
    d.update_filter(1, (1, "b".to_string()));
    let evicted = dispatch(&mut d, &mut queues, &account_event(1, 1));
    assert_eq!(evicted, vec![1]);
    for slot in 2..5u64 {
        assert!(dispatch(&mut d, &mut queues, &account_event(1, slot)).is_empty());
    }
    assert_eq!(queues[0].items.len(), 4);
    assert_eq!(d.len(), 1);
    assert_eq!(d.subscriber(0).id, 0);
    assert_eq!(d.connections_total(), 1);
}

#[test]
fn closed_queue_is_removed_silently() {
    let mut d: Dispatcher<(u8, String), usize> = Dispatcher::new();
    let mut queues = vec![TestQueue::new(4), TestQueue::new(4)];
    d.register(0, 0);
    d.register(1, 1);
    d.update_filter(0, (1, "a".to_string()));
    d.update_filter(1, (1, "a".to_string()));
    queues[0].closed = true;
    let evicted = dispatch(&mut d, &mut queues, &account_event(1, 1));
    assert!(evicted.is_empty());
    assert_eq!(d.len(), 1);
    assert_eq!(d.subscriber(0).id, 1);
    assert_eq!(d.connections_total(), 1);
    // an update for a removed subscriber is dropped
    assert!(!d.update_filter(0, (1, "z".to_string())));
}

#[test]
fn ids_are_fresh_and_increasing() {
    let mut ids = IdAllocator::new();
    assert_eq!(ids.allocate(), Some(0));
    assert_eq!(ids.allocate(), Some(1));
    assert_eq!(ids.allocate(), Some(2));
    let mut d: Dispatcher<(u8, String), usize> = Dispatcher::new();
    d.register(5, 0);
    assert_eq!(d.next_fresh_id(), 6);
    let stale: ControlMessage<(u8, String), usize> = ControlMessage::Register { id: 5, outbound: 1 };
    assert!(!admissible(&d, &stale));
    let fresh: ControlMessage<(u8, String), usize> = ControlMessage::Register { id: 6, outbound: 1 };
    assert!(admissible(&d, &fresh));
    apply_control(&mut d, fresh);
    assert_eq!(d.connections_total(), 2);
    apply_control(&mut d, ControlMessage::UpdateFilter { id: 6, filter: (1, "x".to_string()) });
    assert_eq!(d.subscriber(1).filter, Some((1, "x".to_string())));
    assert_eq!(d.subscriber(0).filter, None);
    assert_eq!(d.connections_total(), d.len() as u64);
}

#[test]
fn registration_lost_status() {
    let s = add_client_failed_status();
    assert_eq!(s.code, Code::Internal);
    assert_eq!(s.message, "failed to add client");
}

#[test]
fn slot_event_renames_rooted() {
    let s = MessageSlot::new(10, Some(9), SlotStatus::Rooted);
    assert_eq!(s.status, SubscribeUpdateSlotStatus::Finalized);
    assert_eq!(MessageSlot::new(1, None, SlotStatus::Processed).status, SubscribeUpdateSlotStatus::Processed);
    assert_eq!(MessageSlot::new(1, None, SlotStatus::Confirmed).status, SubscribeUpdateSlotStatus::Confirmed);
    let mut d: Dispatcher<(u8, String), usize> = Dispatcher::new();
    d.register(0, 0);
    d.update_filter(0, (0, "s".to_string()));
    let u = d.deliver(0, vec!["s".to_string()], &Message::Slot(s)).unwrap();
    match u.update_oneof {
        Some(UpdateOneof::Slot(w)) => {
            assert_eq!(w.slot, 10);
            assert_eq!(w.parent, Some(9));
            assert_eq!(w.status, 2);
        }
        _ => panic!("not a slot update"),
    }
    assert!(d.deliver(0, vec![], &Message::Slot(MessageSlot::new(1, None, SlotStatus::Processed))).is_none());
}
