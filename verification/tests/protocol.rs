use pallet_abstractions::extrinsics::{extrinsic_filter, Extrinsic, RuntimeCall};
use pallet_abstractions::pending::{Action, Event, PendingBlock};

fn transact(transaction: u32) -> Extrinsic<u32> {
    Extrinsic { function: RuntimeCall::Ethereum(transaction) }
}

fn other() -> Extrinsic<u32> {
    Extrinsic { function: RuntimeCall::Other }
}

#[test]
fn the_filter_keeps_the_ethereum_transactions_in_order() {
    let xts = vec![other(), transact(7), transact(3), other(), other(), transact(7), transact(1)];
    assert_eq!(extrinsic_filter(xts), vec![7, 3, 7, 1]);
}

#[test]
fn the_filter_of_nothing_or_of_other_calls_is_empty() {
    assert_eq!(extrinsic_filter(Vec::<Extrinsic<u32>>::new()), Vec::<u32>::new());
    assert_eq!(extrinsic_filter(vec![other(), other()]), Vec::<u32>::new());
}

#[test]
fn the_filter_keeps_everything_where_every_call_matches() {
    let xts: Vec<Extrinsic<u32>> = (0..5).map(transact).collect();
    assert_eq!(extrinsic_filter(xts), vec![0, 1, 2, 3, 4]);
}

#[test]
fn the_filter_hands_the_payloads_over_as_they_are() {
    let xts = vec![
        Extrinsic { function: RuntimeCall::Ethereum(vec![1u8, 2, 3]) },
        Extrinsic { function: RuntimeCall::Other },
        Extrinsic { function: RuntimeCall::Ethereum(Vec::new()) },
    ];
    assert_eq!(extrinsic_filter(xts), vec![vec![1u8, 2, 3], Vec::new()]);
}

#[test]
fn a_failing_transaction_is_left_out_and_the_simulation_goes_on() {
    let machine = PendingBlock::new(3, 41);
    assert_eq!(machine.action(), Action::InitializeBlock);
    let (machine, action) = machine.step(Event::Initialized);
    assert_eq!(action, Action::ApplyExtrinsic(0));
    let (machine, action) = machine.step(Event::Applied(true));
    assert_eq!(action, Action::ApplyExtrinsic(1));
    let (machine, action) = machine.step(Event::Applied(false));
    assert_eq!(action, Action::ApplyExtrinsic(2));
    let (machine, action) = machine.step(Event::Applied(true));
    assert_eq!(action, Action::Finalize(42));
    assert_eq!(machine.included(), &vec![0, 2]);
    assert_eq!(machine.omitted(), 1);
    assert!(!machine.is_done());
    let (machine, action) = machine.step(Event::Finalized);
    assert_eq!(action, Action::ReadBack);
    let (machine, action) = machine.step(Event::Snapshot);
    assert_eq!(action, Action::Return);
    assert!(machine.is_done());
    assert_eq!(machine.included(), &vec![0, 2]);
    assert_eq!(machine.omitted(), 1);
}

#[test]
fn a_simulation_without_transactions_finalizes_at_once() {
    let (machine, action) = PendingBlock::new(0, 0).step(Event::Initialized);
    assert_eq!(action, Action::Finalize(1));
    assert!(machine.included().is_empty());
    assert_eq!(machine.omitted(), 0);
}

#[test]
fn a_simulation_in_which_nothing_applies_still_finalizes() {
    let (mut machine, mut action) = PendingBlock::new(4, 9).step(Event::Initialized);
    for i in 0..4 {
        assert_eq!(action, Action::ApplyExtrinsic(i));
        (machine, action) = machine.step(Event::Applied(false));
    }
    assert_eq!(action, Action::Finalize(10));
    assert!(machine.included().is_empty());
    assert_eq!(machine.omitted(), 4);
}

#[test]
fn a_report_that_answers_nothing_changes_nothing() {
    let machine = PendingBlock::new(2, 5);
    let (machine, action) = machine.step(Event::Applied(true));
    assert_eq!(action, Action::InitializeBlock);
    let (machine, action) = machine.step(Event::Finalized);
    assert_eq!(action, Action::InitializeBlock);
    let (machine, action) = machine.step(Event::Initialized);
    assert_eq!(action, Action::ApplyExtrinsic(0));
    let (machine, action) = machine.step(Event::Initialized);
    assert_eq!(action, Action::ApplyExtrinsic(0));
    let (machine, action) = machine.step(Event::Snapshot);
    assert_eq!(action, Action::ApplyExtrinsic(0));
    assert!(machine.included().is_empty());
    let (machine, _) = machine.step(Event::Applied(true));
    let (machine, action) = machine.step(Event::Applied(true));
    assert_eq!(action, Action::Finalize(6));
    let (machine, action) = machine.step(Event::Applied(true));
    assert_eq!(action, Action::Finalize(6));
    assert_eq!(machine.included(), &vec![0, 1]);
    let (machine, _) = machine.step(Event::Finalized);
    let (machine, _) = machine.step(Event::Snapshot);
    let (machine, action) = machine.step(Event::Initialized);
    assert_eq!(action, Action::Return);
    assert!(machine.is_done());
}

#[test]
fn the_block_is_finalized_one_above_the_current_height() {
    let (_, action) = PendingBlock::new(0, u64::MAX - 1).step(Event::Initialized);
    assert_eq!(action, Action::Finalize(u64::MAX));
}
