use std::sync::Arc;

use ipnis_api_onnxruntime::address::ContentAddress;
use ipnis_api_onnxruntime::error::ErrorKind;
use ipnis_api_onnxruntime::loader::{
    advance, check_payload, check_prefix, Action, Event, Load, Phase,
};
use ipnis_api_onnxruntime::table::SessionTable;

fn model_address() -> ContentAddress {
    ContentAddress::new([9; 32], 3)
}

/// Drives one load against a store that answers with `prefix` and `bytes`
/// and an engine that accepts everything; counts the fetches and builds.
fn get_or_build(
    table: &mut SessionTable<Arc<Vec<u8>>>,
    address: ContentAddress,
    prefix: u64,
    bytes: &[u8],
    fetches: &mut u32,
    builds: &mut u32,
) -> Result<Arc<Vec<u8>>, ErrorKind> {
    let (mut load, mut action) = advance(table, Load::new(address), Event::Locked);
    loop {
        let event = match action {
            Action::Deliver => {
                assert!(load.is_finished());
                return Ok(table.get(&address).unwrap().clone());
            }
            Action::Fail(kind) => {
                assert!(load.is_finished());
                return Err(kind);
            }
            Action::OpenStream => {
                *fetches += 1;
                Event::Prefix(prefix)
            }
            Action::ReadPayload => Event::Payload(bytes.to_vec()),
            Action::Build(model) => {
                *builds += 1;
                Event::Built(Arc::new(model))
            }
            Action::Rejected => unreachable!(),
        };
        let step = advance(table, load, event);
        load = step.0;
        action = step.1;
    }
}

#[test]
fn miss_walks_through_every_phase() {
    let mut table: SessionTable<u32> = SessionTable::new();
    let load = Load::new(model_address());
    assert_eq!(load.phase, Phase::Lookup);
    assert!(!load.is_finished());

    let (load, action) = advance(&mut table, load, Event::Locked);
    assert_eq!(action, Action::OpenStream);
    assert_eq!(load.phase, Phase::Prefix);

    let (load, action) = advance(&mut table, load, Event::Prefix(3));
    assert_eq!(action, Action::ReadPayload);
    assert_eq!(load.phase, Phase::Payload);

    let (load, action) = advance(&mut table, load, Event::Payload(vec![1, 2, 3]));
    assert_eq!(action, Action::Build(vec![1, 2, 3]));
    assert_eq!(load.phase, Phase::Build);
    assert!(!table.contains(&model_address()));

    let (load, action) = advance(&mut table, load, Event::Built(77));
    assert_eq!(action, Action::Deliver);
    assert_eq!(load.phase, Phase::Ready);
    assert!(load.is_finished());
    assert!(load.address.same(&model_address()));
    assert_eq!(table.get(&model_address()), Some(&77));
}

#[test]
fn hit_delivers_at_once() {
    let mut table: SessionTable<u32> = SessionTable::new();
    table.insert(model_address(), 5);
    let (load, action) = advance(&mut table, Load::new(model_address()), Event::Locked);
    assert_eq!(action, Action::Deliver);
    assert_eq!(load.phase, Phase::Ready);
    assert_eq!(table.get(&model_address()), Some(&5));
}

#[test]
fn repeated_loads_fetch_and_build_once() {
    let mut table: SessionTable<Arc<Vec<u8>>> = SessionTable::new();
    let mut fetches: u32 = 0;
    let mut builds: u32 = 0;
    let first = get_or_build(&mut table, model_address(), 3, &[1, 2, 3], &mut fetches, &mut builds)
        .unwrap();
    assert_eq!((fetches, builds), (1, 1));
    let mut round: u32 = 0;
    while round < 8 {
        let again =
            get_or_build(&mut table, model_address(), 3, &[1, 2, 3], &mut fetches, &mut builds)
                .unwrap();
        assert!(Arc::ptr_eq(&first, &again));
        round += 1;
    }
    assert_eq!((fetches, builds), (1, 1));
    assert_eq!(*first, vec![1, 2, 3]);
}

#[test]
fn second_load_makes_no_fetch() {
    let mut table: SessionTable<Arc<Vec<u8>>> = SessionTable::new();
    let mut fetches: u32 = 0;
    let mut builds: u32 = 0;
    get_or_build(&mut table, model_address(), 3, &[1, 2, 3], &mut fetches, &mut builds).unwrap();
    fetches = 0;
    get_or_build(&mut table, model_address(), 3, &[1, 2, 3], &mut fetches, &mut builds).unwrap();
    assert_eq!(fetches, 0);
}

#[test]
fn other_addresses_are_built_separately() {
    let mut table: SessionTable<Arc<Vec<u8>>> = SessionTable::new();
    let mut fetches: u32 = 0;
    let mut builds: u32 = 0;
    let other = ContentAddress::new([9; 32], 2);
    let a = get_or_build(&mut table, model_address(), 3, &[1, 2, 3], &mut fetches, &mut builds)
        .unwrap();
    let b = get_or_build(&mut table, other, 2, &[4, 5], &mut fetches, &mut builds).unwrap();
    assert_eq!((fetches, builds), (2, 2));
    assert!(!Arc::ptr_eq(&a, &b));
    assert_eq!(*b, vec![4, 5]);
}

#[test]
fn wrong_prefix_is_an_integrity_error_and_can_be_retried() {
    let mut table: SessionTable<Arc<Vec<u8>>> = SessionTable::new();
    let mut fetches: u32 = 0;
    let mut builds: u32 = 0;
    let failed =
        get_or_build(&mut table, model_address(), 4, &[1, 2, 3, 4], &mut fetches, &mut builds);
    assert_eq!(failed.err(), Some(ErrorKind::Integrity));
    assert_eq!((fetches, builds), (1, 0));
    assert!(!table.contains(&model_address()));

    let mended =
        get_or_build(&mut table, model_address(), 3, &[1, 2, 3], &mut fetches, &mut builds);
    assert!(mended.is_ok());
    assert_eq!((fetches, builds), (2, 1));
    assert!(table.contains(&model_address()));
}

#[test]
fn wrong_prefix_keeps_other_sessions() {
    let mut table: SessionTable<u32> = SessionTable::new();
    let other = ContentAddress::new([1; 32], 3);
    table.insert(other, 11);
    let load = Load { address: model_address(), phase: Phase::Prefix };
    let (load, action) = advance(&mut table, load, Event::Prefix(2));
    assert_eq!(action, Action::Fail(ErrorKind::Integrity));
    assert_eq!(load.phase, Phase::Failed);
    assert!(load.is_finished());
    assert_eq!(table.get(&other), Some(&11));
    assert!(!table.contains(&model_address()));
}

#[test]
fn short_payload_is_a_transport_error() {
    let mut table: SessionTable<u32> = SessionTable::new();
    let load = Load { address: model_address(), phase: Phase::Payload };
    let (load, action) = advance(&mut table, load, Event::Payload(vec![1, 2]));
    assert_eq!(action, Action::Fail(ErrorKind::Transport));
    assert_eq!(load.phase, Phase::Failed);
    assert!(!table.contains(&model_address()));
}

#[test]
fn long_payload_is_an_integrity_error() {
    let mut table: SessionTable<u32> = SessionTable::new();
    let load = Load { address: model_address(), phase: Phase::Payload };
    let (load, action) = advance(&mut table, load, Event::Payload(vec![1, 2, 3, 4]));
    assert_eq!(action, Action::Fail(ErrorKind::Integrity));
    assert_eq!(load.phase, Phase::Failed);
}

#[test]
fn empty_model_is_accepted_when_declared_empty() {
    let mut table: SessionTable<u32> = SessionTable::new();
    let load = Load { address: ContentAddress::new([0; 32], 0), phase: Phase::Payload };
    let (load, action) = advance(&mut table, load, Event::Payload(vec![]));
    assert_eq!(action, Action::Build(vec![]));
    assert_eq!(load.phase, Phase::Build);
}

#[test]
fn transport_failure_ends_the_load() {
    let mut table: SessionTable<u32> = SessionTable::new();
    let waiting = Load { address: model_address(), phase: Phase::Prefix };
    let (load, action) = advance(&mut table, waiting, Event::TransportFailed);
    assert_eq!(action, Action::Fail(ErrorKind::Transport));
    assert_eq!(load.phase, Phase::Failed);
    let reading = Load { address: model_address(), phase: Phase::Payload };
    let (load, action) = advance(&mut table, reading, Event::TransportFailed);
    assert_eq!(action, Action::Fail(ErrorKind::Transport));
    assert_eq!(load.phase, Phase::Failed);
    assert!(!table.contains(&model_address()));
}

#[test]
fn refused_build_is_not_stored() {
    let mut table: SessionTable<u32> = SessionTable::new();
    let load = Load { address: model_address(), phase: Phase::Build };
    let (load, action) = advance(&mut table, load, Event::BuildFailed);
    assert_eq!(action, Action::Fail(ErrorKind::EngineBuild));
    assert_eq!(load.phase, Phase::Failed);
    assert!(!table.contains(&model_address()));
    let (_, action) = advance(&mut table, Load::new(model_address()), Event::Locked);
    assert_eq!(action, Action::OpenStream);
}

#[test]
fn a_second_build_for_an_address_is_dropped() {
    let mut table: SessionTable<u32> = SessionTable::new();
    let first = Load { address: model_address(), phase: Phase::Build };
    let second = Load { address: model_address(), phase: Phase::Build };
    let (_, action) = advance(&mut table, first, Event::Built(1));
    assert_eq!(action, Action::Deliver);
    let (load, action) = advance(&mut table, second, Event::Built(2));
    assert_eq!(action, Action::Deliver);
    assert_eq!(load.phase, Phase::Ready);
    assert_eq!(table.get(&model_address()), Some(&1));
}

#[test]
fn events_out_of_turn_are_rejected() {
    let mut table: SessionTable<u32> = SessionTable::new();
    let fresh = Load::new(model_address());
    let (load, action) = advance(&mut table, fresh, Event::Built(1));
    assert_eq!(action, Action::Rejected);
    assert_eq!(load.phase, Phase::Lookup);
    assert!(!table.contains(&model_address()));

    let (load, action) = advance(&mut table, fresh, Event::Prefix(3));
    assert_eq!(action, Action::Rejected);
    assert_eq!(load.phase, Phase::Lookup);

    let waiting = Load { address: model_address(), phase: Phase::Prefix };
    let (load, action) = advance(&mut table, waiting, Event::Payload(vec![1, 2, 3]));
    assert_eq!(action, Action::Rejected);
    assert_eq!(load.phase, Phase::Prefix);

    let building = Load { address: model_address(), phase: Phase::Build };
    let (load, action) = advance(&mut table, building, Event::TransportFailed);
    assert_eq!(action, Action::Rejected);
    assert_eq!(load.phase, Phase::Build);

    let done = Load { address: model_address(), phase: Phase::Ready };
    let (load, action) = advance(&mut table, done, Event::Locked);
    assert_eq!(action, Action::Rejected);
    assert_eq!(load.phase, Phase::Ready);

    let failed = Load { address: model_address(), phase: Phase::Failed };
    let (load, action) = advance(&mut table, failed, Event::Locked);
    assert_eq!(action, Action::Rejected);
    assert_eq!(load.phase, Phase::Failed);
}

#[test]
fn prefix_check() {
    assert_eq!(check_prefix(&model_address(), 3), Ok(()));
    assert_eq!(check_prefix(&model_address(), 2), Err(ErrorKind::Integrity));
    assert_eq!(check_prefix(&model_address(), u64::MAX), Err(ErrorKind::Integrity));
}

#[test]
fn payload_check() {
    assert_eq!(check_payload(&model_address(), 3), Ok(()));
    assert_eq!(check_payload(&model_address(), 0), Err(ErrorKind::Transport));
    assert_eq!(check_payload(&model_address(), 2), Err(ErrorKind::Transport));
    assert_eq!(check_payload(&model_address(), 4), Err(ErrorKind::Integrity));
}
