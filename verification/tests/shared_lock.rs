use shared_counter::attempt::Attempt;
use shared_counter::counter::Fault;
use shared_counter::shared::{
    advance, advance_granted, advance_held, cell, observe, observe_granted, observe_held,
};
use std::sync::{Arc, RwLock};

fn observed(line: &str) -> i32 {
    line.strip_prefix("Read value as ").unwrap().parse().unwrap()
}

fn read_once(handle: &Arc<RwLock<i32>>) -> String {
    let line = match observe(handle) {
        Attempt::Granted((line, _access)) => line,
        _ => panic!("read access was not given"),
    };
    line
}

fn write_once(handle: &Arc<RwLock<i32>>) -> String {
    let line = match advance(handle) {
        Attempt::Granted((line, _access)) => line,
        _ => panic!("write access was not given"),
    };
    line
}

#[test]
fn a_fresh_cell_is_read_as_its_initial_value() {
    let handle = cell(0);
    match observe(&handle) {
        Attempt::Granted((line, guard)) => {
            assert_eq!(line, "Read value as 0");
            assert_eq!(*guard, 0);
        }
        _ => panic!("read access was not given"),
    }
    assert_eq!(read_once(&cell(-8)), "Read value as -8");
}

#[test]
fn advance_adds_one_and_reports_the_new_value() {
    let handle = cell(0);
    match advance(&handle) {
        Attempt::Granted((line, guard)) => {
            assert_eq!(line, "Incremented value by 1 to 1");
            assert_eq!(*guard, 1);
        }
        _ => panic!("write access was not given"),
    }
    assert_eq!(write_once(&handle), "Incremented value by 1 to 2");
    assert_eq!(read_once(&handle), "Read value as 2");
}

#[test]
fn readers_share_access() {
    let handle = cell(4);
    let theirs = handle.clone();
    match (observe(&handle), observe(&theirs)) {
        (Attempt::Granted((first, first_guard)), Attempt::Granted((second, second_guard))) => {
            assert_eq!(first, "Read value as 4");
            assert_eq!(second, "Read value as 4");
            assert_eq!(*first_guard, *second_guard);
        }
        _ => panic!("read access was not given twice"),
    };
}

#[test]
fn the_writer_is_kept_out_while_a_reader_holds_access() {
    let handle = cell(4);
    {
        let _reading = handle.read().unwrap();
        assert!(matches!(advance(&handle), Attempt::Busy));
    }
    assert_eq!(write_once(&handle), "Incremented value by 1 to 5");
}

#[test]
fn everybody_is_kept_out_while_the_writer_holds_access() {
    let handle = cell(4);
    match advance(&handle) {
        Attempt::Granted((line, _writing)) => {
            assert_eq!(line, "Incremented value by 1 to 5");
            assert!(matches!(observe(&handle), Attempt::Busy));
            assert!(matches!(advance(&handle), Attempt::Busy));
        }
        _ => panic!("write access was not given"),
    }
    assert_eq!(read_once(&handle), "Read value as 5");
}

#[test]
fn ten_readers_and_one_writer_in_turns_see_only_committed_values() {
    let handle = cell(0);
    let readers: Vec<_> = (0..10).map(|_| handle.clone()).collect();
    let mut seen = Vec::new();
    for pass in 0..20 {
        for reader in readers.iter() {
            let line = read_once(reader);
            assert_eq!(observed(&line), pass);
            seen.push(observed(&line));
        }
        assert_eq!(write_once(&handle), format!("Incremented value by 1 to {}", pass + 1));
    }
    assert_eq!(seen.len(), 200);
    assert!(seen.iter().all(|v| (0..=20).contains(v)));
    assert_eq!(read_once(&handle), "Read value as 20");
}

#[test]
fn advance_at_the_largest_value_overflows_and_changes_nothing() {
    let handle = cell(i32::MAX);
    assert!(matches!(advance(&handle), Attempt::Failed(Fault::Overflow)));
    assert_eq!(read_once(&handle), "Read value as 2147483647");
}

#[test]
fn observe_held_reports_what_the_guard_shows() {
    let lock = RwLock::new(13);
    let guard = lock.read().unwrap();
    assert_eq!(observe_held(&guard), "Read value as 13");
}

#[test]
fn advance_held_changes_what_the_guard_holds() {
    let lock = RwLock::new(-2);
    {
        let mut guard = lock.write().unwrap();
        assert_eq!(advance_held(&mut guard), Ok("Incremented value by 1 to -1".to_string()));
        assert_eq!(*guard, -1);
        assert_eq!(advance_held(&mut guard), Ok("Incremented value by 1 to 0".to_string()));
    }
    assert_eq!(lock.into_inner().unwrap(), 0);
}

#[test]
fn advance_held_at_the_largest_value_overflows() {
    let lock = RwLock::new(i32::MAX);
    let mut guard = lock.write().unwrap();
    assert_eq!(advance_held(&mut guard), Err(Fault::Overflow));
    assert_eq!(*guard, i32::MAX);
}

#[test]
fn granted_access_is_used_and_handed_back() {
    let lock = RwLock::new(5);
    match advance_granted(Attempt::Granted(lock.write().unwrap())) {
        Attempt::Granted((line, guard)) => {
            assert_eq!(line, "Incremented value by 1 to 6");
            assert_eq!(*guard, 6);
        }
        _ => panic!("the granted pass was not made"),
    }
    match observe_granted(Attempt::Granted(lock.read().unwrap())) {
        Attempt::Granted((line, guard)) => {
            assert_eq!(line, "Read value as 6");
            assert_eq!(*guard, 6);
        }
        _ => panic!("the granted pass was not made"),
    };
}

#[test]
fn a_poisoned_reader_writer_lock_is_a_fault_and_gives_no_line() {
    assert!(matches!(
        observe_granted(Attempt::Failed(Fault::Poisoned)),
        Attempt::Failed(Fault::Poisoned)
    ));
    assert!(matches!(
        advance_granted(Attempt::Failed(Fault::Poisoned)),
        Attempt::Failed(Fault::Poisoned)
    ));
}

#[test]
fn a_busy_reader_writer_lock_is_handed_on() {
    assert!(matches!(observe_granted(Attempt::Busy), Attempt::Busy));
    assert!(matches!(advance_granted(Attempt::Busy), Attempt::Busy));
}
