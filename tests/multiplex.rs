use std::collections::HashSet;

use keyless_mux::pending::{MultiplexState, MuxError};

#[test]
fn ids_count_up_from_one() {
    let mut m: MultiplexState<&str> = MultiplexState::new();
    assert_eq!(m.submit(10, "a"), Ok(1));
    assert_eq!(m.submit(11, "b"), Ok(2));
    assert_eq!(m.submit(12, "c"), Ok(3));
    assert_eq!(m.len(), 3);
    assert!(m.contains(2));
    assert!(!m.contains(4));
}

#[test]
fn ids_unique_under_load() {
    let mut m: MultiplexState<usize> = MultiplexState::new();
    let mut live = HashSet::new();
    for i in 0..2000usize {
        let id = m.submit(i as u64, i).unwrap();
        assert!(live.insert(id));
        if i % 3 == 0 {
            let victim = *live.iter().next().unwrap();
            let slot = m.take(victim).unwrap();
            assert_eq!(slot.id, victim);
            live.remove(&victim);
        }
    }
    assert_eq!(m.len(), live.len());
    for id in &live {
        assert!(m.contains(*id));
    }
}

#[test]
fn ids_wrap_around() {
    let mut m: MultiplexState<u8> = MultiplexState::starting_after(u32::MAX - 2);
    assert_eq!(m.submit(0, 1), Ok(u32::MAX - 1));
    assert_eq!(m.submit(0, 2), Ok(u32::MAX));
    assert_eq!(m.submit(0, 3), Ok(0));
    assert_eq!(m.submit(0, 4), Ok(1));
    assert_eq!(m.len(), 4);
    assert!(m.take(u32::MAX).is_some());
    assert_eq!(m.submit(0, 5), Ok(2));
    assert!(m.contains(u32::MAX - 1) && m.contains(0) && m.contains(1) && m.contains(2));
}

#[test]
fn unmatched_response_is_discarded() {
    let mut m: MultiplexState<&str> = MultiplexState::new();
    m.submit(0, "a").unwrap();
    m.submit(0, "b").unwrap();
    assert!(m.take(99).is_none());
    assert_eq!(m.len(), 2);
    assert_eq!(m.take(1).unwrap().waiter, "a");
    assert_eq!(m.take(2).unwrap().waiter, "b");
    assert!(m.is_alive());
}

#[test]
fn connection_failure_completes_every_pending_request_once() {
    let mut m: MultiplexState<usize> = MultiplexState::new();
    for i in 0..17usize {
        m.submit(i as u64, i).unwrap();
    }
    m.take(5).unwrap();
    let failed = m.fail_all();
    assert_eq!(failed.len(), 16);
    let ids: HashSet<u32> = failed.iter().map(|s| s.id).collect();
    assert_eq!(ids.len(), 16);
    assert!(!ids.contains(&5));
    assert_eq!(m.len(), 0);
    assert!(!m.is_alive());
    for id in 1..=17u32 {
        assert!(m.take(id).is_none());
    }
    assert_eq!(m.submit(0, 0), Err(MuxError::ConnectionClosed));
    assert!(m.fail_all().is_empty());
}

#[test]
fn timed_out_request_completes_once() {
    let mut m: MultiplexState<&str> = MultiplexState::new();
    let id = m.submit(100, "late").unwrap();
    let other = m.submit(101, "other").unwrap();
    // timeout path takes the slot
    let slot = m.take(id).unwrap();
    assert_eq!(slot.waiter, "late");
    assert_eq!(slot.submitted_at, 100);
    // the late response finds nothing
    assert!(m.take(id).is_none());
    assert!(m.contains(other));
    assert_eq!(m.len(), 1);
}
