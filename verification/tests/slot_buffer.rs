use sight_lidar_core::shared_buffer::SharedBuffer;

#[test]
fn fresh_pool_is_empty() {
    let buf: SharedBuffer<u64> = SharedBuffer::new(vec![0, 0, 0, 0]);
    assert_eq!(buf.len(), 4);
    assert_eq!(buf.occupied_slots(), 0);
    assert!(!buf.check_condition());
    for i in 0..4 {
        let info = buf.slot_info(i);
        assert_eq!(info.lfu, 0);
        assert!(!info.occupied);
        assert!(!info.is_new);
    }
}

#[test]
fn read_before_any_write_returns_nothing() {
    let mut buf: SharedBuffer<u64> = SharedBuffer::new(vec![0, 0, 0]);
    assert!(buf.read().is_none());
}

#[test]
fn write_publish_read_round() {
    let mut buf: SharedBuffer<u64> = SharedBuffer::new(vec![0, 0, 0]);
    let lock = buf.write();
    assert_eq!(buf.occupied_slots(), 1);
    buf.set_buffer(&lock, 41);
    buf.write_finish(lock);
    assert!(buf.check_condition());

    let lock = buf.read().unwrap();
    assert!(lock.is_read());
    assert_eq!(*buf.get_buffer(&lock), 41);
    // the taken slot is no longer fresh and is held
    let info = buf.slot_info(lock.id());
    assert!(info.occupied);
    assert!(!info.is_new);
    buf.read_finish(lock);
    assert_eq!(buf.occupied_slots(), 0);
    // nothing fresh is left
    assert!(buf.read().is_none());
}

#[test]
fn reader_gets_most_recent_write() {
    // Freshness: after any sequence of writes, a read returns the payload
    // of the last completed write.
    let mut buf: SharedBuffer<u64> = SharedBuffer::new(vec![0, 0, 0, 0]);
    for round in 1..=1000u64 {
        let lock = buf.write();
        buf.set_buffer(&lock, round);
        buf.write_finish(lock);
        if round % 3 == 0 {
            let lock = buf.read().unwrap();
            assert_eq!(*buf.get_buffer(&lock), round);
            buf.read_finish(lock);
        }
    }
    let lock = buf.read().unwrap();
    assert_eq!(*buf.get_buffer(&lock), 1000);
    buf.read_finish(lock);
}

#[test]
fn sequential_counter_trace_max_is_last_written() {
    // The single-thread shape of the pool's producer/consumer trace: one
    // writer counts up while a reader drains; the largest value observed
    // equals the last value written.
    let n = 10_000u64;
    let mut buf: SharedBuffer<u64> = SharedBuffer::new(vec![0; 10]);
    let mut max_seen = 0u64;
    for i in 1..=n {
        let lock = buf.write();
        buf.set_buffer(&lock, i);
        buf.write_finish(lock);
        if let Some(lock) = buf.read() {
            let v = *buf.get_buffer(&lock);
            if v > max_seen {
                max_seen = v;
            }
            buf.read_finish(lock);
        }
    }
    assert_eq!(max_seen, n);
}

#[test]
fn writer_takes_least_recently_written_slot() {
    let mut buf: SharedBuffer<u64> = SharedBuffer::new(vec![0, 0, 0]);
    // First write takes slot 0 (all counters equal, lowest index wins).
    let lock = buf.write();
    assert_eq!(lock.id(), 0);
    buf.write_finish(lock);
    // Counters are now [0, 1, 1]; the writer takes slot 1.
    let lock = buf.write();
    assert_eq!(lock.id(), 1);
    buf.write_finish(lock);
    // Counters are now [1, 0, 2]; the writer takes slot 2.
    let lock = buf.write();
    assert_eq!(lock.id(), 2);
    buf.write_finish(lock);
    // Counters are now [2, 1, 0]; the writer takes slot 0 again.
    let lock = buf.write();
    assert_eq!(lock.id(), 0);
    buf.write_finish(lock);
}

#[test]
fn reader_skips_occupied_fresh_slot() {
    let mut buf: SharedBuffer<u64> = SharedBuffer::new(vec![0, 0, 0]);
    let w = buf.write();
    buf.set_buffer(&w, 7);
    buf.write_finish(w);
    // Take the fresh slot and hold it; a second read finds nothing fresh.
    let first = buf.read().unwrap();
    assert!(buf.read().is_none());
    buf.read_finish(first);
}

#[test]
fn occupancy_stays_within_guard_bound() {
    // At most one more slot is occupied than there are live read guards.
    let mut buf: SharedBuffer<u64> = SharedBuffer::new(vec![0, 0, 0, 0]);
    for _ in 0..4 {
        let w = buf.write();
        buf.write_finish(w);
    }
    let r1 = buf.read().unwrap();
    let r2 = buf.read().unwrap();
    let w = buf.write();
    assert!(buf.occupied_slots() <= 1 + 2);
    buf.write_finish(w);
    assert!(buf.occupied_slots() <= 1 + 2);
    buf.read_finish(r1);
    buf.read_finish(r2);
    assert_eq!(buf.occupied_slots(), 0);
}
