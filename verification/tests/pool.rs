use rsocx::SlavePool;

#[test]
fn round_robin_visits_cyclic_sequence() {
    let mut pool: SlavePool<&str> = SlavePool::new();
    pool.add_slave("s0");
    pool.add_slave("s1");
    pool.add_slave("s2");
    let mut visited = Vec::new();
    for _ in 0..7 {
        visited.push(pool.select_next().unwrap());
    }
    assert_eq!(visited, vec![0, 1, 2, 0, 1, 2, 0]);
}

#[test]
fn empty_pool_selects_nothing_and_stays_live() {
    let mut pool: SlavePool<u32> = SlavePool::new();
    assert_eq!(pool.select_next(), None);
    assert_eq!(pool.select_next(), None);
    // a slave joining later is served normally
    pool.add_slave(42);
    assert_eq!(pool.select_next(), Some(0));
    assert_eq!(*pool.get(0), 42);
}

#[test]
fn two_slaves_three_clients_alternate() {
    let mut pool: SlavePool<&str> = SlavePool::new();
    pool.add_slave("A");
    pool.add_slave("B");
    let first = pool.select_next().unwrap();
    let second = pool.select_next().unwrap();
    let third = pool.select_next().unwrap();
    assert_eq!(*pool.get(first), "A");
    assert_eq!(*pool.get(second), "B");
    assert_eq!(*pool.get(third), "A");
}

#[test]
fn growth_keeps_cursor_valid() {
    let mut pool: SlavePool<u8> = SlavePool::new();
    pool.add_slave(0);
    pool.add_slave(1);
    assert_eq!(pool.select_next(), Some(0));
    pool.add_slave(2);
    assert_eq!(pool.select_next(), Some(1));
    assert_eq!(pool.select_next(), Some(2));
    assert_eq!(pool.select_next(), Some(0));
    assert_eq!(pool.len(), 3);
}
