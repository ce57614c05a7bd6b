use user_service::connection_pool::RedisConnectionPool;

#[test]
fn pool_hands_out_last_idle_connection() {
    let mut pool: RedisConnectionPool<u32, &str> = RedisConnectionPool::new(vec![1, 2, 3]);
    assert_eq!(pool.get_connection(), Some(3));
    assert_eq!(pool.get_connection(), Some(2));
    assert_eq!(pool.get_connection(), Some(1));
    assert_eq!(pool.get_connection(), None);
}

#[test]
fn returned_connection_is_handed_out_next() {
    let mut pool: RedisConnectionPool<u32, &str> = RedisConnectionPool::new(vec![1, 2]);
    assert_eq!(pool.get_connection(), Some(2));
    assert_eq!(pool.return_connection(7), None);
    assert_eq!(pool.get_connection(), Some(7));
    assert_eq!(pool.get_connection(), Some(1));
}

#[test]
fn return_wakes_latest_waiting_client() {
    let mut pool: RedisConnectionPool<u32, &str> = RedisConnectionPool::new(Vec::new());
    assert_eq!(pool.get_connection(), None);
    pool.add_waiting_client("first");
    pool.add_waiting_client("second");
    assert_eq!(pool.return_connection(1), Some("second"));
    assert_eq!(pool.return_connection(2), Some("first"));
    assert_eq!(pool.return_connection(3), None);
    assert_eq!(pool.get_connection(), Some(3));
}
