use node_bridge::mining::{select_mining_mode, MiningMode};
use node_bridge::pool::Pool;

#[test]
fn a_fixed_interval_wins_over_everything() {
    let mut pool = Pool::new();
    let mode = select_mining_mode(Some(5000), false, 100, &mut pool);
    assert_eq!(mode, MiningMode::Interval { period_millis: 5000 });
    assert_eq!(pool.listener_total(), 0);
    let mode = select_mining_mode(Some(0), true, 100, &mut pool);
    assert_eq!(mode, MiningMode::Interval { period_millis: 0 });
    assert_eq!(pool.listener_total(), 0);
}

#[test]
fn disabling_mining_wins_over_instant() {
    let mut pool = Pool::new();
    let mode = select_mining_mode(None, true, 100, &mut pool);
    assert_eq!(mode, MiningMode::Disabled);
    assert_eq!(pool.listener_total(), 0);
}

#[test]
fn otherwise_mining_is_instant_and_subscribes_a_listener() {
    let mut pool = Pool::new();
    let mode = select_mining_mode(None, false, 7, &mut pool);
    assert_eq!(mode, MiningMode::Instant { max_transactions: 7, listener: 0 });
    assert_eq!(pool.listener_total(), 1);
    let mode = select_mining_mode(None, false, 9, &mut pool);
    assert_eq!(mode, MiningMode::Instant { max_transactions: 9, listener: 1 });
    assert_eq!(pool.listener_total(), 2);
}
