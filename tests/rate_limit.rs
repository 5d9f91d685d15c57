use sn_node::rate_limit::{Capacity, RateLimit, MAX_SUPPLY};

#[test]
fn calculates_max_section_nanos() {
    // prefix zero is one section so is responsible for all tokens
    let first_section_nanos = RateLimit::max_section_nanos(0);
    assert_eq!(MAX_SUPPLY, first_section_nanos);
    // first split leads to each section having half the tokens
    let first_split_nanos = RateLimit::max_section_nanos(1);
    assert_eq!(MAX_SUPPLY / 2, first_split_nanos);
    // some tokens remain in section up to 2.6 * 10^18 sections
    let last_split_nanos = RateLimit::max_section_nanos(61);
    assert!(last_split_nanos > 0);
}

#[test]
fn max_section_nanos_exact_values() {
    assert_eq!(RateLimit::max_section_nanos(3), 536_870_911_875_000_000);
    assert_eq!(RateLimit::max_section_nanos(61), 1);
    assert_eq!(RateLimit::max_section_nanos(62), 0);
    assert_eq!(RateLimit::max_section_nanos(64), 0);
    assert_eq!(RateLimit::max_section_nanos(u64::MAX), 0);
}

#[test]
fn full_node_counted_once() {
    let mut capacity = Capacity::new();
    assert_eq!(capacity.full_nodes(), 0);
    capacity.increase_full_node_count(7);
    capacity.increase_full_node_count(9);
    capacity.increase_full_node_count(7);
    assert_eq!(capacity.full_nodes(), 2);
}

#[test]
fn network_storage_over_half_full() {
    let mut rl = RateLimit::new(0, Capacity::new());
    assert!(!rl.check_network_storage(0));
    rl.increase_full_node_count(1);
    rl.increase_full_node_count(2);
    assert!(rl.check_network_storage(3));
    assert!(!rl.check_network_storage(4));
    assert!(rl.check_network_storage(0));
    assert_eq!(rl.prefix_len, 0);
}
