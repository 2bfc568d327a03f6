use bacnet_udp_adapter::clock::callback_get_system_time;
use bacnet_udp_adapter::invoke::InvokeIdRegistry;
use bacnet_udp_adapter::startup::load_bacnet_functions;
use bacnet_udp_adapter::startup::AdapterError;

#[test]
fn acquisitions_are_distinct_through_a_full_cycle() {
    let mut registry = InvokeIdRegistry::new();
    let mut seen = [false; 256];
    for expected in 0..=255u8 {
        let id = registry.acquire();
        assert_eq!(id, expected);
        assert!(!seen[id as usize], "invoke id repeated before a full cycle");
        seen[id as usize] = true;
    }
    assert!(seen.iter().all(|&s| s));
}

#[test]
fn counter_wraps_to_zero_after_a_cycle() {
    let mut registry = InvokeIdRegistry::new();
    for _ in 0..256 {
        registry.acquire();
    }
    assert_eq!(registry.acquire(), 0);
    assert_eq!(registry.acquire(), 1);
}

#[test]
fn startup_succeeds_with_all_callbacks_registered() {
    assert_eq!(load_bacnet_functions(true, true, true), Ok(true));
}

#[test]
fn startup_names_the_missing_callback() {
    assert_eq!(
        load_bacnet_functions(false, true, true),
        Err(AdapterError::ReceiveCallbackNotRegistered)
    );
    assert_eq!(
        load_bacnet_functions(true, false, true),
        Err(AdapterError::SendCallbackNotRegistered)
    );
    assert_eq!(
        load_bacnet_functions(true, true, false),
        Err(AdapterError::ClockCallbackNotRegistered)
    );
    assert_eq!(
        load_bacnet_functions(false, false, false),
        Err(AdapterError::ReceiveCallbackNotRegistered)
    );
}

#[test]
fn clock_reads_seconds_since_the_epoch() {
    let first = callback_get_system_time();
    // Well after 2020 on any sane host clock, and far below the year 10000.
    assert!(first > 1_577_836_800);
    assert!(first < 253_402_300_800);
    let second = callback_get_system_time();
    assert!(second >= first);
}
