use renderd::reconnect::{
    backoff_ms, DiscoveryEvent, HostAddress, IpAddress, ReconnectWatchdog, ServiceRecord,
    WatchdogState,
};
use std::time::Duration;
use uuid::Uuid;

#[test]
fn test_reconnect_watchdog_state_transitions() {
    let host_id = Uuid::new_v4().as_u128();
    let addr1 = HostAddress { ip: IpAddress::V4(192, 168, 1, 50), port: 9000 };
    let addr2 = HostAddress { ip: IpAddress::V4(192, 168, 1, 100), port: 9000 };

    let mut watchdog = ReconnectWatchdog::new(host_id, addr1);
    assert_eq!(watchdog.state(), WatchdogState::Connected);

    watchdog.on_disconnect();
    assert_eq!(watchdog.state(), WatchdogState::AttemptingCachedIp);

    watchdog.on_cached_ip_failed();
    assert_eq!(watchdog.state(), WatchdogState::RediscoveringHost);

    let event = DiscoveryEvent::Found(ServiceRecord {
        host_id,
        name: "TestHost".to_string(),
        addr: addr2.ip,
        port: addr2.port,
    });

    let recovered = watchdog.process_discovery_event(&event);
    assert!(recovered);
    assert_eq!(watchdog.state(), WatchdogState::Connected);
    assert_eq!(watchdog.current_addr(), addr2);
}

#[test]
fn test_reconnect_exponential_backoff() {
    let host_id = Uuid::new_v4().as_u128();
    let addr = HostAddress { ip: IpAddress::V4(127, 0, 0, 1), port: 9000 };
    let mut watchdog = ReconnectWatchdog::new(host_id, addr);

    watchdog.on_disconnect();
    let b1 = watchdog.current_backoff();
    assert_eq!(b1, Duration::from_millis(500));

    watchdog.on_cached_ip_failed();
    let b2 = watchdog.current_backoff();
    assert_eq!(b2, Duration::from_secs(1));
}

#[test]
fn backoff_is_capped_at_thirty_seconds() {
    assert_eq!(backoff_ms(0), 500);
    assert_eq!(backoff_ms(7), 32_000.min(30_000));
    assert_eq!(backoff_ms(6), 16_000);
    assert_eq!(backoff_ms(u32::MAX), 30_000);
}

#[test]
fn discovery_of_other_hosts_is_ignored() {
    let host_id = 7u128;
    let addr = HostAddress { ip: IpAddress::V6(1), port: 1 };
    let mut watchdog = ReconnectWatchdog::new(host_id, addr);
    let other = DiscoveryEvent::Found(ServiceRecord {
        host_id: 8,
        name: "Other".to_string(),
        addr: IpAddress::V4(10, 0, 0, 1),
        port: 2,
    });
    assert!(!watchdog.process_discovery_event(&other));
    watchdog.on_disconnect();
    watchdog.on_cached_ip_failed();
    assert!(!watchdog.process_discovery_event(&other));
    assert!(!watchdog.process_discovery_event(&DiscoveryEvent::Lost(host_id)));
    assert_eq!(watchdog.state(), WatchdogState::RediscoveringHost);
    assert_eq!(watchdog.attempts(), 2);
    let manual = HostAddress { ip: IpAddress::V4(10, 0, 0, 9), port: 4433 };
    watchdog.update_manual_addr(manual);
    assert_eq!(watchdog.current_addr(), manual);
    assert_eq!(watchdog.attempts(), 0);
    assert_eq!(watchdog.max_attempts(), 10);
    assert!(watchdog.last_attempt_at().is_some());
}
