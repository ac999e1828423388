use vstd::prelude::*;

use std::time::{Duration, Instant};

use crate::clock::duration_nanos;

verus! {

/// An IP address.
#[derive(Debug, Clone, Copy, PartialEq, Eq, Structural)]
pub enum IpAddress {
    /// IPv4 octets.
    V4(u8, u8, u8, u8),
    /// IPv6 as its 128-bit value.
    V6(u128),
}

/// An IP address and port.
#[derive(Debug, Clone, Copy, PartialEq, Eq, Structural)]
pub struct HostAddress {
    /// The address.
    pub ip: IpAddress,
    /// The port.
    pub port: u16,
}

/// A host announced by service discovery.
#[derive(Debug, Clone, PartialEq, Eq)]
pub struct ServiceRecord {
    /// The host's UUID value.
    pub host_id: u128,
    /// Display name of the host.
    pub name: String,
    /// Address the host listens on.
    pub addr: IpAddress,
    /// Port the host listens on.
    pub port: u16,
}

/// A service discovery notice.
#[derive(Debug, Clone, PartialEq, Eq)]
pub enum DiscoveryEvent {
    /// A host appeared or changed.
    Found(ServiceRecord),
    /// The host with this UUID value disappeared.
    Lost(u128),
}

/// Phase of the reconnect watchdog.
#[derive(Debug, Clone, Copy, PartialEq, Eq, Structural)]
pub enum WatchdogState {
    /// The connection is healthy.
    Connected,
    /// Connection lost; retrying the cached address once.
    AttemptingCachedIp,
    /// The cached address failed; rediscovering the host.
    RediscoveringHost,
    /// Reconnecting failed too often; backing off.
    Backoff,
}

/// Delay before the first reconnect, in milliseconds.
pub const BASE_BACKOFF_MS: u64 = 500;

/// Longest reconnect delay, in milliseconds.
pub const MAX_BACKOFF_MS: u64 = 30000;

/// Largest doubling exponent of the delay.
pub const MAX_BACKOFF_SHIFT: u32 = 10;

/// Reconnect attempts allowed before backing off.
pub const MAX_ATTEMPTS: u32 = 10;

/// The reconnect delay after `attempts` attempts: the base delay doubled once per
/// attempt after the first, at most ten times, and never above the ceiling.
pub open spec fn backoff_ms_after(attempts: u32) -> u64 {
    let shift: nat = if attempts <= 1 {
        0
    } else if attempts - 1 > MAX_BACKOFF_SHIFT {
        MAX_BACKOFF_SHIFT as nat
    } else {
        (attempts - 1) as nat
    };
    let raw = BASE_BACKOFF_MS * vstd::arithmetic::power2::pow2(shift);
    if raw > MAX_BACKOFF_MS {
        MAX_BACKOFF_MS
    } else {
        raw as u64
    }
}

/// The reconnect delay in milliseconds after `attempts` attempts.
pub fn backoff_ms(attempts: u32) -> (ms: u64)
    ensures
        ms == backoff_ms_after(attempts),
        BASE_BACKOFF_MS <= ms <= MAX_BACKOFF_MS,
{
    let shift: u32 = if attempts <= 1 {
        0
    } else if attempts - 1 > MAX_BACKOFF_SHIFT {
        MAX_BACKOFF_SHIFT
    } else {
        attempts - 1
    };
    proof {
        vstd::arithmetic::power2::lemma2_to64();
    }
    let mut multiplier: u64 = 1;
    let mut i: u32 = 0;
    while i < shift
        invariant
            i <= shift,
            shift <= MAX_BACKOFF_SHIFT,
            multiplier == vstd::arithmetic::power2::pow2(i as nat),
        decreases shift - i,
    {
        proof {
            vstd::arithmetic::power2::lemma_pow2_unfold((i + 1) as nat);
            vstd::arithmetic::power2::lemma_pow2_strictly_increases(i as nat, MAX_BACKOFF_SHIFT as nat);
            vstd::arithmetic::power2::lemma2_to64();
        }
        multiplier = multiplier * 2;
        i = i + 1;
    }
    proof {
        vstd::arithmetic::power2::lemma_pow2_pos(shift as nat);
        vstd::arithmetic::power2::lemma2_to64();
        if shift < MAX_BACKOFF_SHIFT {
            vstd::arithmetic::power2::lemma_pow2_strictly_increases(shift as nat, MAX_BACKOFF_SHIFT as nat);
        }
    }
    let raw = BASE_BACKOFF_MS * multiplier;
    if raw > MAX_BACKOFF_MS {
        MAX_BACKOFF_MS
    } else {
        raw
    }
}

/// Each further attempt waits at least as long as the one before.
pub proof fn lemma_backoff_monotonic(a: u32, b: u32)
    requires
        a <= b,
    ensures
        backoff_ms_after(a) <= backoff_ms_after(b),
{
    let sa: nat = if a <= 1 {
        0
    } else if a - 1 > MAX_BACKOFF_SHIFT {
        MAX_BACKOFF_SHIFT as nat
    } else {
        (a - 1) as nat
    };
    let sb: nat = if b <= 1 {
        0
    } else if b - 1 > MAX_BACKOFF_SHIFT {
        MAX_BACKOFF_SHIFT as nat
    } else {
        (b - 1) as nat
    };
    assert(sa <= sb);
    if sa < sb {
        vstd::arithmetic::power2::lemma_pow2_strictly_increases(sa, sb);
    }
}

/// Reconnect watchdog: retries the cached address once, then rediscovers the host by
/// its UUID, backing off exponentially between attempts.
#[derive(Debug)]
pub struct ReconnectWatchdog {
    host_id: u128,
    cached_addr: HostAddress,
    current_addr: HostAddress,
    state: WatchdogState,
    attempts: u32,
    max_attempts: u32,
    last_attempt_at: Option<Instant>,
}

impl ReconnectWatchdog {
    /// The watched host's UUID value.
    pub closed spec fn host_spec(&self) -> u128 {
        self.host_id
    }

    /// The address tried first after a drop.
    pub closed spec fn cached_spec(&self) -> HostAddress {
        self.cached_addr
    }

    /// The address to connect to.
    pub closed spec fn current_spec(&self) -> HostAddress {
        self.current_addr
    }

    /// The watchdog's phase.
    pub closed spec fn state_spec(&self) -> WatchdogState {
        self.state
    }

    /// Reconnect attempts made since the last success.
    pub closed spec fn attempts_spec(&self) -> u32 {
        self.attempts
    }

    /// Whether a reconnect attempt was ever started.
    pub closed spec fn attempted_spec(&self) -> bool {
        self.last_attempt_at is Some
    }

    /// Watches `host_id`, known at `cached_addr`, starting connected.
    pub fn new(host_id: u128, cached_addr: HostAddress) -> (w: Self)
        ensures
            w.host_spec() == host_id,
            w.cached_spec() == cached_addr,
            w.current_spec() == cached_addr,
            w.state_spec() == WatchdogState::Connected,
            w.attempts_spec() == 0,
            !w.attempted_spec(),
    {
        ReconnectWatchdog {
            host_id,
            cached_addr,
            current_addr: cached_addr,
            state: WatchdogState::Connected,
            attempts: 0,
            max_attempts: MAX_ATTEMPTS,
            last_attempt_at: None,
        }
    }

    /// The watchdog's phase.
    pub fn state(&self) -> (s: WatchdogState)
        ensures
            s == self.state_spec(),
    {
        self.state
    }

    /// The address to connect to.
    pub fn current_addr(&self) -> (a: HostAddress)
        ensures
            a == self.current_spec(),
    {
        self.current_addr
    }

    /// Reconnect attempts made since the last success.
    pub fn attempts(&self) -> (n: u32)
        ensures
            n == self.attempts_spec(),
    {
        self.attempts
    }

    /// Attempts allowed before backing off.
    pub fn max_attempts(&self) -> (n: u32)
        ensures
            n == MAX_ATTEMPTS,
    {
        MAX_ATTEMPTS
    }

    /// When the current reconnect round started, if one did.
    pub fn last_attempt_at(&self) -> (t: Option<Instant>)
        ensures
            t is Some == self.attempted_spec(),
    {
        self.last_attempt_at
    }

    /// The connection dropped: retry the cached address, as the first attempt.
    pub fn on_disconnect(&mut self)
        ensures
            final(self).state_spec() == WatchdogState::AttemptingCachedIp,
            final(self).attempts_spec() == 1,
            final(self).attempted_spec(),
            final(self).host_spec() == old(self).host_spec(),
            final(self).cached_spec() == old(self).cached_spec(),
            final(self).current_spec() == old(self).current_spec(),
    {
        self.state = WatchdogState::AttemptingCachedIp;
        self.attempts = 1;
        self.last_attempt_at = Some(Instant::now());
    }

    /// The cached address failed: rediscover the host, counting the attempt.
    pub fn on_cached_ip_failed(&mut self)
        requires
            old(self).attempts_spec() < u32::MAX,
        ensures
            final(self).state_spec() == WatchdogState::RediscoveringHost,
            final(self).attempts_spec() == old(self).attempts_spec() + 1,
            final(self).attempted_spec() == old(self).attempted_spec(),
            final(self).host_spec() == old(self).host_spec(),
            final(self).cached_spec() == old(self).cached_spec(),
            final(self).current_spec() == old(self).current_spec(),
    {
        self.state = WatchdogState::RediscoveringHost;
        self.attempts = self.attempts + 1;
    }

    /// Takes a discovery notice. While rediscovering, finding the watched host adopts its
    /// address as current and cached, and the watchdog is connected again; the answer is
    /// whether that happened. Every other notice changes nothing.
    pub fn process_discovery_event(&mut self, event: &DiscoveryEvent) -> (restored: bool)
        ensures
            restored == (old(self).state_spec() == WatchdogState::RediscoveringHost && (
            event matches DiscoveryEvent::Found(r) && r.host_id == old(self).host_spec())),
            restored ==> (event matches DiscoveryEvent::Found(r) && {
                let addr = HostAddress { ip: r.addr, port: r.port };
                &&& final(self).current_spec() == addr
                &&& final(self).cached_spec() == addr
            }) && final(self).state_spec() == WatchdogState::Connected
                && final(self).attempts_spec() == 0,
            !restored ==> final(self).state_spec() == old(self).state_spec()
                && final(self).attempts_spec() == old(self).attempts_spec()
                && final(self).current_spec() == old(self).current_spec()
                && final(self).cached_spec() == old(self).cached_spec(),
            final(self).host_spec() == old(self).host_spec(),
            final(self).attempted_spec() == old(self).attempted_spec(),
    {
        if self.state != WatchdogState::RediscoveringHost {
            return false;
        }
        match event {
            DiscoveryEvent::Found(record) => {
                if record.host_id == self.host_id {
                    let addr = HostAddress { ip: record.addr, port: record.port };
                    self.current_addr = addr;
                    self.cached_addr = addr;
                    self.state = WatchdogState::Connected;
                    self.attempts = 0;
                    return true;
                }
                false
            },
            DiscoveryEvent::Lost(_) => false,
        }
    }

    /// The user entered an address: adopt it and count the connection as restored.
    pub fn update_manual_addr(&mut self, addr: HostAddress)
        ensures
            final(self).current_spec() == addr,
            final(self).cached_spec() == addr,
            final(self).state_spec() == WatchdogState::Connected,
            final(self).attempts_spec() == 0,
            final(self).host_spec() == old(self).host_spec(),
            final(self).attempted_spec() == old(self).attempted_spec(),
    {
        self.current_addr = addr;
        self.cached_addr = addr;
        self.state = WatchdogState::Connected;
        self.attempts = 0;
    }

    /// The delay before the next attempt, in milliseconds.
    pub fn current_backoff_ms(&self) -> (ms: u64)
        ensures
            ms == backoff_ms_after(self.attempts_spec()),
    {
        backoff_ms(self.attempts)
    }

    /// The delay before the next attempt.
    pub fn current_backoff(&self) -> (d: Duration)
        ensures
            duration_nanos(d) == backoff_ms_after(self.attempts_spec()) * 1_000_000,
    {
        Duration::from_millis(backoff_ms(self.attempts))
    }
}

} // verus!
