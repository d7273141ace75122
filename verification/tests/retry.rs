use std::time::Duration;

use grpc_quic::retry::capped_backoff;

/// The retry policy of a channel: its growth is a float multiplier, worked
/// out here as the channel works it out; the cap is the library's.
struct Policy {
    initial_backoff: Duration,
    backoff_multiplier: f64,
    max_backoff: Duration,
}

impl Default for Policy {
    fn default() -> Self {
        Policy {
            initial_backoff: Duration::from_millis(100),
            backoff_multiplier: 2.0,
            max_backoff: Duration::from_secs(30),
        }
    }
}

impl Policy {
    fn backoff_for(&self, attempt: u32) -> Duration {
        let factor = self.backoff_multiplier.powi(attempt as i32);
        let millis = (self.initial_backoff.as_millis() as f64 * factor) as u64;
        capped_backoff(millis, self.max_backoff)
    }
}

#[test]
fn backoff_grows_exponentially() {
    let policy = Policy::default();
    let b0 = policy.backoff_for(0);
    let b1 = policy.backoff_for(1);
    let b2 = policy.backoff_for(2);
    assert!(b1 > b0, "backoff should grow");
    assert!(b2 > b1, "backoff should grow");
    assert!(b2 <= policy.max_backoff, "backoff must not exceed cap");
}

#[test]
fn backoff_capped_at_max() {
    let policy = Policy { max_backoff: Duration::from_millis(500), ..Default::default() };
    let large = policy.backoff_for(100);
    assert_eq!(large, Duration::from_millis(500));
}
