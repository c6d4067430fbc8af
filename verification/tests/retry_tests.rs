use update_agent::engine::UpdateOutcome;
use update_agent::messages::outcome_message;
use update_agent::retry::{Retry, RetryDecision, RetryPolicy};

#[test]
fn fails_twice_then_succeeds_in_three_attempts() {
    // The collaborator fails twice, then succeeds with version 1.2.0:
    // two retries are granted under backoff, the third call succeeds,
    // and the success message names the new version.
    let mut retry = Retry::new(RetryPolicy::standard());
    let mut attempts: u32 = 0;
    attempts += 1; // first call fails
    assert_eq!(retry.on_failure(), RetryDecision::RetryAfterMs(500));
    attempts += 1; // second call fails
    assert_eq!(retry.on_failure(), RetryDecision::RetryAfterMs(750));
    attempts += 1; // third call succeeds
    let outcome = UpdateOutcome::Updated("1.2.0".to_string());
    let message = outcome_message("tool", "1.0.0", &outcome);
    assert_eq!(attempts, 3);
    assert!(message.contains("1.2.0"));
    assert_eq!(message, "Updated 'tool' from 1.0.0 to 1.2.0");
}

#[test]
fn gives_up_at_the_attempt_ceiling() {
    let policy = RetryPolicy {
        initial_delay_ms: 100,
        multiplier_num: 2,
        multiplier_den: 1,
        max_delay_ms: 1000,
        max_attempts: 3,
    };
    let mut retry = Retry::new(policy);
    assert_eq!(retry.on_failure(), RetryDecision::RetryAfterMs(100));
    assert_eq!(retry.on_failure(), RetryDecision::RetryAfterMs(200));
    // A third failure would need a fourth call, over the ceiling of 3.
    assert_eq!(retry.on_failure(), RetryDecision::GiveUp);
}

#[test]
fn delay_grows_geometrically_until_the_cap() {
    let policy = RetryPolicy {
        initial_delay_ms: 800,
        multiplier_num: 3,
        multiplier_den: 2,
        max_delay_ms: 1000,
        max_attempts: 10,
    };
    let mut retry = Retry::new(policy);
    assert_eq!(retry.on_failure(), RetryDecision::RetryAfterMs(800));
    // 800 * 3 / 2 = 1200, capped at 1000.
    assert_eq!(retry.on_failure(), RetryDecision::RetryAfterMs(1000));
    assert_eq!(retry.on_failure(), RetryDecision::RetryAfterMs(1000));
}

#[test]
fn next_delay_applies_the_multiplier() {
    let policy = RetryPolicy::standard();
    assert_eq!(policy.next_delay(500), 750);
    assert_eq!(policy.next_delay(750), 1125);
    assert_eq!(policy.next_delay(60000), 60000);
}
