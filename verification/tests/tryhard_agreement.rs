use providers::health::HealthSignal;
use providers::policy::RetryPolicy;
use providers::selector::Providers;
use providers::supervisor::Phase;
use providers::trace::replay;
use std::sync::{Arc, Mutex};
use std::time::Duration;

fn span(nanos: u128) -> Duration {
    Duration::from_nanos(u64::try_from(nanos).unwrap())
}

/// Runs `tryhard` under `policy` on a factory that fails `failures` times and
/// then succeeds. Gives the number of invocations, the delays that it slept,
/// and whether it ended without an error.
fn run_tryhard(policy: RetryPolicy, failures: usize) -> (usize, Vec<u128>, bool) {
    let calls = Arc::new(Mutex::new(0usize));
    let slept = Arc::new(Mutex::new(Vec::<u128>::new()));
    let runtime = tokio::runtime::Builder::new_current_thread()
        .enable_time()
        .start_paused(true)
        .build()
        .unwrap();
    let result: Result<(), String> = runtime.block_on({
        let calls = Arc::clone(&calls);
        let slept = Arc::clone(&slept);
        async move {
            tryhard::retry_fn(move || {
                let mut made = calls.lock().unwrap();
                *made += 1;
                let fails = *made <= failures;
                async move {
                    if fails {
                        Err(String::from("down"))
                    } else {
                        Ok(())
                    }
                }
            })
            .retries(policy.max_attempts)
            .exponential_backoff(span(policy.backoff_step))
            .max_delay(span(policy.max_delay))
            .on_retry(move |_attempt, next_delay: Option<Duration>, _error: &String| {
                if let Some(delay) = next_delay {
                    slept.lock().unwrap().push(delay.as_nanos());
                }
                async move {}
            })
            .await
        }
    });
    let made = *calls.lock().unwrap();
    let delays = slept.lock().unwrap().clone();
    (made, delays, result.is_ok())
}

fn run_library(policy: RetryPolicy, failures: usize) -> (usize, Vec<u128>, bool) {
    let mut outcomes = vec![true; failures];
    outcomes.push(false);
    let mut health = HealthSignal::new();
    let report = replay(providers::supervisor::Supervisor::start(policy), &mut health, &outcomes);
    (report.invocations, report.delays, report.end.phase == Phase::Succeeded)
}

#[test]
fn recovery_agrees_with_tryhard() {
    let policy = RetryPolicy::new(3, 250_000_000, 2_000_000_000).unwrap();
    assert_eq!(run_tryhard(policy, 2), (3, vec![250_000_000, 500_000_000], true));
    assert_eq!(run_library(policy, 2), run_tryhard(policy, 2));
}

#[test]
fn exhaustion_agrees_with_tryhard() {
    let policy = RetryPolicy::new(3, 250_000_000, 2_000_000_000).unwrap();
    assert_eq!(
        run_tryhard(policy, 50),
        (4, vec![250_000_000, 500_000_000, 1_000_000_000], false)
    );
    assert_eq!(run_library(policy, 50), run_tryhard(policy, 50));
}

#[test]
fn standard_policy_agrees_with_tryhard() {
    let policy = Providers::task().policy;
    for failures in [0usize, 1, 3, 4, 25, 26, 40] {
        assert_eq!(run_library(policy, failures), run_tryhard(policy, failures));
    }
}

#[test]
fn odd_ceiling_agrees_with_tryhard() {
    let policy = RetryPolicy::new(7, 3_000, 10_000).unwrap();
    for failures in 0..10usize {
        assert_eq!(run_library(policy, failures), run_tryhard(policy, failures));
    }
}
