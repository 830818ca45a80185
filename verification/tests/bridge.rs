use haproxy_api::filter::{method_enabled, process_result, FilterMethod};
use haproxy_api::headers::{ascii_lowercase, pair_values, sort_pairs};
use haproxy_api::registry::complete;
use haproxy_api::{
    start_task, Action, FilterResult, LogLevel, PollOutcome, ProxyCapability, ProxyMode,
    ResourcePool, ServiceMode, TaskFuture, TaskIdGen, TaskRegistry, Time, YieldOverride,
    PER_WORKER_POOL_SIZE,
};

#[test]
fn id_allocation_starts_at_one() {
    let mut gen = TaskIdGen::new();
    assert_eq!(gen.allocate(), 1);
    assert_eq!(gen.allocate(), 2);
    assert_eq!(gen.allocate(), 3);
}

#[test]
fn id_allocation_wraps_around() {
    let mut gen = TaskIdGen::new();
    let mut last: u16 = 0;
    for _ in 0..70000u32 {
        last = gen.allocate();
    }
    // 70000 allocations starting at 1 pass the wraparound.
    assert_eq!(last as u32, (70000 % 65536) as u32);
}

#[test]
fn pool_checkout_of_empty_pool() {
    let mut pool: ResourcePool<u64> = ResourcePool::new(4);
    assert_eq!(pool.checkout(), None);
    assert_eq!(pool.len(), 0);
}

#[test]
fn pool_is_last_in_first_out() {
    let mut pool: ResourcePool<u64> = ResourcePool::new(4);
    assert!(pool.checkin(10));
    assert!(pool.checkin(20));
    assert_eq!(pool.checkout(), Some(20));
    assert_eq!(pool.checkout(), Some(10));
    assert_eq!(pool.checkout(), None);
}

#[test]
fn pool_rejects_checkin_beyond_capacity() {
    let mut pool: ResourcePool<u64> = ResourcePool::new(2);
    assert!(pool.checkin(1));
    assert!(pool.checkin(2));
    assert!(!pool.checkin(3));
    assert_eq!(pool.len(), 2);
    // The rejected resource was not pooled; the two originals are intact.
    assert_eq!(pool.checkout(), Some(2));
    assert_eq!(pool.checkout(), Some(1));
}

#[test]
fn pool_at_default_capacity() {
    let mut pool: ResourcePool<u32> = ResourcePool::new(PER_WORKER_POOL_SIZE);
    for i in 0..PER_WORKER_POOL_SIZE as u32 {
        assert!(pool.checkin(i));
    }
    assert!(!pool.checkin(9999));
    assert_eq!(pool.len(), PER_WORKER_POOL_SIZE);
}

#[test]
fn consume_succeeds_at_most_once() {
    let mut reg = TaskRegistry::new();
    let id = reg.allocate();
    let _tx = reg.register(id);
    assert!(reg.consume(id).is_some());
    // A second claim of the same id finds nothing.
    assert!(reg.consume(id).is_none());
}

#[test]
fn consume_of_never_registered_id() {
    let mut reg = TaskRegistry::new();
    assert!(reg.consume(123).is_none());
}

#[test]
fn completion_is_delivered_to_live_entry() {
    let mut reg = TaskRegistry::new();
    let id = reg.allocate();
    let tx = reg.register(id);
    // The worker fires the signal; the entry stays claimable.
    assert!(complete(tx));
    let mut rx = reg.consume(id).expect("entry must still be claimable");
    assert!(rx.try_recv().is_ok());
}

#[test]
fn completion_after_collection_is_a_noop() {
    let mut reg = TaskRegistry::new();
    let id = reg.allocate();
    let tx = reg.register(id);
    let rx = reg.consume(id).unwrap();
    drop(rx);
    // The receiver is gone; delivery reports that and harms nothing.
    assert!(!complete(tx));
}

#[test]
fn reused_id_does_not_cross_deliver() {
    let mut reg = TaskRegistry::new();
    let id = reg.allocate();

    // First task: registered, completed, fully collected.
    let tx1 = reg.register(id);
    assert!(complete(tx1));
    let mut rx1 = reg.consume(id).unwrap();
    assert!(rx1.try_recv().is_ok());

    // Second task reuses the id after the first was collected.
    let tx2 = reg.register(id);
    let mut rx2 = reg.consume(id).expect("the reused id must be claimable again");
    // The first task's signal must not leak into the second task's receiver.
    assert!(rx2.try_recv().is_err());
    assert!(complete(tx2));
    assert!(rx2.try_recv().is_ok());
}

#[test]
fn stale_entry_is_overwritten_on_reuse() {
    let mut reg = TaskRegistry::new();
    let id = reg.allocate();
    // The first task is never collected; the id space wrapped onto it.
    let _tx1 = reg.register(id);
    let tx2 = reg.register(id);
    assert!(complete(tx2));
    let mut rx = reg.consume(id).unwrap();
    assert!(rx.try_recv().is_ok());
    // Only one entry existed: the stale one was overwritten, not kept.
    assert!(reg.consume(id).is_none());
}

#[test]
fn poll_reports_active_id_until_resolved() {
    let mut fut = TaskFuture::new(17);
    match fut.poll_step::<u32>(None) {
        PollOutcome::Suspend { active_id } => assert_eq!(active_id, 17),
        PollOutcome::Ready(_) => panic!("operation has not resolved"),
    }
    // A spurious wakeup re-records the same id.
    match fut.poll_step::<u32>(None) {
        PollOutcome::Suspend { active_id } => assert_eq!(active_id, 17),
        PollOutcome::Ready(_) => panic!("operation has not resolved"),
    }
    match fut.poll_step(Some(99u32)) {
        PollOutcome::Ready(v) => assert_eq!(v, 99),
        PollOutcome::Suspend { .. } => panic!("operation resolved"),
    }
}

#[test]
fn start_task_registers_fresh_id() {
    let mut reg = TaskRegistry::new();
    let (fut1, tx1) = start_task(&mut reg);
    let (fut2, _tx2) = start_task(&mut reg);
    drop(fut2);
    assert!(complete(tx1));
    // Task 1 got id 1, task 2 got id 2; both are claimable.
    assert!(reg.consume(1).is_some());
    assert!(reg.consume(2).is_some());
    drop(fut1);
}

#[test]
fn yield_override_installs_once() {
    let mut slot = YieldOverride::new();
    assert!(slot.install());
    // The bridge is not reentrant: a nested installation is refused.
    assert!(!slot.install());
    assert!(slot.restore());
    // The original primitive is restored exactly once.
    assert!(!slot.restore());
    assert!(slot.install());
}

#[test]
fn action_keywords() {
    assert_eq!(Action::TcpReq.as_str(), "tcp-req");
    assert_eq!(Action::TcpRes.as_str(), "tcp-res");
    assert_eq!(Action::HttpReq.as_str(), "http-req");
    assert_eq!(Action::HttpRes.as_str(), "http-res");
    assert_eq!(Action::HttpAfterRes.as_str(), "http-after-res");
}

#[test]
fn service_mode_keywords() {
    assert_eq!(ServiceMode::Tcp.as_str(), "tcp");
    assert_eq!(ServiceMode::Http.as_str(), "http");
}

#[test]
fn log_level_codes() {
    assert_eq!(LogLevel::Emerg.code(), 0);
    assert_eq!(LogLevel::Alert.code(), 1);
    assert_eq!(LogLevel::Crit.code(), 2);
    assert_eq!(LogLevel::Error.code(), 3);
    assert_eq!(LogLevel::Warning.code(), 4);
    assert_eq!(LogLevel::Notice.code(), 5);
    assert_eq!(LogLevel::Info.code(), 6);
    assert_eq!(LogLevel::Debug.code(), 7);
}

#[test]
fn time_is_plain_data() {
    let t = Time { sec: 12, usec: 345678 };
    assert_eq!(t.sec, 12);
    assert_eq!(t.usec, 345678);
}

#[test]
fn filter_result_codes() {
    assert_eq!(FilterResult::Continue.code(), 1);
    assert_eq!(FilterResult::Wait.code(), 0);
    assert_eq!(FilterResult::Error.code(), -1);
}

#[test]
fn filter_method_mask() {
    let mask = FilterMethod::START_ANALYZE | FilterMethod::HTTP_END;
    assert!(method_enabled(mask, FilterMethod::START_ANALYZE));
    assert!(method_enabled(mask, FilterMethod::HTTP_END));
    assert!(!method_enabled(mask, FilterMethod::HTTP_PAYLOAD));
    assert!(method_enabled(FilterMethod::ALL, FilterMethod::HTTP_HEADERS));
}

#[test]
fn filter_error_policy() {
    assert_eq!(process_result(Some(FilterResult::Wait), true), Some(0));
    assert_eq!(process_result(Some(FilterResult::Error), false), Some(-1));
    // A failed callback continues the stream under the lenient policy
    // and propagates otherwise.
    assert_eq!(process_result(None, true), Some(1));
    assert_eq!(process_result(None, false), None);
}

#[test]
fn proxy_capability_keywords() {
    assert_eq!(ProxyCapability::parse("frontend"), ProxyCapability::Frontend);
    assert_eq!(ProxyCapability::parse("backend"), ProxyCapability::Backend);
    assert_eq!(ProxyCapability::parse("proxy"), ProxyCapability::Proxy);
    assert_eq!(ProxyCapability::parse("ruleset"), ProxyCapability::Ruleset);
    assert_eq!(ProxyCapability::parse("anything-else"), ProxyCapability::Ruleset);
}

#[test]
fn proxy_mode_keywords() {
    assert_eq!(ProxyMode::parse("tcp"), ProxyMode::Tcp);
    assert_eq!(ProxyMode::parse("http"), ProxyMode::Http);
    assert_eq!(ProxyMode::parse("health"), ProxyMode::Health);
    assert_eq!(ProxyMode::parse("unknown-mode"), ProxyMode::Unknown);
}

#[test]
fn header_name_lowercasing() {
    assert_eq!(ascii_lowercase(b"Content-Type"), b"content-type".to_vec());
    assert_eq!(ascii_lowercase(b"X-REQUEST-ID"), b"x-request-id".to_vec());
    assert_eq!(ascii_lowercase(b"already-lower"), b"already-lower".to_vec());
    assert_eq!(ascii_lowercase(b""), Vec::<u8>::new());
}

#[test]
fn header_pairs_sorted_by_index() {
    let mut pairs: Vec<(i32, String)> = vec![
        (2, "c".to_string()),
        (0, "a".to_string()),
        (1, "b".to_string()),
    ];
    sort_pairs(&mut pairs);
    assert_eq!(
        pairs,
        vec![(0, "a".to_string()), (1, "b".to_string()), (2, "c".to_string())]
    );
    let values = pair_values(pairs);
    assert_eq!(values, vec!["a".to_string(), "b".to_string(), "c".to_string()]);
}

#[test]
fn header_pairs_empty_and_single() {
    let mut empty: Vec<(i32, u8)> = Vec::new();
    sort_pairs(&mut empty);
    assert!(pair_values(empty).is_empty());
    let mut single: Vec<(i32, u8)> = vec![(5, 77)];
    sort_pairs(&mut single);
    assert_eq!(pair_values(single), vec![77]);
}
