use op_rbuilder::cancellation::{CancellationRegistry, PayloadJobCancellation};
use op_rbuilder::error::PayloadBuilderError;
use op_rbuilder::resolve::{ResolvePayload, ResolveStep};
use op_rbuilder::time::{job_deadline, TimeSpan};
use std::future::Future;
use std::sync::{Arc, Mutex};
use std::time::{SystemTime, UNIX_EPOCH};
use tokio::runtime::{Builder, Runtime};
use tokio::sync::watch;
use tokio::time::{sleep, timeout, Duration};

#[derive(Clone, Debug, PartialEq, Eq)]
struct MockPayload(u64);

fn runtime() -> Runtime {
    Builder::new_multi_thread()
        .worker_threads(2)
        .enable_time()
        .build()
        .expect("runtime should start")
}

fn duration(span: TimeSpan) -> Duration {
    Duration::new(span.as_secs(), span.subsec_nanos())
}

#[derive(Clone)]
struct Shared(Arc<Mutex<CancellationRegistry>>);

impl Shared {
    fn new() -> Self {
        Shared(Arc::new(Mutex::new(CancellationRegistry::new())))
    }

    fn register(&self) -> PayloadJobCancellation {
        self.0.lock().unwrap().register()
    }

    fn is_resolved(&self, cancel: PayloadJobCancellation) -> bool {
        self.0.lock().unwrap().is_resolved(cancel)
    }

    fn is_cancelled(&self, cancel: PayloadJobCancellation) -> bool {
        self.0.lock().unwrap().is_cancelled(cancel)
    }
}

fn resolve<T: Clone + Send + Sync + 'static>(
    shared: Shared,
    mut resolve: ResolvePayload<T>,
) -> impl Future<Output = Result<T, PayloadBuilderError>> + Send {
    async move {
        loop {
            let step = resolve.step(&mut shared.0.lock().unwrap());
            match step {
                ResolveStep::Ready(outcome) => return outcome,
                ResolveStep::AwaitChange => {
                    let changed = match resolve.payload_rx.as_mut() {
                        Some(rx) => rx.changed().await,
                        None => unreachable!(),
                    };
                    resolve.on_changed(changed)?;
                }
            }
        }
    }
}

#[test]
fn test_job_deadline() {
    // Test future deadline
    let now = SystemTime::now().duration_since(UNIX_EPOCH).unwrap();
    let future_timestamp = now + Duration::from_secs(2);
    // 2 seconds from now
    let deadline = duration(job_deadline(future_timestamp.as_secs()).unwrap());
    assert!(deadline <= Duration::from_secs(2));
    assert!(deadline > Duration::from_secs(0));

    // Test past deadline
    let past_timestamp = now - Duration::from_secs(10);
    let deadline = duration(job_deadline(past_timestamp.as_secs()).unwrap());
    // Should default to 1 second when timestamp is in the past
    assert_eq!(deadline, Duration::from_secs(1));

    // Test current timestamp
    let deadline = duration(job_deadline(now.as_secs()).unwrap());
    // Should use 1 second when timestamp is current
    assert_eq!(deadline, Duration::from_secs(1));
}

#[test]
fn test_resolve_payload_waits_for_first_value() {
    runtime().block_on(async {
        let (tx, rx) = watch::channel::<Option<MockPayload>>(None);
        let shared = Shared::new();
        let cancel = shared.register();
        let resolve = resolve(shared.clone(), ResolvePayload::new(Some(rx), cancel));

        tokio::spawn(async move {
            sleep(Duration::from_millis(50)).await;
            tx.send_replace(Some(MockPayload(7)));
        });

        let payload = timeout(Duration::from_secs(1), resolve)
            .await
            .expect("resolve should complete")
            .expect("resolve should return payload");
        assert_eq!(payload, MockPayload(7));
        assert!(shared.is_resolved(cancel));
        assert!(shared.is_cancelled(cancel));
    });
}

#[test]
fn test_resolve_payload_returns_latest_value() {
    runtime().block_on(async {
        let (tx, rx) = watch::channel::<Option<MockPayload>>(None);
        tx.send_replace(Some(MockPayload(1)));
        tx.send_replace(Some(MockPayload(2)));

        let shared = Shared::new();
        let cancel = shared.register();
        let payload = resolve(shared.clone(), ResolvePayload::new(Some(rx), cancel))
            .await
            .expect("resolve should return payload");

        assert_eq!(payload, MockPayload(2));
        assert!(shared.is_resolved(cancel));
        assert!(shared.is_cancelled(cancel));
    });
}

#[test]
fn test_resolve_payload_errors_if_builder_exits_without_payload() {
    runtime().block_on(async {
        let (tx, rx) = watch::channel::<Option<MockPayload>>(None);
        drop(tx);

        let shared = Shared::new();
        let cancel = shared.register();
        let error = resolve(shared.clone(), ResolvePayload::new(Some(rx), cancel))
            .await
            .expect_err("resolve should error when sender closes before value");
        match error {
            PayloadBuilderError::Other(message) => {
                assert_eq!(message, "builder exited before producing payload")
            }
            other => panic!("unexpected error {other:?}"),
        }
        assert!(!shared.is_cancelled(cancel));
    });
}

#[test]
fn test_resolve_payload_errors_if_receiver_missing() {
    runtime().block_on(async {
        let shared = Shared::new();
        let cancel = shared.register();
        let error = resolve(shared.clone(), ResolvePayload::<MockPayload>::new(None, cancel))
            .await
            .expect_err("resolve should error when receiver is missing");
        match error {
            PayloadBuilderError::Other(message) => assert_eq!(message, "payload receiver missing"),
            other => panic!("unexpected error {other:?}"),
        }
        assert!(!shared.is_cancelled(cancel));
    });
}

#[test]
fn test_resolve_payload_cancels_after_payload_arrives() {
    runtime().block_on(async {
        let (tx, rx) = watch::channel::<Option<MockPayload>>(None);
        let shared = Shared::new();
        let cancel = shared.register();
        let handle =
            tokio::spawn(resolve(shared.clone(), ResolvePayload::new(Some(rx), cancel)));

        sleep(Duration::from_millis(20)).await;
        assert!(!shared.is_cancelled(cancel));

        tx.send_replace(Some(MockPayload(9)));
        let payload = timeout(Duration::from_secs(1), handle)
            .await
            .expect("task should finish")
            .expect("task should not panic")
            .expect("resolve should return payload");

        assert_eq!(payload, MockPayload(9));
        assert!(shared.is_resolved(cancel));
        assert!(shared.is_cancelled(cancel));
    });
}
