use std::sync::Arc;
use std::time::{Duration, Instant};

use loom_core::action_broker::{
    ActionBroker, BrokerError, CapabilityProvider, ProviderOutcome, settle,
};
use loom_core::effective_timeout_ms;
use loom_core::model::{
    ActionCall, ActionError, ActionResult, ActionStatus, CapabilityDescriptor, ProviderKind,
    QosLevel,
};

enum Behavior {
    /// Speak the text of a `{"text":"..."}` payload back as `{"spoken":"..."}`,
    /// after an optional delay.
    Echo { delay_ms: u64 },
    /// Never complete.
    Hang,
    /// Fail on the provider's own error channel, outside any structured result.
    Fault(String),
    /// Complete with a fixed output tag.
    Fixed(&'static [u8]),
}

struct TestProvider {
    name: String,
    behavior: Behavior,
}

/// Shared provider handle: what the registry stores and a dispatch clones
/// before awaiting, so an in-flight call keeps its provider across a
/// replacement.
#[derive(Clone)]
struct Shared(Arc<TestProvider>);

impl CapabilityProvider for Shared {
    fn descriptor(&self) -> CapabilityDescriptor {
        CapabilityDescriptor {
            name: self.0.name.clone(),
            version: "0.1.0".to_string(),
            provider: ProviderKind::Native,
            metadata: Vec::new(),
        }
    }
}

impl TestProvider {
    async fn run(&self, call: ActionCall) -> Result<ActionResult, String> {
        match &self.behavior {
            Behavior::Echo { delay_ms } => {
                if *delay_ms > 0 {
                    tokio::time::sleep(Duration::from_millis(*delay_ms)).await;
                }
                let payload = String::from_utf8(call.payload).unwrap_or_default();
                let text = payload
                    .strip_prefix("{\"text\":\"")
                    .and_then(|rest| rest.strip_suffix("\"}"));
                match text {
                    Some(t) => Ok(ActionResult {
                        id: call.id,
                        status: ActionStatus::ActionOk,
                        output: format!("{{\"spoken\":\"{}\"}}", t).into_bytes(),
                        error: None,
                    }),
                    None => Ok(ActionResult {
                        id: call.id,
                        status: ActionStatus::ActionError,
                        output: Vec::new(),
                        error: Some(ActionError {
                            code: "BAD_PAYLOAD".to_string(),
                            message: "expected JSON {\"text\":\"...\"}".to_string(),
                            details: Vec::new(),
                        }),
                    }),
                }
            }
            Behavior::Hang => {
                std::future::pending::<()>().await;
                unreachable!()
            }
            Behavior::Fault(msg) => Err(msg.clone()),
            Behavior::Fixed(bytes) => Ok(ActionResult {
                id: call.id,
                status: ActionStatus::ActionOk,
                output: bytes.to_vec(),
                error: None,
            }),
        }
    }
}

fn call(capability: &str, payload: &[u8], timeout_ms: i64) -> ActionCall {
    ActionCall {
        id: "call-0001".to_string(),
        capability: capability.to_string(),
        version: "0.1.0".to_string(),
        payload: payload.to_vec(),
        headers: Vec::new(),
        timeout_ms,
        correlation_id: "session-1".to_string(),
        qos: QosLevel::Unspecified,
    }
}

/// The dispatch protocol the embedding runtime follows around the verified
/// core: resolve, race the provider against the effective deadline, settle.
async fn dispatch(
    broker: &ActionBroker<Shared>,
    call: ActionCall,
) -> Result<ActionResult, BrokerError> {
    let provider = match broker.resolve(&call.capability) {
        Ok(p) => p.0.clone(),
        Err(e) => return Err(e),
    };
    let call_id = call.id.clone();
    let dur = effective_timeout_ms(call.timeout_ms);
    let outcome = match tokio::time::timeout(Duration::from_millis(dur), provider.run(call)).await
    {
        Ok(Ok(res)) => ProviderOutcome::Completed(res),
        Ok(Err(msg)) => ProviderOutcome::Faulted(msg),
        Err(_) => ProviderOutcome::TimedOut,
    };
    Ok(settle(call_id, outcome))
}

fn block_on<F: std::future::Future>(fut: F) -> F::Output {
    tokio::runtime::Builder::new_current_thread()
        .enable_time()
        .build()
        .expect("runtime")
        .block_on(fut)
}

fn register(broker: &mut ActionBroker<Shared>, name: &str, behavior: Behavior) {
    broker.register_provider(Shared(Arc::new(TestProvider {
        name: name.to_string(),
        behavior,
    })));
}

#[test]
fn echo_call_speaks_payload() {
    block_on(async {
        let mut broker = ActionBroker::new();
        register(&mut broker, "echo", Behavior::Echo { delay_ms: 0 });
        let res = dispatch(&broker, call("echo", b"{\"text\":\"hi\"}", 1000))
            .await
            .expect("routing succeeds");
        assert_eq!(res.status, ActionStatus::ActionOk);
        assert_eq!(res.output, b"{\"spoken\":\"hi\"}".to_vec());
        assert_eq!(res.id, "call-0001");
        assert!(res.error.is_none());
    });
}

#[test]
fn unregistered_capability_is_a_routing_error() {
    block_on(async {
        let mut broker = ActionBroker::new();
        register(&mut broker, "echo", Behavior::Echo { delay_ms: 0 });
        match dispatch(&broker, call("ghost.tool", b"{}", 1000)).await {
            Err(BrokerError::CapabilityNotFound { capability }) => {
                assert_eq!(capability, "ghost.tool");
            }
            Ok(_) => panic!("routing must fail before any provider executes"),
        }
    });
}

#[test]
fn hanging_provider_times_out_near_deadline() {
    block_on(async {
        let mut broker = ActionBroker::new();
        register(&mut broker, "stuck", Behavior::Hang);
        let started = Instant::now();
        let res = dispatch(&broker, call("stuck", b"{}", 100))
            .await
            .expect("routing succeeds");
        let elapsed = started.elapsed();
        assert_eq!(res.status, ActionStatus::ActionTimeout);
        assert_eq!(res.id, "call-0001");
        assert!(res.output.is_empty());
        let e = res.error.expect("timeout carries an error");
        assert_eq!(e.code, "TIMEOUT");
        assert!(elapsed >= Duration::from_millis(100), "deadline is a floor");
        assert!(
            elapsed < Duration::from_millis(400),
            "timeout overshoot was {:?}",
            elapsed
        );
    });
}

#[test]
fn faulting_provider_is_wrapped_as_capability_error() {
    block_on(async {
        let mut broker = ActionBroker::new();
        register(
            &mut broker,
            "flaky",
            Behavior::Fault("guest module trapped".to_string()),
        );
        let res = dispatch(&broker, call("flaky", b"{}", 1000))
            .await
            .expect("routing succeeds");
        assert_eq!(res.status, ActionStatus::ActionError);
        assert_eq!(res.id, "call-0001");
        assert!(res.output.is_empty());
        let e = res.error.expect("fault carries an error");
        assert_eq!(e.code, "CAPABILITY_ERROR");
        assert_eq!(e.message, "guest module trapped");
    });
}

#[test]
fn second_registration_shadows_first() {
    block_on(async {
        let mut broker = ActionBroker::new();
        register(&mut broker, "echo", Behavior::Fixed(b"first"));
        register(&mut broker, "echo", Behavior::Fixed(b"second"));
        let res = dispatch(&broker, call("echo", b"{}", 1000))
            .await
            .expect("routing succeeds");
        assert_eq!(res.output, b"second".to_vec());
        let listed = broker.list_capabilities();
        assert_eq!(listed.len(), 1, "exactly one descriptor for the name");
        assert_eq!(listed[0].name, "echo");
    });
}

#[test]
fn in_flight_call_finishes_against_old_provider() {
    block_on(async {
        let mut broker = ActionBroker::new();
        register(&mut broker, "echo", Behavior::Fixed(b"old"));
        let name = "echo".to_string();
        let old_provider = broker.resolve(&name).expect("registered").0.clone();
        let in_flight = old_provider.run(call("echo", b"{}", 1000));
        register(&mut broker, "echo", Behavior::Fixed(b"new"));
        let res = in_flight.await.expect("old provider completes");
        assert_eq!(res.output, b"old".to_vec(), "in-flight call kept its provider");
        let after = dispatch(&broker, call("echo", b"{}", 1000))
            .await
            .expect("routing succeeds");
        assert_eq!(after.output, b"new".to_vec(), "new calls reach the replacement");
    });
}
