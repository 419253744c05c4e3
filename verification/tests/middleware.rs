use rpc_interceptor::middleware::CallStep;
use rpc_interceptor::middleware::Handle;
use rpc_interceptor::middleware::LocalHandle;
use rpc_interceptor::middleware::RequestLoggerLayer;
use rpc_interceptor::middleware::conclude;
use rpc_interceptor::middleware::log_line;

#[test]
fn layer_purely_wraps() {
    let layer = RequestLoggerLayer;
    let mut svc = layer.layer(LocalHandle { id: 7 });
    let c = svc.call(1u8, "GET", "/users");
    assert_eq!(c.handle, LocalHandle { id: 7 });
}

#[test]
fn log_line_is_method_space_path() {
    let line = log_line("GET", "/api/users");
    assert_eq!(line, "GET /api/users");
}

#[test]
fn call_plans_one_emit_then_invoke() {
    let layer = RequestLoggerLayer;
    let mut svc = layer.layer(LocalHandle { id: 3 });
    let c = svc.call(99u8, "POST", "/users/u1");
    assert_eq!(c.steps.len(), 2);
    assert_eq!(c.steps[0], CallStep::Emit("POST /users/u1".to_string()));
    assert_eq!(c.steps[1], CallStep::Invoke(99u8));
}

#[test]
fn poll_ready_delegates_verbatim() {
    let layer = RequestLoggerLayer;
    let svc = layer.layer(LocalHandle { id: 1 });
    let ready: Result<(), String> = Ok(());
    assert_eq!(svc.poll_ready(ready), Ok(()));
    let failed: Result<(), String> = Err("inner failure".to_string());
    assert_eq!(svc.poll_ready(failed), Err("inner failure".to_string()));
}

#[test]
fn call_leaves_held_handle_intact() {
    let layer = RequestLoggerLayer;
    let mut svc = layer.layer(LocalHandle { id: 5 });
    let first = svc.call(0u8, "GET", "/a");
    // Abandon the in-flight call before it runs: later calls are undisturbed.
    drop(first);
    let second = svc.call(1u8, "GET", "/b");
    assert_eq!(second.handle, LocalHandle { id: 5 });
    assert_eq!(second.steps[0], CallStep::Emit("GET /b".to_string()));
}

#[test]
fn fifty_calls_through_one_instance() {
    let layer = RequestLoggerLayer;
    let mut svc = layer.layer(LocalHandle { id: 11 });
    let mut in_flight = Vec::new();
    for i in 0..50u8 {
        in_flight.push(svc.call(i, "GET", "/users"));
    }
    assert_eq!(in_flight.len(), 50);
    for (i, c) in in_flight.into_iter().enumerate() {
        // Every call owns a handle equal to the originally held one and a
        // plan of its own; no call sees another call's in-flight state.
        assert_eq!(c.handle, LocalHandle { id: 11 });
        assert_eq!(c.steps.len(), 2);
        assert_eq!(c.steps[0], CallStep::Emit("GET /users".to_string()));
        assert_eq!(c.steps[1], CallStep::Invoke(i as u8));
    }
}

#[test]
fn decorated_service_composes() {
    let layer = RequestLoggerLayer;
    let once = layer.layer(LocalHandle { id: 2 });
    let mut twice = layer.layer(once);
    let c = twice.call(7u8, "DELETE", "/users/u9");
    assert_eq!(c.steps[0], CallStep::Emit("DELETE /users/u9".to_string()));
    let mut inner = c.handle;
    let inner_call = inner.call(7u8, "DELETE", "/users/u9");
    assert_eq!(inner_call.handle, LocalHandle { id: 2 });
}

#[test]
fn inner_failure_passes_through_unchanged() {
    let failure: Result<(), String> = Err("connection reset".to_string());
    assert_eq!(conclude(failure), Err("connection reset".to_string()));
}

#[test]
fn readiness_is_asked_of_the_current_handle() {
    let layer = RequestLoggerLayer;
    let mut svc = layer.layer(LocalHandle { id: 1 });
    // Polling may update the held handle's own state; the next call checks
    // out whatever handle answered readiness.
    svc.held().id = 9;
    let c = svc.call(0u8, "GET", "/");
    assert_eq!(c.handle, LocalHandle { id: 9 });
}

#[test]
fn duplicate_yields_the_same_handle() {
    let h = LocalHandle { id: 42 };
    assert_eq!(h.duplicate(), h);
}
