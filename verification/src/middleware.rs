use vstd::prelude::*;

verus! {

/// The capability this layer decorates: a handle to a request handler that is
/// cheaply duplicable. A handle is logically reference-counted, so a
/// duplicate is the same handle, not an independent deep copy; readiness
/// confirmed on a handle is consumed by invoking through that very handle.
pub trait Handle: Sized {
    /// Produce a fresh logical copy of this handle. Duplication is the only
    /// operation the decorator itself needs from the wrapped service.
    fn duplicate(&self) -> (r: Self)
        ensures
            r == *self,
    ;
}

/// One step of the work a single call performs, in order: emit a log line,
/// or invoke the inner handler with the untouched request.
#[derive(Debug, Clone, PartialEq, Eq)]
pub enum CallStep<R> {
    Emit(String),
    Invoke(R),
}

/// The independently schedulable unit of work produced for one call: the
/// handle the call owns exclusively, and the ordered steps it performs.
pub struct InFlight<S, R> {
    pub handle: S,
    pub steps: Vec<CallStep<R>>,
}

/// Stateless factory: wraps any inner handler in a [`RequestLogger`] and does
/// no per-request work of its own.
#[derive(Debug, Clone, Default)]
pub struct RequestLoggerLayer;

/// The decorated handler: holds exactly one duplicable handle to the inner
/// service and adds one structured log line around every call, without
/// disturbing the inner handler's readiness/invocation contract.
#[derive(Debug, Clone)]
pub struct RequestLogger<S> {
    inner: S,
}

impl RequestLoggerLayer {
    /// Purely wraps: the decorated service holds exactly the handle it was
    /// given, and nothing else happens.
    pub fn layer<S>(&self, inner: S) -> (svc: RequestLogger<S>)
        ensures
            svc.inner_handle() == inner,
    {
        RequestLogger { inner }
    }
}

/// The structured log line for one call: `"{METHOD} {PATH}"`.
pub open spec fn spec_log_line(method: Seq<char>, path: Seq<char>) -> Seq<char> {
    method + " "@ + path
}

/// Builds the log line `"{METHOD} {PATH}"` from the two request fields this
/// layer reads; nothing else of the request is inspected.
pub fn log_line(method: &str, path: &str) -> (r: String)
    ensures
        r@ == spec_log_line(method@, path@),
{
    let mut r = method.to_owned();
    r.append(" ");
    r.append(path);
    r
}

impl<S> RequestLogger<S> {
    /// The handle the component currently holds; the next readiness check is
    /// answered by this handle, and the next call checks it out.
    pub closed spec fn inner_handle(&self) -> S {
        self.inner
    }

    /// Mutable access to the currently held handle. A readiness check is
    /// always answered by the handle the component holds at that moment, and
    /// polling may update that handle's own state.
    pub fn held(&mut self) -> (r: &mut S)
        ensures
            *r == old(self).inner_handle(),
            final(self).inner_handle() == *final(r),
    {
        &mut self.inner
    }

    /// Readiness is delegated verbatim: given what the currently held handle
    /// answered, the decorator returns exactly that answer, unmodified.
    pub fn poll_ready<P>(&self, inner_poll: P) -> (r: P)
        ensures
            r == inner_poll,
    {
        inner_poll
    }
}

impl<S: Handle> RequestLogger<S> {
    /// The interception point. Checks the currently held (already
    /// confirmed-ready) handle out for this call's exclusive use, installs a
    /// fresh duplicate in its place so later readiness checks and calls are
    /// undisturbed, and plans the call's work: first emit the one log line,
    /// then invoke the inner handler with the untouched request. The inner
    /// handler's result is the call's outcome; nothing is retried,
    /// suppressed, or reclassified here.
    pub fn call<R>(&mut self, req: R, method: &str, path: &str) -> (c: InFlight<S, R>)
        ensures
            c.handle == old(self).inner_handle(),
            final(self).inner_handle() == old(self).inner_handle(),
            c.steps@.len() == 2,
            (c.steps@[0] matches CallStep::Emit(line) && line@ == spec_log_line(
                method@,
                path@,
            )),
            c.steps@[1] == CallStep::<R>::Invoke(req),
    {
        let mut checked_out = self.inner.duplicate();
        core::mem::swap(&mut self.inner, &mut checked_out);
        let line = log_line(method, path);
        let mut steps: Vec<CallStep<R>> = Vec::new();
        steps.push(CallStep::Emit(line));
        steps.push(CallStep::Invoke(req));
        InFlight { handle: checked_out, steps }
    }
}

/// The call's outcome is the inner handler's result, unchanged: a success or
/// a failure is handed to the caller byte-for-byte, never retried, never
/// suppressed, and never reclassified by this layer.
pub fn conclude<T>(inner_result: T) -> (r: T)
    ensures
        r == inner_result,
{
    inner_result
}

impl<S: Handle> Handle for RequestLogger<S> {
    /// The decorator satisfies the same capability it consumes, so decorated
    /// services compose.
    fn duplicate(&self) -> (r: Self) {
        let inner = self.inner.duplicate();
        RequestLogger { inner }
    }
}

/// A minimal in-crate handle: a plain token standing for a handler instance,
/// duplicated by copying the token. It lets the decorator be exercised
/// without any surrounding runtime.
#[derive(Debug, Clone, Copy, PartialEq, Eq, Structural)]
pub struct LocalHandle {
    pub id: u64,
}

impl Handle for LocalHandle {
    fn duplicate(&self) -> (r: Self) {
        LocalHandle { id: self.id }
    }
}

/// How many log emissions a call's plan holds.
pub open spec fn emit_count<R>(steps: Seq<CallStep<R>>) -> nat
    decreases steps.len(),
{
    if steps.len() == 0 {
        0
    } else {
        emit_count(steps.drop_last()) + if steps.last() is Emit {
            1nat
        } else {
            0nat
        }
    }
}

/// Law: every planned call emits exactly one log line, and that emission
/// stands strictly before the invocation of the inner handler.
pub proof fn lemma_one_emit_before_invoke<S, R>(c: InFlight<S, R>)
    requires
        c.steps@.len() == 2,
        c.steps@[0] is Emit,
        c.steps@[1] is Invoke,
    ensures
        emit_count(c.steps@) == 1,
        forall|i: int, j: int|
            0 <= i < c.steps@.len() && 0 <= j < c.steps@.len() && c.steps@[i] is Emit
                && c.steps@[j] is Invoke ==> i < j,
{
    let s = c.steps@;
    assert(s.drop_last().drop_last().len() == 0);
    assert(emit_count(s.drop_last().drop_last()) == 0);
    assert(s.drop_last().last() == s[0]);
    assert(emit_count(s.drop_last()) == 1);
    assert(s.last() == s[1]);
}

/// A held handle that is never changed by a step stays the handle that was
/// held at the start.
proof fn lemma_held_handle_constant<S>(states: Seq<S>)
    requires
        forall|i: int| 0 <= i < states.len() - 1 ==> #[trigger] states[i + 1] == states[i],
    ensures
        forall|j: int| 0 <= j < states.len() ==> #[trigger] states[j] == states[0],
    decreases states.len(),
{
    if states.len() > 1 {
        let prefix = states.drop_last();
        assert forall|i: int| 0 <= i < prefix.len() - 1 implies #[trigger] prefix[i + 1]
            == prefix[i] by {
            assert(states[i + 1] == states[i]);
        }
        lemma_held_handle_constant(prefix);
        assert forall|j: int| 0 <= j < states.len() implies #[trigger] states[j] == states[0] by {
            if j < states.len() - 1 {
                assert(prefix[j] == prefix[0]);
            } else if j > 0 {
                assert(states[(j - 1) + 1] == states[j - 1]);
                assert(prefix[j - 1] == prefix[0]);
            }
        }
    }
}

/// Law: calls through one component do not interfere. Take any run of calls,
/// with `states[i]` the handle the component holds before the `i`-th call
/// and `checked_out[i]` the handle that call received: if each call checks
/// out the handle held at that moment and leaves the held handle as it was
/// — which is what `call` ensures — then every call owns the handle the
/// component held at the start, and no call observes another call's
/// in-flight state.
pub proof fn lemma_no_call_observes_another<S>(states: Seq<S>, checked_out: Seq<S>)
    requires
        states.len() == checked_out.len() + 1,
        forall|i: int| 0 <= i < checked_out.len() ==> checked_out[i] == states[i],
        forall|i: int| 0 <= i < checked_out.len() ==> #[trigger] states[i + 1] == states[i],
    ensures
        forall|i: int| 0 <= i < checked_out.len() ==> #[trigger] checked_out[i] == states[0],
        forall|i: int| 0 <= i < states.len() ==> #[trigger] states[i] == states[0],
{
    lemma_held_handle_constant(states);
}

} // verus!
