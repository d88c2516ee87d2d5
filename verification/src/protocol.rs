//! The call protocol, as pure decision logic.
//!
//! One bridged call goes through three stages: the completion hook inspects
//! the raw value the callable produced (immediate or deferred), a delivery is
//! built from the way the value (or its resolution) converted into the
//! expected result type, and the blocked caller finishes the call from the
//! delivery it received — or from none, when the hook disappeared. Every
//! stage here is a total function with an exact contract; the channel and the
//! runtime dispatch around them live in [`crate::handoff`] and in the
//! embedding program.

use vstd::prelude::*;

verus! {

/// Why a bridged call failed.
///
/// Failed conversions and rejected deferred values are surfaced to the caller
/// as an error value rather than terminating the process: a deliberate
/// hardening over a fail-fast completion hook.
#[derive(Clone, Copy, Debug, PartialEq, Eq)]
pub enum CallError {
    /// The callable handle could not be turned into a thread-safe dispatch
    /// primitive at construction time.
    NotCallable,
    /// The raw value the callable produced (or the value its deferred result
    /// resolved to) could not be converted into the expected result type.
    Conversion,
    /// The deferred value rejected instead of resolving.
    Rejected,
    /// The completion hook was dropped without delivering anything, so no
    /// value can ever arrive.
    ChannelClosed,
}

/// What the completion hook decides to do with the raw value the callable
/// produced, depending on whether that value is deferred.
#[derive(Clone, Copy, Debug, PartialEq, Eq)]
pub enum HookAction {
    /// The value is immediate: convert it and send the delivery now, still
    /// inside the hook.
    ConvertAndSend,
    /// The value is deferred: schedule a continuation on the runtime's own
    /// cooperative scheduler and deliver once it resolves or rejects.
    AwaitResolution,
}

/// The single value carried through a call's one-shot channel: either the
/// fully resolved result or the failure that ended the call.
pub enum Delivery<R> {
    Done(R),
    Failed(CallError),
}

/// The hook's choice for a raw value: await it exactly when it is deferred.
pub open spec fn decide_spec(deferred: bool) -> HookAction {
    if deferred {
        HookAction::AwaitResolution
    } else {
        HookAction::ConvertAndSend
    }
}

/// The delivery for an immediate raw value whose conversion into the result
/// type gave `conv`.
pub open spec fn immediate_outcome<R>(conv: Option<R>) -> Delivery<R> {
    match conv {
        Option::Some(r) => Delivery::Done(r),
        Option::None => Delivery::Failed(CallError::Conversion),
    }
}

/// The delivery for a deferred value that resolved, where converting the
/// resolved value gave `conv`.
pub open spec fn resolution_outcome<R>(conv: Option<R>) -> Delivery<R> {
    match conv {
        Option::Some(r) => Delivery::Done(r),
        Option::None => Delivery::Failed(CallError::Conversion),
    }
}

/// The delivery for a deferred value that rejected instead of resolving.
pub open spec fn rejection_outcome<R>() -> Delivery<R> {
    Delivery::Failed(CallError::Rejected)
}

/// The result the blocked caller returns, given what it received: the
/// delivery itself, or `None` when the sending half vanished first.
pub open spec fn finish_spec<R>(received: Option<Delivery<R>>) -> Result<R, CallError> {
    match received {
        Option::Some(Delivery::Done(r)) => Result::Ok(r),
        Option::Some(Delivery::Failed(e)) => Result::Err(e),
        Option::None => Result::Err(CallError::ChannelClosed),
    }
}

/// Decide the hook's path for a raw value: await it exactly when it is
/// deferred, convert and send at once otherwise.
pub fn decide(deferred: bool) -> (action: HookAction)
    ensures
        action == decide_spec(deferred),
{
    if deferred {
        HookAction::AwaitResolution
    } else {
        HookAction::ConvertAndSend
    }
}

/// Build the delivery for an immediate raw value from its conversion outcome.
pub fn immediate_delivery<R>(conv: Option<R>) -> (d: Delivery<R>)
    ensures
        d == immediate_outcome(conv),
{
    match conv {
        Option::Some(r) => Delivery::Done(r),
        Option::None => Delivery::Failed(CallError::Conversion),
    }
}

/// Build the delivery for a resolved deferred value from the conversion
/// outcome of the value it resolved to.
pub fn resolution_delivery<R>(conv: Option<R>) -> (d: Delivery<R>)
    ensures
        d == resolution_outcome(conv),
{
    match conv {
        Option::Some(r) => Delivery::Done(r),
        Option::None => Delivery::Failed(CallError::Conversion),
    }
}

/// Build the delivery for a deferred value that rejected.
pub fn rejection_delivery<R>() -> (d: Delivery<R>)
    ensures
        d == rejection_outcome::<R>(),
{
    Delivery::Failed(CallError::Rejected)
}

/// Turn what the blocked caller received into the call's result: the resolved
/// value on success, the delivered failure otherwise, and `ChannelClosed`
/// when nothing was ever delivered.
pub fn finish_call<R>(received: Option<Delivery<R>>) -> (res: Result<R, CallError>)
    ensures
        res == finish_spec(received),
{
    match received {
        Option::Some(Delivery::Done(r)) => Result::Ok(r),
        Option::Some(Delivery::Failed(e)) => Result::Err(e),
        Option::None => Result::Err(CallError::ChannelClosed),
    }
}

/// For every argument `p` and a callable modelled by `f` that returns its
/// result immediately, a call whose conversion succeeds delivers exactly
/// `f(p)` to the caller.
pub proof fn lemma_immediate_call_exact<P, R>(f: spec_fn(P) -> R, p: P)
    ensures
        finish_spec(Option::Some(immediate_outcome(Option::Some(f(p))))) == Result::<
            R,
            CallError,
        >::Ok(f(p)),
{
}

/// Sync/async transparency: a deferred value that resolves to `f(p)` delivers
/// exactly what an immediate `f(p)` would have delivered, so the caller
/// cannot tell the two paths apart.
pub proof fn lemma_deferred_call_exact<P, R>(f: spec_fn(P) -> R, p: P)
    ensures
        finish_spec(Option::Some(resolution_outcome(Option::Some(f(p))))) == Result::<
            R,
            CallError,
        >::Ok(f(p)),
        resolution_outcome(Option::Some(f(p))) == immediate_outcome(Option::Some(f(p))),
{
}

/// No cross-talk: each call finishes from its own delivery alone, so for any
/// number of calls of a callable modelled by `f`, the result of the call made
/// with `args[i]` is `Ok(f(args[i]))`, matched to its own argument.
pub proof fn lemma_calls_independent<P, R>(f: spec_fn(P) -> R, args: Seq<P>)
    ensures
        forall|i: int|
            0 <= i < args.len() ==> finish_spec(
                Option::Some(immediate_outcome(Option::Some(f(#[trigger] args[i])))),
            ) == Result::<R, CallError>::Ok(f(args[i])),
{
}

/// A rejected deferred value fails the call with exactly `Rejected`: the
/// caller gets an error value, never a stale or default result.
pub proof fn lemma_rejection_fails<R>()
    ensures
        finish_spec(Option::Some(rejection_outcome::<R>())) == Result::<R, CallError>::Err(
            CallError::Rejected,
        ),
{
}

/// A hook that disappears without delivering closes the call with exactly
/// `ChannelClosed`, never with a fabricated result.
pub proof fn lemma_lost_delivery_fails<R>()
    ensures
        finish_spec(Option::None::<Delivery<R>>) == Result::<R, CallError>::Err(
            CallError::ChannelClosed,
        ),
{
}

} // verus!
