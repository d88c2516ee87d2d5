use callbridge::handoff::open_call;
use callbridge::protocol::{decide, finish_call, CallError, Delivery, HookAction};

#[test]
fn immediate_identity_delivers() {
    // Argument "1", callable is the identity, returning synchronously.
    let (pending, hook) = open_call::<String>();
    let argument = String::from("1");
    let (delivered, _) = hook.complete_immediate(Some(argument));
    assert!(delivered);
    let (res, _) = pending.wait();
    assert_eq!(res, Ok(String::from("1")));
}

#[test]
fn deferred_identity_delivers() {
    // Argument "1", callable wraps the identity's result in a deferred value
    // that resolves later: the caller still observes "1".
    let (pending, hook) = open_call::<String>();
    let (delivered, _) = hook.complete_resolution(Some(String::from("1")));
    assert!(delivered);
    let (res, _) = pending.wait();
    assert_eq!(res, Ok(String::from("1")));
}

#[test]
fn rejected_deferred_fails() {
    let (pending, hook) = open_call::<String>();
    let (delivered, _) = hook.complete_rejection();
    assert!(delivered);
    let (res, _) = pending.wait();
    assert_eq!(res, Err(CallError::Rejected));
}

#[test]
fn immediate_conversion_failure_fails() {
    let (pending, hook) = open_call::<u64>();
    let (delivered, _) = hook.complete_immediate(None);
    assert!(delivered);
    let (res, _) = pending.wait();
    assert_eq!(res, Err(CallError::Conversion));
}

#[test]
fn resolution_conversion_failure_fails() {
    let (pending, hook) = open_call::<u64>();
    let (delivered, _) = hook.complete_resolution(None);
    assert!(delivered);
    let (res, _) = pending.wait();
    assert_eq!(res, Err(CallError::Conversion));
}

#[test]
fn dropped_hook_closes_the_call() {
    let (pending, hook) = open_call::<u64>();
    drop(hook);
    let (res, _) = pending.wait();
    assert_eq!(res, Err(CallError::ChannelClosed));
}

#[test]
fn dropped_caller_is_noticed_by_the_hook() {
    let (pending, hook) = open_call::<u64>();
    drop(pending);
    let (delivered, _) = hook.complete_immediate(Some(5u64));
    assert!(!delivered);
}

#[test]
fn decide_takes_the_deferred_path_only_for_deferred_values() {
    assert_eq!(decide(false), HookAction::ConvertAndSend);
    assert_eq!(decide(true), HookAction::AwaitResolution);
}

#[test]
fn finish_call_maps_every_delivery() {
    assert_eq!(finish_call(Some(Delivery::Done(7u64))), Ok(7u64));
    assert_eq!(
        finish_call::<u64>(Some(Delivery::Failed(CallError::Rejected))),
        Err(CallError::Rejected)
    );
    assert_eq!(
        finish_call::<u64>(Some(Delivery::Failed(CallError::Conversion))),
        Err(CallError::Conversion)
    );
    assert_eq!(finish_call::<u64>(None), Err(CallError::ChannelClosed));
}

#[test]
fn interleaved_calls_do_not_cross_talk() {
    // Two calls pending at once; deliveries land in the opposite order from
    // the calls, yet each caller gets the result matched to its own call.
    let (pending_a, hook_a) = open_call::<u64>();
    let (pending_b, hook_b) = open_call::<u64>();
    let (delivered_b, _) = hook_b.complete_immediate(Some(20u64));
    let (delivered_a, _) = hook_a.complete_immediate(Some(10u64));
    assert!(delivered_a);
    assert!(delivered_b);
    let (res_a, _) = pending_a.wait();
    let (res_b, _) = pending_b.wait();
    assert_eq!(res_a, Ok(10u64));
    assert_eq!(res_b, Ok(20u64));
}
