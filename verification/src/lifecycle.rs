//! What the service lifecycle guarantees over whole runs.

use vstd::prelude::*;
use crate::gadget::{
    cleaned, holds_gadget, service_step, GadgetEventView, IpcCommandView, ServiceActionView,
    ServiceInputView, ServiceState,
};

verus! {

/// The state of a service that started fresh and was told `inputs` in order.
pub open spec fn state_after(inputs: Seq<ServiceInputView>) -> ServiceState
    decreases inputs.len(),
{
    if inputs.len() == 0 {
        ServiceState::Created
    } else {
        service_step(state_after(inputs.drop_last()), inputs.last()).0
    }
}

/// The action with which the service answers input number `k` of `inputs`.
pub open spec fn action_at(inputs: Seq<ServiceInputView>, k: int) -> ServiceActionView {
    service_step(state_after(inputs.take(k)), inputs[k]).1
}

/// Whether the service announces its registration in answer to input number `k`.
pub open spec fn announces_registered(inputs: Seq<ServiceInputView>, k: int) -> bool {
    action_at(inputs, k) matches ServiceActionView::Emit(GadgetEventView::Registered(_))
}

/// Whether the service announces that it is bound in answer to input number `k`.
pub open spec fn announces_bound(inputs: Seq<ServiceInputView>, k: int) -> bool {
    action_at(inputs, k) == ServiceActionView::Emit(GadgetEventView::Bound)
}

/// How far a state is along the lifecycle.
pub open spec fn progress(state: ServiceState) -> int {
    match state {
        ServiceState::Created => 0,
        ServiceState::Registered => 1,
        ServiceState::Binding => 2,
        ServiceState::Bound => 3,
        ServiceState::Running => 4,
        ServiceState::Terminated => 5,
    }
}

/// No input takes the service back to an earlier state.
pub proof fn lemma_step_advances(state: ServiceState, input: ServiceInputView)
    ensures
        progress(service_step(state, input).0) >= progress(state),
{
}

/// The state after one more input is the step from the state before it.
pub proof fn lemma_state_unfolds(inputs: Seq<ServiceInputView>, k: int)
    requires
        0 <= k < inputs.len(),
    ensures
        state_after(inputs.take(k + 1)) == service_step(state_after(inputs.take(k)), inputs[k]).0,
{
    assert(inputs.take(k + 1).drop_last() =~= inputs.take(k));
    assert(inputs.take(k + 1).last() == inputs[k]);
}

/// The service only moves forward: a later prefix of a run is at least as far along.
pub proof fn lemma_progress_monotone(inputs: Seq<ServiceInputView>, j: int, k: int)
    requires
        0 <= j <= k <= inputs.len(),
    ensures
        progress(state_after(inputs.take(j))) <= progress(state_after(inputs.take(k))),
    decreases k - j,
{
    if j < k {
        lemma_progress_monotone(inputs, j, k - 1);
        lemma_state_unfolds(inputs, k - 1);
        lemma_step_advances(state_after(inputs.take(k - 1)), inputs[k - 1]);
    }
}

/// A service that waits for a bind request has announced its registration.
pub proof fn lemma_registered_was_announced(inputs: Seq<ServiceInputView>) -> (j: int)
    requires
        state_after(inputs) == ServiceState::Registered,
    ensures
        0 <= j < inputs.len(),
        announces_registered(inputs, j),
    decreases inputs.len(),
{
    let front = inputs.drop_last();
    assert(inputs.len() > 0);
    assert(inputs.take(inputs.len() - 1) =~= front);
    if state_after(front) == ServiceState::Registered {
        let j = lemma_registered_was_announced(front);
        assert(front.take(j) =~= inputs.take(j));
        assert(front[j] == inputs[j]);
        j
    } else {
        assert(state_after(front) == ServiceState::Created);
        inputs.len() - 1
    }
}

/// The service announces that it is bound only after it was asked to bind, and it was asked
/// only after it had announced its registration.
pub proof fn lemma_bound_follows_bind(inputs: Seq<ServiceInputView>, k: int) -> (at: (int, int))
    requires
        0 <= k < inputs.len(),
        announces_bound(inputs, k),
    ensures
        0 <= at.0 < at.1 < k,
        announces_registered(inputs, at.0),
        inputs[at.1] == ServiceInputView::Command(IpcCommandView::Bind),
        action_at(inputs, at.1) == ServiceActionView::BindController,
{
    let before = inputs.take(k);
    assert(state_after(before) == ServiceState::Binding);
    assert(before.len() > 0);
    let i = k - 1;
    let earlier = before.drop_last();
    assert(earlier =~= inputs.take(i));
    assert(before.last() == inputs[i]);
    assert(state_after(earlier) == ServiceState::Registered);
    let j = lemma_registered_was_announced(earlier);
    assert(earlier.take(j) =~= inputs.take(j));
    assert(earlier[j] == inputs[j]);
    (j, i)
}

/// An answer that the service gives only on leaving `state` for a later one is given at
/// most once in a run.
pub proof fn lemma_left_once(inputs: Seq<ServiceInputView>, state: ServiceState, j: int, k: int)
    requires
        0 <= j <= k < inputs.len(),
        state_after(inputs.take(j)) == state,
        state_after(inputs.take(k)) == state,
        progress(service_step(state, inputs[j]).0) > progress(state),
    ensures
        j == k,
{
    if j < k {
        lemma_state_unfolds(inputs, j);
        lemma_progress_monotone(inputs, j + 1, k);
    }
}

/// The service announces its registration at most once in a run.
pub proof fn lemma_registered_announced_once(inputs: Seq<ServiceInputView>, j: int, k: int)
    requires
        0 <= j < inputs.len(),
        0 <= k < inputs.len(),
        announces_registered(inputs, j),
        announces_registered(inputs, k),
    ensures
        j == k,
{
    if j <= k {
        lemma_left_once(inputs, ServiceState::Created, j, k);
    } else {
        lemma_left_once(inputs, ServiceState::Created, k, j);
    }
}

/// The service announces that it is bound at most once in a run.
pub proof fn lemma_bound_announced_once(inputs: Seq<ServiceInputView>, j: int, k: int)
    requires
        0 <= j < inputs.len(),
        0 <= k < inputs.len(),
        announces_bound(inputs, j),
        announces_bound(inputs, k),
    ensures
        j == k,
{
    if j <= k {
        lemma_left_once(inputs, ServiceState::Binding, j, k);
    } else {
        lemma_left_once(inputs, ServiceState::Binding, k, j);
    }
}

/// The service sends nothing but its registration and the fact that it is bound.
pub proof fn lemma_only_two_announcements(state: ServiceState, input: ServiceInputView)
    ensures
        service_step(state, input).1 matches ServiceActionView::Emit(event) ==> event
            is Registered || event is Bound,
{
}

/// A report reaches a device node only while the service runs, and byte for byte.
pub proof fn lemma_reports_pass_verbatim(state: ServiceState, input: ServiceInputView)
    ensures
        service_step(state, input).1 matches ServiceActionView::WriteKeyboard(bytes) ==> state
            == ServiceState::Running && input == ServiceInputView::Command(
            IpcCommandView::KeyboardReport(bytes),
        ),
        service_step(state, input).1 matches ServiceActionView::WriteMouse(bytes) ==> state
            == ServiceState::Running && input == ServiceInputView::Command(
            IpcCommandView::MouseReport(bytes),
        ),
{
}

/// Cleanup is idempotent: after one cleanup the gadget is released and the service is
/// terminated, and a second one changes nothing and finds nothing to release.
pub proof fn lemma_cleanup_idempotent(state: ServiceState)
    ensures
        cleaned(cleaned(state).0) == (ServiceState::Terminated, false),
        !holds_gadget(cleaned(state).0),
{
}

/// Whenever the service leaves a state in which the kernel holds the gadget for one in
/// which it does not, the action tells the driver to release it.
pub proof fn lemma_gadget_released_on_exit(state: ServiceState, input: ServiceInputView)
    requires
        holds_gadget(state),
        !holds_gadget(service_step(state, input).0),
    ensures
        service_step(state, input).0 == ServiceState::Terminated,
        service_step(state, input).1 is Abort || (service_step(state, input).1 matches ServiceActionView::Shutdown {
            unregister,
            ..
        } && unregister),
{
}

} // verus!
