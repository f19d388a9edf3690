//! The two processes and the channel between them, taken together: what the foreground can
//! ever receive.

use vstd::prelude::*;
use crate::gadget::{
    service_step, GadgetEventView, IpcCommandView, ServiceActionView, ServiceInputView,
    ServiceState,
};
use crate::session::{session_action, SessionActionView};
use crate::AppEventView;

verus! {

/// Both processes and what is in flight between them.
pub struct System {
    /// State of the privileged service.
    pub service: ServiceState,
    /// Commands sent and not yet taken, oldest first.
    pub commands: Seq<IpcCommandView>,
    /// Events sent and not yet taken, oldest first.
    pub events: Seq<GadgetEventView>,
    /// Every command the foreground has sent so far.
    pub sent: Seq<IpcCommandView>,
    /// Every event the foreground has received so far.
    pub received: Seq<GadgetEventView>,
}

/// One thing that can happen next.
pub enum Step {
    /// The privileged process tells its service an outcome that is no command.
    Outcome(ServiceInputView),
    /// The privileged process takes the oldest command from the channel.
    TakeCommand,
    /// The foreground takes the oldest event from the channel and acts on it.
    TakeEvent,
    /// The foreground sends an input report.
    SendReport(IpcCommandView),
}

/// The system before anything has happened.
pub open spec fn initial() -> System {
    System {
        service: ServiceState::Created,
        commands: Seq::empty(),
        events: Seq::empty(),
        sent: Seq::empty(),
        received: Seq::empty(),
    }
}

/// The events in flight once the service has answered with `action`.
pub open spec fn with_emitted(events: Seq<GadgetEventView>, action: ServiceActionView) -> Seq<
    GadgetEventView,
> {
    match action {
        ServiceActionView::Emit(event) => events.push(event),
        _ => events,
    }
}

/// The system after one step. A step that does not apply (taking from an empty channel, a
/// command posing as an outcome, a bind request posing as a report) changes nothing.
pub open spec fn system_step(system: System, step: Step) -> System {
    match step {
        Step::Outcome(input) => if input is Command {
            system
        } else {
            let (service, action) = service_step(system.service, input);
            System { service, events: with_emitted(system.events, action), ..system }
        },
        Step::TakeCommand => if system.commands.len() == 0 {
            system
        } else {
            let (service, action) = service_step(
                system.service,
                ServiceInputView::Command(system.commands[0]),
            );
            System {
                service,
                commands: system.commands.drop_first(),
                events: with_emitted(system.events, action),
                ..system
            }
        },
        Step::TakeEvent => if system.events.len() == 0 {
            system
        } else {
            let event = system.events[0];
            let taken = System {
                events: system.events.drop_first(),
                received: system.received.push(event),
                ..system
            };
            match session_action(AppEventView::Gadget(event)) {
                SessionActionView::PrepareAndBind(_) => System {
                    commands: taken.commands.push(IpcCommandView::Bind),
                    sent: taken.sent.push(IpcCommandView::Bind),
                    ..taken
                },
                _ => taken,
            }
        },
        Step::SendReport(command) => if command is Bind {
            system
        } else {
            System {
                commands: system.commands.push(command),
                sent: system.sent.push(command),
                ..system
            }
        },
    }
}

/// The system after `steps`, from the start.
pub open spec fn system_after(steps: Seq<Step>) -> System
    decreases steps.len(),
{
    if steps.len() == 0 {
        initial()
    } else {
        system_step(system_after(steps.drop_last()), steps.last())
    }
}

/// `events` is the beginning of a registration announcement followed by a bound
/// announcement.
pub open spec fn in_order(events: Seq<GadgetEventView>) -> bool {
    &&& events.len() <= 2
    &&& events.len() >= 1 ==> events[0] is Registered
    &&& events.len() == 2 ==> events[1] == GadgetEventView::Bound
}

/// Every command in flight is one that the foreground has sent.
pub open spec fn all_sent(commands: Seq<IpcCommandView>, sent: Seq<IpcCommandView>) -> bool {
    forall|i: int| 0 <= i < commands.len() ==> sent.contains(#[trigger] commands[i])
}

/// What holds of the system at every moment.
pub open spec fn consistent(system: System) -> bool {
    let emitted = system.received + system.events;
    &&& all_sent(system.commands, system.sent)
    &&& in_order(emitted)
    &&& system.service == ServiceState::Created ==> emitted.len() == 0
    &&& system.service == ServiceState::Registered || system.service == ServiceState::Binding
        ==> emitted.len() == 1
    &&& system.service == ServiceState::Bound || system.service == ServiceState::Running
        ==> emitted.len() == 2
    &&& system.service == ServiceState::Binding || emitted.len() == 2 ==> system.sent.contains(
        IpcCommandView::Bind,
    )
    &&& system.sent.contains(IpcCommandView::Bind) ==> system.received.len() >= 1
}

/// Sending one more command keeps every command in flight among those sent, and keeps
/// among those sent whatever was there.
pub proof fn lemma_send_keeps_all_sent(
    commands: Seq<IpcCommandView>,
    sent: Seq<IpcCommandView>,
    command: IpcCommandView,
)
    requires
        all_sent(commands, sent),
    ensures
        all_sent(commands.push(command), sent.push(command)),
        forall|other: IpcCommandView|
            sent.push(command).contains(other) <==> sent.contains(other) || other == command,
{
    let more = sent.push(command);
    assert(more[sent.len() as int] == command);
    assert forall|other: IpcCommandView| sent.contains(other) implies more.contains(other) by {
        let k = choose|k: int| 0 <= k < sent.len() && sent[k] == other;
        assert(more[k] == other);
    }
    assert forall|other: IpcCommandView| more.contains(other) implies sent.contains(other)
        || other == command by {
        let k = choose|k: int| 0 <= k < more.len() && more[k] == other;
        if k < sent.len() {
            assert(sent[k] == other);
        }
    }
    assert forall|i: int| 0 <= i < commands.push(command).len() implies more.contains(
        #[trigger] commands.push(command)[i],
    ) by {
        if i < commands.len() {
            assert(sent.contains(commands[i]));
        }
    }
}

/// Taking the oldest command keeps every command in flight among those sent.
pub proof fn lemma_take_keeps_all_sent(commands: Seq<IpcCommandView>, sent: Seq<IpcCommandView>)
    requires
        commands.len() > 0,
        all_sent(commands, sent),
    ensures
        all_sent(commands.drop_first(), sent),
        sent.contains(commands[0]),
{
    assert forall|i: int| 0 <= i < commands.drop_first().len() implies sent.contains(
        #[trigger] commands.drop_first()[i],
    ) by {
        assert(commands.drop_first()[i] == commands[i + 1]);
    }
}

/// Every step keeps the system consistent.
pub proof fn lemma_step_consistent(system: System, step: Step)
    requires
        consistent(system),
    ensures
        consistent(system_step(system, step)),
{
    let next = system_step(system, step);
    let emitted = system.received + system.events;
    let next_emitted = next.received + next.events;
    match step {
        Step::Outcome(input) => {
            if !(input is Command) {
                let action = service_step(system.service, input).1;
                if action is Emit {
                    assert(next_emitted =~= emitted.push(action->Emit_0));
                } else {
                    assert(next_emitted =~= emitted);
                }
            }
        },
        Step::TakeCommand => {
            if system.commands.len() > 0 {
                lemma_take_keeps_all_sent(system.commands, system.sent);
                assert(next_emitted =~= emitted);
            }
        },
        Step::TakeEvent => {
            if system.events.len() > 0 {
                let event = system.events[0];
                assert(next_emitted =~= emitted);
                assert(emitted[system.received.len() as int] == event);
                if session_action(AppEventView::Gadget(event)) is PrepareAndBind {
                    lemma_send_keeps_all_sent(system.commands, system.sent, IpcCommandView::Bind);
                }
            }
        },
        Step::SendReport(command) => {
            if !(command is Bind) {
                lemma_send_keeps_all_sent(system.commands, system.sent, command);
                assert(next_emitted =~= emitted);
            }
        },
    }
}

/// The system is consistent whatever has happened.
pub proof fn lemma_always_consistent(steps: Seq<Step>)
    ensures
        consistent(system_after(steps)),
    decreases steps.len(),
{
    if steps.len() > 0 {
        lemma_always_consistent(steps.drop_last());
        lemma_step_consistent(system_after(steps.drop_last()), steps.last());
    }
}

/// Whatever happens, the foreground receives the registration first and at most once, the
/// bound announcement only after it and at most once, and the bound announcement only
/// after it has sent the bind request; and it sends the bind request only after it has
/// received the registration.
pub proof fn lemma_handshake_order(steps: Seq<Step>)
    ensures
        in_order(system_after(steps).received),
        system_after(steps).received.contains(GadgetEventView::Bound) ==> system_after(
            steps,
        ).sent.contains(IpcCommandView::Bind),
        system_after(steps).sent.contains(IpcCommandView::Bind) ==> system_after(
            steps,
        ).received.len() >= 1 && system_after(steps).received[0] is Registered,
{
    lemma_always_consistent(steps);
    let system = system_after(steps);
    let emitted = system.received + system.events;
    if system.received.len() >= 1 {
        assert(emitted[0] == system.received[0]);
    }
    if system.received.len() >= 2 {
        assert(emitted[1] == system.received[1]);
    }
    if system.received.contains(GadgetEventView::Bound) {
        let k = choose|k: int|
            0 <= k < system.received.len() && system.received[k] == GadgetEventView::Bound;
        assert(emitted[k] == system.received[k]);
        assert(k == 1);
    }
}

} // verus!
