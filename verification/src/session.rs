//! The unprivileged side of a session: relaying gadget events and acting on them.

use vstd::prelude::*;
use crate::gadget::{GadgetEvent, GadgetEventView};
use crate::{AppEvent, AppEventView};

verus! {

/// What one wait on the event channel came back with.
#[derive(Clone, Debug, PartialEq, Eq)]
pub enum Received {
    /// The privileged process sent an event.
    Event(GadgetEvent),
    /// The privileged process is gone.
    Disconnected,
    /// The wait failed in any other way.
    Failed,
}

/// What a `Received` says, over sequences.
pub enum ReceivedView {
    Event(GadgetEventView),
    Disconnected,
    Failed,
}

impl View for Received {
    type V = ReceivedView;

    open spec fn view(&self) -> ReceivedView {
        match *self {
            Received::Event(event) => ReceivedView::Event(event@),
            Received::Disconnected => ReceivedView::Disconnected,
            Received::Failed => ReceivedView::Failed,
        }
    }
}

/// What the relay thread does after one wait.
#[derive(Clone, Debug, PartialEq, Eq)]
pub struct Relay {
    /// The event to put into the foreground event queue.
    pub forward: AppEvent,
    /// Whether to wait again.
    pub proceed: bool,
}

/// What the foreground loop does about an event.
#[derive(Clone, Debug, PartialEq, Eq)]
pub enum SessionAction {
    /// Start the display consumer on this function filesystem directory, then send the
    /// bind command.
    PrepareAndBind(String),
    /// Draw the frame buffer again.
    Redraw,
    /// End the session: the gadget process is gone.
    Terminate,
    /// Nothing to do.
    Nothing,
}

/// What a `SessionAction` says, over sequences.
pub enum SessionActionView {
    PrepareAndBind(Seq<char>),
    Redraw,
    Terminate,
    Nothing,
}

impl View for SessionAction {
    type V = SessionActionView;

    open spec fn view(&self) -> SessionActionView {
        match *self {
            SessionAction::PrepareAndBind(path) => SessionActionView::PrepareAndBind(path@),
            SessionAction::Redraw => SessionActionView::Redraw,
            SessionAction::Terminate => SessionActionView::Terminate,
            SessionAction::Nothing => SessionActionView::Nothing,
        }
    }
}

/// The event that one wait puts into the foreground queue: a received event as it is, and
/// a wait that came back without one, because the peer is gone or because the channel
/// failed, as `Disconnected`.
pub open spec fn relayed(received: ReceivedView) -> AppEventView {
    match received {
        ReceivedView::Event(event) => AppEventView::Gadget(event),
        ReceivedView::Disconnected | ReceivedView::Failed => AppEventView::Gadget(
            GadgetEventView::Disconnected,
        ),
    }
}

/// Whether the relay waits again: only after a wait that brought an event. A disconnect
/// and every other failure of the channel end it.
pub open spec fn relay_proceeds(received: ReceivedView) -> bool {
    received is Event
}

/// The events that the relay thread puts into the foreground queue when its waits come back
/// with `outcomes` in order: it stops after the first wait that brought no event.
pub open spec fn forwarded(outcomes: Seq<ReceivedView>) -> Seq<AppEventView>
    decreases outcomes.len(),
{
    if outcomes.len() == 0 {
        Seq::empty()
    } else if relay_proceeds(outcomes[0]) {
        seq![relayed(outcomes[0])] + forwarded(outcomes.drop_first())
    } else {
        seq![relayed(outcomes[0])]
    }
}

/// Whether some wait came back without an event.
pub open spec fn channel_ended(outcomes: Seq<ReceivedView>) -> bool {
    exists|i: int| 0 <= i < outcomes.len() && !(#[trigger] outcomes[i] is Event)
}

/// What the foreground loop does about an event: a registered gadget gets its display
/// consumer and the bind command, a new frame is drawn, a lost gadget ends the session, and
/// a bound gadget needs nothing.
pub open spec fn session_action(event: AppEventView) -> SessionActionView {
    match event {
        AppEventView::Gadget(GadgetEventView::Registered(path)) => SessionActionView::PrepareAndBind(
            path,
        ),
        AppEventView::Gadget(GadgetEventView::Bound) => SessionActionView::Nothing,
        AppEventView::Gadget(GadgetEventView::Disconnected) => SessionActionView::Terminate,
        AppEventView::DisplayFrameArrived => SessionActionView::Redraw,
    }
}

/// The program that starts the privileged process with elevated rights.
pub const LAUNCHER: &'static str = "pkexec";

/// The flag that selects the privileged mode and carries the channel address.
pub const GADGET_FLAG: &'static str = "--gadget";

/// The arguments handed to the launcher: the program's own path, the mode flag, and the
/// address of the rendezvous channel.
pub fn launcher_arguments(program: &str, channel: &str) -> (arguments: Vec<String>)
    ensures
        arguments.deep_view() == seq![program@, GADGET_FLAG@, channel@],
{
    let mut arguments: Vec<String> = Vec::new();
    arguments.push(program.to_owned());
    arguments.push(GADGET_FLAG.to_owned());
    arguments.push(channel.to_owned());
    assert(arguments.deep_view() =~= seq![program@, GADGET_FLAG@, channel@]);
    arguments
}

/// Decides what the relay thread does with the outcome of one wait. A wait that brought no
/// event is fatal to the session: the foreground is told and the relay stops.
pub fn relay(received: Received) -> (step: Relay)
    ensures
        step.forward@ == relayed(received@),
        step.proceed == relay_proceeds(received@),
{
    match received {
        Received::Event(event) => Relay { forward: AppEvent::Gadget(event), proceed: true },
        Received::Disconnected | Received::Failed => Relay {
            forward: AppEvent::Gadget(GadgetEvent::Disconnected),
            proceed: false,
        },
    }
}

/// Decides what the foreground loop does about an event.
pub fn on_app_event(event: AppEvent) -> (action: SessionAction)
    ensures
        action@ == session_action(event@),
{
    match event {
        AppEvent::Gadget(GadgetEvent::Registered(path)) => SessionAction::PrepareAndBind(path),
        AppEvent::Gadget(GadgetEvent::Bound) => SessionAction::Nothing,
        AppEvent::Gadget(GadgetEvent::Disconnected) => SessionAction::Terminate,
        AppEvent::DisplayFrameArrived => SessionAction::Redraw,
    }
}

/// The number of `Disconnected` events in a sequence.
pub open spec fn disconnects(events: Seq<AppEventView>) -> nat
    decreases events.len(),
{
    if events.len() == 0 {
        0
    } else {
        disconnects(events.drop_last()) + if events.last() == AppEventView::Gadget(
            GadgetEventView::Disconnected,
        ) {
            1nat
        } else {
            0nat
        }
    }
}

/// The disconnects of two sequences add up when the sequences are joined.
proof fn lemma_disconnects_concat(front: Seq<AppEventView>, back: Seq<AppEventView>)
    ensures
        disconnects(front + back) == disconnects(front) + disconnects(back),
    decreases back.len(),
{
    if back.len() == 0 {
        assert(front + back =~= front);
    } else {
        assert((front + back).drop_last() =~= front + back.drop_last());
        assert((front + back).last() == back.last());
        lemma_disconnects_concat(front, back.drop_last());
    }
}

/// As long as the privileged process never sends `Disconnected` itself, the foreground sees
/// that event exactly once when a wait comes back without an event, be it a disconnect or
/// any other failure, and never otherwise; and it is the last event it sees.
pub proof fn lemma_disconnected_exactly_once(outcomes: Seq<ReceivedView>)
    requires
        forall|i: int|
            0 <= i < outcomes.len() ==> outcomes[i] != ReceivedView::Event(
                GadgetEventView::Disconnected,
            ),
    ensures
        disconnects(forwarded(outcomes)) == if channel_ended(outcomes) {
            1nat
        } else {
            0nat
        },
        channel_ended(outcomes) ==> forwarded(outcomes).len() > 0 && forwarded(outcomes).last()
            == AppEventView::Gadget(GadgetEventView::Disconnected),
        forwarded(outcomes).len() <= outcomes.len(),
    decreases outcomes.len(),
{
    if outcomes.len() > 0 {
        let first = outcomes[0];
        let rest = outcomes.drop_first();
        let head = seq![relayed(first)];
        assert(head.drop_last() =~= Seq::<AppEventView>::empty());
        assert(disconnects(head.drop_last()) == 0);
        if first is Event {
            assert forall|i: int| 0 <= i < rest.len() implies rest[i] != ReceivedView::Event(
                GadgetEventView::Disconnected,
            ) by {
                assert(rest[i] == outcomes[i + 1]);
            }
            lemma_disconnected_exactly_once(rest);
            lemma_disconnects_concat(head, forwarded(rest));
            assert(channel_ended(outcomes) <==> channel_ended(rest)) by {
                if channel_ended(outcomes) {
                    let i = choose|i: int|
                        0 <= i < outcomes.len() && !(#[trigger] outcomes[i] is Event);
                    assert(rest[i - 1] == outcomes[i]);
                }
                if channel_ended(rest) {
                    let i = choose|i: int| 0 <= i < rest.len() && !(#[trigger] rest[i] is Event);
                    assert(outcomes[i + 1] == rest[i]);
                }
            }
            if channel_ended(rest) {
                assert((head + forwarded(rest)).last() == forwarded(rest).last());
            }
        } else {
            assert(!(outcomes[0] is Event));
        }
    }
}

} // verus!
