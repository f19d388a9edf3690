//! Messages between the unprivileged and the privileged process, and the lifecycle of the
//! privileged gadget service.

use vstd::prelude::*;

verus! {

/// A request from the unprivileged to the privileged process.
#[derive(Clone, Debug, PartialEq, Eq)]
pub enum IpcCommand {
    Bind,
    KeyboardReport(Vec<u8>),
    MouseReport([u8; 5]),
}

/// What an `IpcCommand` says, with its bytes as a sequence.
pub enum IpcCommandView {
    Bind,
    KeyboardReport(Seq<u8>),
    MouseReport(Seq<u8>),
}

impl View for IpcCommand {
    type V = IpcCommandView;

    open spec fn view(&self) -> IpcCommandView {
        match *self {
            IpcCommand::Bind => IpcCommandView::Bind,
            IpcCommand::KeyboardReport(bytes) => IpcCommandView::KeyboardReport(bytes@),
            IpcCommand::MouseReport(bytes) => IpcCommandView::MouseReport(bytes@),
        }
    }
}

/// A notification from the privileged to the unprivileged process.
#[derive(Clone, Debug, PartialEq, Eq)]
pub enum GadgetEvent {
    Disconnected,
    Registered(String),
    Bound,
}

/// What a `GadgetEvent` says, with its path as a sequence of characters.
pub enum GadgetEventView {
    Disconnected,
    Registered(Seq<char>),
    Bound,
}

impl View for GadgetEvent {
    type V = GadgetEventView;

    open spec fn view(&self) -> GadgetEventView {
        match *self {
            GadgetEvent::Disconnected => GadgetEventView::Disconnected,
            GadgetEvent::Registered(path) => GadgetEventView::Registered(path@),
            GadgetEvent::Bound => GadgetEventView::Bound,
        }
    }
}


/// Where the privileged service stands in its life.
#[derive(Clone, Copy, Debug, PartialEq, Eq, Structural)]
pub enum ServiceState {
    /// Started; the gadget is not yet known to the kernel.
    Created,
    /// The gadget is registered and announced; no controller is attached.
    Registered,
    /// A bind request was accepted and the controller is being attached.
    Binding,
    /// The controller is attached and the fact is being announced.
    Bound,
    /// Reports are being relayed to the device nodes.
    Running,
    /// The gadget is released; nothing more happens.
    Terminated,
}

/// How the privileged process ends.
#[derive(Clone, Copy, Debug, PartialEq, Eq, Structural)]
pub enum ExitStatus {
    Success,
    Failure,
}

/// What happened outside the service since its last action.
#[derive(Clone, Debug, PartialEq, Eq)]
pub enum ServiceInput {
    /// The kernel accepted the gadget; the function filesystem is mounted at this path.
    GadgetRegistered(String),
    /// No controller was found or the kernel rejected the gadget.
    SetupFailed,
    /// The event handed out last reached the channel.
    Delivered,
    /// A command arrived.
    Command(IpcCommand),
    /// The controller is attached.
    ControllerBound,
    /// The controller could not be attached.
    BindFailed,
    /// The report handed out last reached its device node.
    Written,
    /// A device node refused a report.
    WriteFailed,
    /// The peer closed the channel.
    ChannelClosed,
    /// The channel failed in any other way.
    TransportFailed,
    /// A termination signal arrived.
    Signal,
}

/// What a `ServiceInput` says, over sequences.
pub enum ServiceInputView {
    GadgetRegistered(Seq<char>),
    SetupFailed,
    Delivered,
    Command(IpcCommandView),
    ControllerBound,
    BindFailed,
    Written,
    WriteFailed,
    ChannelClosed,
    TransportFailed,
    Signal,
}

impl View for ServiceInput {
    type V = ServiceInputView;

    open spec fn view(&self) -> ServiceInputView {
        match *self {
            ServiceInput::GadgetRegistered(path) => ServiceInputView::GadgetRegistered(path@),
            ServiceInput::SetupFailed => ServiceInputView::SetupFailed,
            ServiceInput::Delivered => ServiceInputView::Delivered,
            ServiceInput::Command(command) => ServiceInputView::Command(command@),
            ServiceInput::ControllerBound => ServiceInputView::ControllerBound,
            ServiceInput::BindFailed => ServiceInputView::BindFailed,
            ServiceInput::Written => ServiceInputView::Written,
            ServiceInput::WriteFailed => ServiceInputView::WriteFailed,
            ServiceInput::ChannelClosed => ServiceInputView::ChannelClosed,
            ServiceInput::TransportFailed => ServiceInputView::TransportFailed,
            ServiceInput::Signal => ServiceInputView::Signal,
        }
    }
}

/// What the service asks its driver to do next.
#[derive(Clone, Debug, PartialEq, Eq)]
pub enum ServiceAction {
    /// Send this event to the unprivileged process.
    Emit(GadgetEvent),
    /// Wait for the next command.
    Receive,
    /// Attach the gadget to the controller.
    BindController,
    /// Write these bytes to the keyboard device node.
    WriteKeyboard(Vec<u8>),
    /// Write these bytes to the mouse device node.
    WriteMouse([u8; 5]),
    /// Release the gadget if `unregister` says so, then exit.
    Shutdown { unregister: bool, status: ExitStatus },
    /// A command arrived that the current state does not allow; the process gives up.
    Abort,
    /// Nothing: the service has terminated.
    Nothing,
}

/// What a `ServiceAction` says, over sequences.
pub enum ServiceActionView {
    Emit(GadgetEventView),
    Receive,
    BindController,
    WriteKeyboard(Seq<u8>),
    WriteMouse(Seq<u8>),
    Shutdown { unregister: bool, status: ExitStatus },
    Abort,
    Nothing,
}

impl View for ServiceAction {
    type V = ServiceActionView;

    open spec fn view(&self) -> ServiceActionView {
        match *self {
            ServiceAction::Emit(event) => ServiceActionView::Emit(event@),
            ServiceAction::Receive => ServiceActionView::Receive,
            ServiceAction::BindController => ServiceActionView::BindController,
            ServiceAction::WriteKeyboard(bytes) => ServiceActionView::WriteKeyboard(bytes@),
            ServiceAction::WriteMouse(bytes) => ServiceActionView::WriteMouse(bytes@),
            ServiceAction::Shutdown { unregister, status } => ServiceActionView::Shutdown {
                unregister,
                status,
            },
            ServiceAction::Abort => ServiceActionView::Abort,
            ServiceAction::Nothing => ServiceActionView::Nothing,
        }
    }
}

/// Whether the kernel holds the gadget in this state, so that leaving must release it.
pub open spec fn holds_gadget(state: ServiceState) -> bool {
    state == ServiceState::Registered || state == ServiceState::Binding || state
        == ServiceState::Bound || state == ServiceState::Running
}

/// The state and the gadget's release after cleanup: the gadget is released where it is
/// held, and the service is terminated.
pub open spec fn cleaned(state: ServiceState) -> (ServiceState, bool) {
    (ServiceState::Terminated, holds_gadget(state))
}

/// The end of the service on a fatal condition: release the gadget, exit with a failure.
pub open spec fn fatal(state: ServiceState) -> (ServiceState, ServiceActionView) {
    (
        ServiceState::Terminated,
        ServiceActionView::Shutdown { unregister: holds_gadget(state), status: ExitStatus::Failure },
    )
}

/// The end of the service on an orderly stop: release the gadget, exit with success.
pub open spec fn orderly(state: ServiceState) -> (ServiceState, ServiceActionView) {
    (
        ServiceState::Terminated,
        ServiceActionView::Shutdown { unregister: holds_gadget(state), status: ExitStatus::Success },
    )
}

/// The lifecycle of the privileged service: the next state and the next action for every
/// state and input.
///
/// The gadget is announced once the kernel has accepted it, attached to the controller only
/// on a bind request, and announced as bound once attached. Reports are relayed verbatim
/// while running. A signal or a closed channel stops the service in good order; a failed
/// setup, bind, write or transport, and any outcome that the state did not ask for, stop it
/// with a failure. A command that the state does not allow makes the process give up. Once
/// terminated, nothing happens any more.
pub open spec fn service_step(state: ServiceState, input: ServiceInputView) -> (
    ServiceState,
    ServiceActionView,
) {
    if state == ServiceState::Terminated {
        (ServiceState::Terminated, ServiceActionView::Nothing)
    } else {
        match input {
            ServiceInputView::Signal | ServiceInputView::ChannelClosed => orderly(state),
            ServiceInputView::SetupFailed
            | ServiceInputView::BindFailed
            | ServiceInputView::WriteFailed
            | ServiceInputView::TransportFailed => fatal(state),
            ServiceInputView::GadgetRegistered(path) => if state == ServiceState::Created {
                (
                    ServiceState::Registered,
                    ServiceActionView::Emit(GadgetEventView::Registered(path)),
                )
            } else {
                fatal(state)
            },
            ServiceInputView::Delivered => if state == ServiceState::Registered {
                (ServiceState::Registered, ServiceActionView::Receive)
            } else if state == ServiceState::Bound {
                (ServiceState::Running, ServiceActionView::Receive)
            } else {
                fatal(state)
            },
            ServiceInputView::Command(IpcCommandView::Bind) => if state
                == ServiceState::Registered {
                (ServiceState::Binding, ServiceActionView::BindController)
            } else {
                (ServiceState::Terminated, ServiceActionView::Abort)
            },
            ServiceInputView::Command(IpcCommandView::KeyboardReport(bytes)) => if state
                == ServiceState::Running {
                (ServiceState::Running, ServiceActionView::WriteKeyboard(bytes))
            } else {
                (ServiceState::Terminated, ServiceActionView::Abort)
            },
            ServiceInputView::Command(IpcCommandView::MouseReport(bytes)) => if state
                == ServiceState::Running {
                (ServiceState::Running, ServiceActionView::WriteMouse(bytes))
            } else {
                (ServiceState::Terminated, ServiceActionView::Abort)
            },
            ServiceInputView::ControllerBound => if state == ServiceState::Binding {
                (ServiceState::Bound, ServiceActionView::Emit(GadgetEventView::Bound))
            } else {
                fatal(state)
            },
            ServiceInputView::Written => if state == ServiceState::Running {
                (ServiceState::Running, ServiceActionView::Receive)
            } else {
                fatal(state)
            },
        }
    }
}

/// The privileged gadget service as its driver sees it: it is told what happened and
/// answers with what to do next.
#[derive(Debug, PartialEq, Eq)]
pub struct GadgetService {
    state: ServiceState,
}

impl View for GadgetService {
    type V = ServiceState;

    closed spec fn view(&self) -> ServiceState {
        self.state
    }
}

impl GadgetService {
    /// A service that has registered nothing yet.
    pub fn new() -> (service: GadgetService)
        ensures
            service@ == ServiceState::Created,
    {
        GadgetService { state: ServiceState::Created }
    }

    /// The current state.
    pub fn state(&self) -> (state: ServiceState)
        ensures
            state == self@,
    {
        self.state
    }

    /// Whether the kernel holds the gadget.
    pub fn holds_gadget(&self) -> (held: bool)
        ensures
            held == holds_gadget(self@),
    {
        match self.state {
            ServiceState::Registered
            | ServiceState::Binding
            | ServiceState::Bound
            | ServiceState::Running => true,
            ServiceState::Created | ServiceState::Terminated => false,
        }
    }

    /// Terminates the service and says whether the gadget must be released. A second call
    /// finds nothing to release.
    pub fn cleanup(&mut self) -> (unregister: bool)
        ensures
            (final(self)@, unregister) == cleaned(old(self)@),
    {
        let unregister = self.holds_gadget();
        self.state = ServiceState::Terminated;
        unregister
    }

    /// Takes what happened outside and returns what to do next.
    pub fn step(&mut self, input: ServiceInput) -> (action: ServiceAction)
        ensures
            (final(self)@, action@) == service_step(old(self)@, input@),
    {
        let state = self.state;
        if state == ServiceState::Terminated {
            return ServiceAction::Nothing;
        }
        match input {
            ServiceInput::Signal | ServiceInput::ChannelClosed => {
                let unregister = self.cleanup();
                ServiceAction::Shutdown { unregister, status: ExitStatus::Success }
            },
            ServiceInput::SetupFailed
            | ServiceInput::BindFailed
            | ServiceInput::WriteFailed
            | ServiceInput::TransportFailed => self.fail(),
            ServiceInput::GadgetRegistered(path) => {
                if state == ServiceState::Created {
                    self.state = ServiceState::Registered;
                    ServiceAction::Emit(GadgetEvent::Registered(path))
                } else {
                    self.fail()
                }
            },
            ServiceInput::Delivered => {
                if state == ServiceState::Registered {
                    ServiceAction::Receive
                } else if state == ServiceState::Bound {
                    self.state = ServiceState::Running;
                    ServiceAction::Receive
                } else {
                    self.fail()
                }
            },
            ServiceInput::Command(IpcCommand::Bind) => {
                if state == ServiceState::Registered {
                    self.state = ServiceState::Binding;
                    ServiceAction::BindController
                } else {
                    self.state = ServiceState::Terminated;
                    ServiceAction::Abort
                }
            },
            ServiceInput::Command(IpcCommand::KeyboardReport(bytes)) => {
                if state == ServiceState::Running {
                    ServiceAction::WriteKeyboard(bytes)
                } else {
                    self.state = ServiceState::Terminated;
                    ServiceAction::Abort
                }
            },
            ServiceInput::Command(IpcCommand::MouseReport(bytes)) => {
                if state == ServiceState::Running {
                    ServiceAction::WriteMouse(bytes)
                } else {
                    self.state = ServiceState::Terminated;
                    ServiceAction::Abort
                }
            },
            ServiceInput::ControllerBound => {
                if state == ServiceState::Binding {
                    self.state = ServiceState::Bound;
                    ServiceAction::Emit(GadgetEvent::Bound)
                } else {
                    self.fail()
                }
            },
            ServiceInput::Written => {
                if state == ServiceState::Running {
                    ServiceAction::Receive
                } else {
                    self.fail()
                }
            },
        }
    }

    fn fail(&mut self) -> (action: ServiceAction)
        ensures
            (final(self)@, action@) == fatal(old(self)@),
    {
        let unregister = self.cleanup();
        ServiceAction::Shutdown { unregister, status: ExitStatus::Failure }
    }
}

} // verus!
