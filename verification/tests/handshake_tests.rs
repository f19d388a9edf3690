use std::collections::VecDeque;

use usb_kvm::gadget::{
    GadgetEvent, GadgetService, IpcCommand, ServiceAction, ServiceInput, ServiceState,
};
use usb_kvm::keyboard::{ElementState, Keyboard};
use usb_kvm::session::{on_app_event, relay, Received, SessionAction};

/// Both processes with the two channels between them. The privileged side is driven until
/// it waits for a command that has not been sent yet; every action succeeds.
struct Rig {
    service: GadgetService,
    commands: VecDeque<IpcCommand>,
    events: VecDeque<GadgetEvent>,
    sent: Vec<IpcCommand>,
    received: Vec<GadgetEvent>,
    written: Vec<Vec<u8>>,
    waiting: bool,
}

impl Rig {
    fn new() -> Rig {
        Rig {
            service: GadgetService::new(),
            commands: VecDeque::new(),
            events: VecDeque::new(),
            sent: Vec::new(),
            received: Vec::new(),
            written: Vec::new(),
            waiting: false,
        }
    }

    fn privileged(&mut self, first: ServiceInput) {
        let mut input = Some(first);
        while let Some(next) = input.take() {
            input = match self.service.step(next) {
                ServiceAction::Emit(event) => {
                    self.events.push_back(event);
                    Some(ServiceInput::Delivered)
                }
                ServiceAction::Receive => match self.commands.pop_front() {
                    Some(command) => Some(ServiceInput::Command(command)),
                    None => {
                        self.waiting = true;
                        None
                    }
                },
                ServiceAction::BindController => Some(ServiceInput::ControllerBound),
                ServiceAction::WriteKeyboard(bytes) => {
                    self.written.push(bytes);
                    Some(ServiceInput::Written)
                }
                ServiceAction::WriteMouse(bytes) => {
                    self.written.push(bytes.to_vec());
                    Some(ServiceInput::Written)
                }
                ServiceAction::Shutdown { .. } | ServiceAction::Abort | ServiceAction::Nothing => {
                    None
                }
            };
        }
    }

    fn send(&mut self, command: IpcCommand) {
        self.sent.push(command.clone());
        self.commands.push_back(command);
        if self.waiting {
            self.waiting = false;
            let command = self.commands.pop_front().unwrap();
            self.privileged(ServiceInput::Command(command));
        }
    }

    fn foreground(&mut self) {
        while let Some(event) = self.events.pop_front() {
            self.received.push(event.clone());
            let step = relay(Received::Event(event));
            assert!(step.proceed);
            if let SessionAction::PrepareAndBind(_) = on_app_event(step.forward) {
                self.send(IpcCommand::Bind);
            }
        }
    }
}

#[test]
fn registered_arrives_once_and_before_bound() {
    let mut rig = Rig::new();
    rig.privileged(ServiceInput::GadgetRegistered("/run/user/1000/ffs".to_string()));
    assert_eq!(rig.service.state(), ServiceState::Registered);
    assert!(rig.sent.is_empty());

    rig.foreground();
    assert_eq!(
        rig.received,
        vec![GadgetEvent::Registered("/run/user/1000/ffs".to_string()), GadgetEvent::Bound]
    );
    assert_eq!(rig.sent, vec![IpcCommand::Bind]);
    assert_eq!(rig.service.state(), ServiceState::Running);
}

#[test]
fn bound_is_not_sent_until_bind_was_requested() {
    let mut rig = Rig::new();
    rig.privileged(ServiceInput::GadgetRegistered("/run/ffs".to_string()));
    // The foreground has not looked at its channel yet.
    assert_eq!(rig.events, VecDeque::from(vec![GadgetEvent::Registered("/run/ffs".to_string())]));
    assert_eq!(rig.service.state(), ServiceState::Registered);
    assert!(rig.waiting);
}

#[test]
fn reports_reach_the_device_nodes_in_order() {
    let mut rig = Rig::new();
    rig.privileged(ServiceInput::GadgetRegistered("/run/ffs".to_string()));
    rig.foreground();

    let mut keyboard = Keyboard::new();
    for (code, state) in [
        (0x04, ElementState::Pressed),
        (0x05, ElementState::Pressed),
        (0x04, ElementState::Released),
    ] {
        if let Some(command) = keyboard.apply(code, state) {
            rig.send(command);
        }
    }
    rig.send(IpcCommand::MouseReport([0, 3, 1, 0, 0]));
    assert_eq!(
        rig.written,
        vec![
            vec![0, 0, 4, 0, 0, 0, 0, 0],
            vec![0, 0, 4, 5, 0, 0, 0, 0],
            vec![0, 0, 0, 5, 0, 0, 0, 0],
            vec![0, 3, 1, 0, 0],
        ]
    );
    assert_eq!(rig.service.state(), ServiceState::Running);
}
