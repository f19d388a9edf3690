use usb_kvm::gadget::{
    ExitStatus, GadgetEvent, GadgetService, IpcCommand, ServiceAction, ServiceInput, ServiceState,
};

fn registered() -> GadgetService {
    let mut service = GadgetService::new();
    service.step(ServiceInput::GadgetRegistered("/run/ffs".to_string()));
    service
}

fn running() -> GadgetService {
    let mut service = registered();
    service.step(ServiceInput::Delivered);
    service.step(ServiceInput::Command(IpcCommand::Bind));
    service.step(ServiceInput::ControllerBound);
    service.step(ServiceInput::Delivered);
    service
}

fn all_inputs() -> Vec<ServiceInput> {
    vec![
        ServiceInput::GadgetRegistered("/run/ffs".to_string()),
        ServiceInput::SetupFailed,
        ServiceInput::Delivered,
        ServiceInput::Command(IpcCommand::Bind),
        ServiceInput::Command(IpcCommand::KeyboardReport(vec![0; 8])),
        ServiceInput::Command(IpcCommand::MouseReport([0; 5])),
        ServiceInput::ControllerBound,
        ServiceInput::BindFailed,
        ServiceInput::Written,
        ServiceInput::WriteFailed,
        ServiceInput::ChannelClosed,
        ServiceInput::TransportFailed,
        ServiceInput::Signal,
    ]
}

#[test]
fn service_starts_created() {
    let service = GadgetService::new();
    assert_eq!(service.state(), ServiceState::Created);
    assert!(!service.holds_gadget());
}

#[test]
fn orderly_run_goes_through_every_state() {
    let mut service = GadgetService::new();

    let action = service.step(ServiceInput::GadgetRegistered("/run/user/1000/ffs".to_string()));
    assert_eq!(
        action,
        ServiceAction::Emit(GadgetEvent::Registered("/run/user/1000/ffs".to_string()))
    );
    assert_eq!(service.state(), ServiceState::Registered);
    assert!(service.holds_gadget());

    assert_eq!(service.step(ServiceInput::Delivered), ServiceAction::Receive);
    assert_eq!(service.state(), ServiceState::Registered);

    assert_eq!(
        service.step(ServiceInput::Command(IpcCommand::Bind)),
        ServiceAction::BindController
    );
    assert_eq!(service.state(), ServiceState::Binding);

    assert_eq!(
        service.step(ServiceInput::ControllerBound),
        ServiceAction::Emit(GadgetEvent::Bound)
    );
    assert_eq!(service.state(), ServiceState::Bound);

    assert_eq!(service.step(ServiceInput::Delivered), ServiceAction::Receive);
    assert_eq!(service.state(), ServiceState::Running);

    assert_eq!(
        service.step(ServiceInput::Command(IpcCommand::KeyboardReport(vec![0, 0, 4, 0, 0, 0, 0, 0]))),
        ServiceAction::WriteKeyboard(vec![0, 0, 4, 0, 0, 0, 0, 0])
    );
    assert_eq!(service.step(ServiceInput::Written), ServiceAction::Receive);
    assert_eq!(
        service.step(ServiceInput::Command(IpcCommand::MouseReport([0, 3, 1, 0, 0]))),
        ServiceAction::WriteMouse([0, 3, 1, 0, 0])
    );
    assert_eq!(service.step(ServiceInput::Written), ServiceAction::Receive);
    assert_eq!(service.state(), ServiceState::Running);

    assert_eq!(
        service.step(ServiceInput::ChannelClosed),
        ServiceAction::Shutdown { unregister: true, status: ExitStatus::Success }
    );
    assert_eq!(service.state(), ServiceState::Terminated);
    assert!(!service.holds_gadget());
}

#[test]
fn keyboard_reports_pass_verbatim_whatever_their_length() {
    let mut service = running();
    assert_eq!(
        service.step(ServiceInput::Command(IpcCommand::KeyboardReport(vec![1, 2, 3]))),
        ServiceAction::WriteKeyboard(vec![1, 2, 3])
    );
}

#[test]
fn failed_setup_ends_with_a_failure_and_nothing_to_release() {
    let mut service = GadgetService::new();
    assert_eq!(
        service.step(ServiceInput::SetupFailed),
        ServiceAction::Shutdown { unregister: false, status: ExitStatus::Failure }
    );
    assert_eq!(service.state(), ServiceState::Terminated);
}

#[test]
fn failed_bind_releases_the_gadget() {
    let mut service = registered();
    service.step(ServiceInput::Command(IpcCommand::Bind));
    assert_eq!(
        service.step(ServiceInput::BindFailed),
        ServiceAction::Shutdown { unregister: true, status: ExitStatus::Failure }
    );
    assert_eq!(service.state(), ServiceState::Terminated);
}

#[test]
fn failed_write_is_fatal() {
    let mut service = running();
    service.step(ServiceInput::Command(IpcCommand::MouseReport([0; 5])));
    assert_eq!(
        service.step(ServiceInput::WriteFailed),
        ServiceAction::Shutdown { unregister: true, status: ExitStatus::Failure }
    );
    assert_eq!(service.state(), ServiceState::Terminated);
}

#[test]
fn transport_failure_is_fatal() {
    let mut service = running();
    assert_eq!(
        service.step(ServiceInput::TransportFailed),
        ServiceAction::Shutdown { unregister: true, status: ExitStatus::Failure }
    );
}

#[test]
fn signal_stops_the_service_from_every_state() {
    let mut created = GadgetService::new();
    assert_eq!(
        created.step(ServiceInput::Signal),
        ServiceAction::Shutdown { unregister: false, status: ExitStatus::Success }
    );

    let mut waiting = registered();
    assert_eq!(
        waiting.step(ServiceInput::Signal),
        ServiceAction::Shutdown { unregister: true, status: ExitStatus::Success }
    );

    let mut binding = registered();
    binding.step(ServiceInput::Command(IpcCommand::Bind));
    assert_eq!(
        binding.step(ServiceInput::Signal),
        ServiceAction::Shutdown { unregister: true, status: ExitStatus::Success }
    );

    let mut bound = registered();
    bound.step(ServiceInput::Command(IpcCommand::Bind));
    bound.step(ServiceInput::ControllerBound);
    assert_eq!(bound.state(), ServiceState::Bound);
    assert_eq!(
        bound.step(ServiceInput::Signal),
        ServiceAction::Shutdown { unregister: true, status: ExitStatus::Success }
    );

    let mut live = running();
    assert_eq!(
        live.step(ServiceInput::Signal),
        ServiceAction::Shutdown { unregister: true, status: ExitStatus::Success }
    );
    assert_eq!(live.state(), ServiceState::Terminated);
}

#[test]
fn reports_before_bind_are_refused() {
    let mut service = registered();
    assert_eq!(
        service.step(ServiceInput::Command(IpcCommand::KeyboardReport(vec![0; 8]))),
        ServiceAction::Abort
    );
    assert_eq!(service.state(), ServiceState::Terminated);

    let mut service = registered();
    assert_eq!(
        service.step(ServiceInput::Command(IpcCommand::MouseReport([0; 5]))),
        ServiceAction::Abort
    );
}

#[test]
fn second_bind_is_refused() {
    let mut service = running();
    assert_eq!(service.step(ServiceInput::Command(IpcCommand::Bind)), ServiceAction::Abort);
    assert_eq!(service.state(), ServiceState::Terminated);
}

#[test]
fn bound_is_never_announced_without_a_bind_request() {
    let mut service = registered();
    let action = service.step(ServiceInput::ControllerBound);
    assert_eq!(action, ServiceAction::Shutdown { unregister: true, status: ExitStatus::Failure });

    let mut service = GadgetService::new();
    let action = service.step(ServiceInput::ControllerBound);
    assert_eq!(action, ServiceAction::Shutdown { unregister: false, status: ExitStatus::Failure });
}

#[test]
fn registration_is_announced_once() {
    let mut service = registered();
    let action = service.step(ServiceInput::GadgetRegistered("/elsewhere".to_string()));
    assert_eq!(action, ServiceAction::Shutdown { unregister: true, status: ExitStatus::Failure });
}

#[test]
fn terminated_service_does_nothing() {
    for input in all_inputs() {
        let mut service = running();
        service.step(ServiceInput::Signal);
        assert_eq!(service.step(input), ServiceAction::Nothing);
        assert_eq!(service.state(), ServiceState::Terminated);
    }
}

#[test]
fn emissions_are_registered_then_bound_in_every_short_run() {
    // Every run of three inputs from a fresh service.
    let inputs = all_inputs();
    for a in &inputs {
        for b in &inputs {
            for c in &inputs {
                let mut service = GadgetService::new();
                let mut emitted = Vec::new();
                let mut bind_seen = false;
                for input in [a.clone(), b.clone(), c.clone()] {
                    let is_bind = input == ServiceInput::Command(IpcCommand::Bind);
                    if let ServiceAction::Emit(event) = service.step(input) {
                        if event == GadgetEvent::Bound {
                            assert!(bind_seen);
                        }
                        emitted.push(event);
                    }
                    bind_seen = bind_seen || is_bind;
                }
                assert!(emitted.len() <= 2);
                if emitted.len() >= 1 {
                    assert!(matches!(emitted[0], GadgetEvent::Registered(_)));
                }
                if emitted.len() == 2 {
                    assert_eq!(emitted[1], GadgetEvent::Bound);
                }
            }
        }
    }
}

#[test]
fn cleanup_is_idempotent() {
    let mut service = running();
    assert!(service.cleanup());
    assert_eq!(service.state(), ServiceState::Terminated);
    assert!(!service.cleanup());
    assert_eq!(service.state(), ServiceState::Terminated);

    let mut fresh = GadgetService::new();
    assert!(!fresh.cleanup());
    assert!(!fresh.cleanup());
    assert_eq!(fresh.state(), ServiceState::Terminated);
}
