use usb_kvm::gadget::GadgetEvent;
use usb_kvm::session::{
    launcher_arguments, on_app_event, relay, Received, Relay, SessionAction, GADGET_FLAG, LAUNCHER,
};
use usb_kvm::AppEvent;

#[test]
fn received_events_are_forwarded() {
    assert_eq!(
        relay(Received::Event(GadgetEvent::Registered("/run/ffs".to_string()))),
        Relay {
            forward: AppEvent::Gadget(GadgetEvent::Registered("/run/ffs".to_string())),
            proceed: true
        }
    );
    assert_eq!(
        relay(Received::Event(GadgetEvent::Bound)),
        Relay { forward: AppEvent::Gadget(GadgetEvent::Bound), proceed: true }
    );
}

#[test]
fn disconnect_is_forwarded_and_ends_the_relay() {
    assert_eq!(
        relay(Received::Disconnected),
        Relay { forward: AppEvent::Gadget(GadgetEvent::Disconnected), proceed: false }
    );
}

#[test]
fn failed_wait_is_fatal() {
    assert_eq!(
        relay(Received::Failed),
        Relay { forward: AppEvent::Gadget(GadgetEvent::Disconnected), proceed: false }
    );
}

fn run_relay(outcomes: Vec<Received>) -> Vec<AppEvent> {
    let mut forwarded = Vec::new();
    for outcome in outcomes {
        let step = relay(outcome);
        forwarded.push(step.forward);
        if !step.proceed {
            break;
        }
    }
    forwarded
}

#[test]
fn relay_forwards_disconnected_exactly_once() {
    let forwarded = run_relay(vec![
        Received::Event(GadgetEvent::Registered("/run/ffs".to_string())),
        Received::Event(GadgetEvent::Bound),
        Received::Disconnected,
        Received::Disconnected,
        Received::Event(GadgetEvent::Bound),
    ]);
    assert_eq!(
        forwarded,
        vec![
            AppEvent::Gadget(GadgetEvent::Registered("/run/ffs".to_string())),
            AppEvent::Gadget(GadgetEvent::Bound),
            AppEvent::Gadget(GadgetEvent::Disconnected),
        ]
    );
}

#[test]
fn relay_stops_at_the_first_failed_wait() {
    let forwarded = run_relay(vec![
        Received::Event(GadgetEvent::Registered("/run/ffs".to_string())),
        Received::Failed,
        Received::Event(GadgetEvent::Bound),
        Received::Disconnected,
    ]);
    assert_eq!(
        forwarded,
        vec![
            AppEvent::Gadget(GadgetEvent::Registered("/run/ffs".to_string())),
            AppEvent::Gadget(GadgetEvent::Disconnected),
        ]
    );
}

#[test]
fn relay_without_failure_forwards_no_disconnect() {
    let forwarded = run_relay(vec![
        Received::Event(GadgetEvent::Registered("/run/ffs".to_string())),
        Received::Event(GadgetEvent::Bound),
    ]);
    assert_eq!(
        forwarded,
        vec![
            AppEvent::Gadget(GadgetEvent::Registered("/run/ffs".to_string())),
            AppEvent::Gadget(GadgetEvent::Bound),
        ]
    );
}

#[test]
fn registered_gadget_is_prepared_and_bound() {
    assert_eq!(
        on_app_event(AppEvent::Gadget(GadgetEvent::Registered("/run/ffs".to_string()))),
        SessionAction::PrepareAndBind("/run/ffs".to_string())
    );
}

#[test]
fn other_events_map_to_their_actions() {
    assert_eq!(on_app_event(AppEvent::Gadget(GadgetEvent::Bound)), SessionAction::Nothing);
    assert_eq!(on_app_event(AppEvent::Gadget(GadgetEvent::Disconnected)), SessionAction::Terminate);
    assert_eq!(on_app_event(AppEvent::DisplayFrameArrived), SessionAction::Redraw);
}

#[test]
fn launcher_gets_program_flag_and_channel() {
    assert_eq!(LAUNCHER, "pkexec");
    assert_eq!(GADGET_FLAG, "--gadget");
    assert_eq!(
        launcher_arguments("/usr/bin/usb-kvm", "/tmp/rendezvous-17"),
        vec![
            "/usr/bin/usb-kvm".to_string(),
            "--gadget".to_string(),
            "/tmp/rendezvous-17".to_string()
        ]
    );
    assert_eq!(
        launcher_arguments("", ""),
        vec![String::new(), "--gadget".to_string(), String::new()]
    );
}
