use mouse_relay::capability::CapabilitySet;
use mouse_relay::capability::declare_capabilities;
use mouse_relay::controller::Action;
use mouse_relay::controller::Controller;
use mouse_relay::controller::Outcome;
use mouse_relay::controller::Phase;
use mouse_relay::error::RelayError;
use mouse_relay::event::BTN_EXTRA;
use mouse_relay::event::BTN_LEFT;
use mouse_relay::event::BTN_MIDDLE;
use mouse_relay::event::BTN_RIGHT;
use mouse_relay::event::BTN_SIDE;
use mouse_relay::event::EVENT_TYPE_KEY;
use mouse_relay::event::EVENT_TYPE_RELATIVE;
use mouse_relay::event::EVENT_TYPE_SYNCHRONIZATION;
use mouse_relay::event::EventClass;
use mouse_relay::event::InputEventRec;
use mouse_relay::event::MouseButton;
use mouse_relay::event::REL_HWHEEL;
use mouse_relay::event::REL_WHEEL;
use mouse_relay::event::REL_X;
use mouse_relay::event::REL_Y;
use mouse_relay::event::decode_button;
use mouse_relay::identity::InputIdentity;
use mouse_relay::relay::Diagnostic;
use mouse_relay::relay::forward_plan;
use mouse_relay::relay::relay_batch;
use mouse_relay::sim::SimulatedPhysicalDevice;
use mouse_relay::sim::SimulatedSyntheticDevice;
use mouse_relay::sim::run_pipeline;
use mouse_relay::sim::run_relay;

fn key(code: u16, value: i32) -> InputEventRec {
    InputEventRec::new(EVENT_TYPE_KEY, code, value)
}

fn rel(code: u16, value: i32) -> InputEventRec {
    InputEventRec::new(EVENT_TYPE_RELATIVE, code, value)
}

fn syn() -> InputEventRec {
    InputEventRec::new(EVENT_TYPE_SYNCHRONIZATION, 0, 0)
}

fn ident() -> InputIdentity {
    InputIdentity::new(0x03, 0x046d, 0xc092, 0x0111)
}

#[test]
fn classify_by_event_type() {
    assert_eq!(key(BTN_LEFT, 1).classify(), EventClass::Button);
    assert_eq!(rel(REL_X, 5).classify(), EventClass::RelativeMotion);
    assert_eq!(syn().classify(), EventClass::Synchronization);
    assert_eq!(InputEventRec::new(0x04, 0x04, 7).classify(), EventClass::Other);
}

#[test]
fn sync_is_never_logged_other_events_are() {
    assert!(!syn().should_log());
    assert!(key(BTN_LEFT, 1).should_log());
    assert!(rel(REL_Y, -2).should_log());
    assert!(InputEventRec::new(0x04, 0x04, 7).should_log());
}

#[test]
fn decode_button_knows_the_five_mouse_buttons() {
    assert_eq!(decode_button(BTN_LEFT), Some(MouseButton::Left));
    assert_eq!(decode_button(BTN_RIGHT), Some(MouseButton::Right));
    assert_eq!(decode_button(BTN_MIDDLE), Some(MouseButton::Middle));
    assert_eq!(decode_button(BTN_SIDE), Some(MouseButton::Side));
    assert_eq!(decode_button(BTN_EXTRA), Some(MouseButton::Extra));
    assert_eq!(decode_button(0x1f), None);
}

#[test]
fn declared_capability_set_is_the_fixed_mouse_set() {
    let cs = declare_capabilities();
    assert_eq!(cs.buttons, vec![BTN_LEFT, BTN_RIGHT, BTN_MIDDLE, BTN_SIDE, BTN_EXTRA]);
    assert_eq!(cs.relative_axes, vec![REL_X, REL_Y, REL_WHEEL, REL_HWHEEL]);
}

#[test]
fn capability_set_accepts_declared_codes_only() {
    let cs = declare_capabilities();
    assert!(cs.accepts(&key(BTN_LEFT, 1)));
    assert!(cs.accepts(&rel(REL_WHEEL, -1)));
    assert!(cs.accepts(&syn()));
    // A key code never declared for a mouse.
    assert!(!cs.accepts(&key(0x1e, 1)));
    // An axis code outside the declared four.
    assert!(!cs.accepts(&rel(0x09, 1)));
    // A type with no declared capability at all.
    assert!(!cs.accepts(&InputEventRec::new(0x04, 0x04, 7)));
}

#[test]
fn forward_plan_emits_the_event_verbatim() {
    let ev = key(BTN_LEFT, 1);
    let (diagnostic, out) = forward_plan(&ev);
    assert_eq!(out, vec![ev]);
    assert_eq!(diagnostic, Some(Diagnostic::Button(Some(MouseButton::Left), BTN_LEFT, 1)));

    let ev = rel(REL_X, 5);
    let (diagnostic, out) = forward_plan(&ev);
    assert_eq!(out, vec![ev]);
    assert_eq!(diagnostic, Some(Diagnostic::RelativeMotion(REL_X, 5)));

    let ev = syn();
    let (diagnostic, out) = forward_plan(&ev);
    assert_eq!(out, vec![ev]);
    assert_eq!(diagnostic, None);

    let ev = InputEventRec::new(0x04, 0x04, 7);
    let (diagnostic, out) = forward_plan(&ev);
    assert_eq!(out, vec![ev]);
    assert_eq!(diagnostic, Some(Diagnostic::Generic(0x04, 0x04, 7)));
}

#[test]
fn relay_batch_is_the_identity() {
    let batch = vec![key(BTN_LEFT, 1), rel(REL_X, 3), syn(), rel(REL_Y, -8), key(BTN_LEFT, 0)];
    assert_eq!(relay_batch(&batch), batch);
    let empty: Vec<InputEventRec> = vec![];
    assert_eq!(relay_batch(&empty), empty);
}

#[test]
fn relay_preserves_two_batches_in_order_and_value() {
    // The physical device emits [KEY(BTN_LEFT, 1), SYN] and then
    // [REL(REL_X, 5), REL(REL_Y, -3), SYN]; the synthetic device must
    // receive the identical events in the identical order.
    let first = vec![key(BTN_LEFT, 1), syn()];
    let second = vec![rel(REL_X, 5), rel(REL_Y, -3), syn()];
    let mut source = SimulatedPhysicalDevice::new(ident(), vec![first.clone(), second.clone()]);
    source.grab().unwrap();
    let mut sink = SimulatedSyntheticDevice::new(declare_capabilities(), ident());
    let fatal = run_relay(&mut source, &mut sink);
    assert_eq!(fatal, RelayError::IoError);
    let mut expected = first;
    expected.extend(second);
    assert_eq!(sink.emitted, expected);
    assert_eq!(sink.accepted, sink.emitted);
    assert_eq!(sink.rejected, vec![]);
}

#[test]
fn grabbing_twice_yields_already_grabbed_and_keeps_the_first_grab() {
    let mut device = SimulatedPhysicalDevice::new(ident(), vec![vec![syn()]]);
    assert_eq!(device.grab(), Ok(()));
    assert_eq!(device.grab(), Err(RelayError::AlreadyGrabbed));
    // The first grab is unaffected: the holder still fetches events.
    assert!(device.grabbed);
    assert_eq!(device.fetch_events(), Ok(vec![syn()]));
}

#[test]
fn undeclared_code_is_rejected_by_the_sink() {
    // A capability set missing BTN_SIDE: an event with that code is
    // sorted into rejected, surfaced rather than silently lost.
    let cs = CapabilitySet {
        buttons: vec![BTN_LEFT, BTN_RIGHT],
        relative_axes: vec![REL_X, REL_Y],
    };
    let mut sink = SimulatedSyntheticDevice::new(cs, ident());
    sink.emit(&key(BTN_SIDE, 1));
    sink.emit(&key(BTN_LEFT, 1));
    assert_eq!(sink.emitted, vec![key(BTN_SIDE, 1), key(BTN_LEFT, 1)]);
    assert_eq!(sink.accepted, vec![key(BTN_LEFT, 1)]);
    assert_eq!(sink.rejected, vec![key(BTN_SIDE, 1)]);
}

#[test]
fn sync_markers_are_relayed() {
    let batch = vec![key(BTN_LEFT, 1), syn(), rel(REL_X, 2), syn()];
    let out = relay_batch(&batch);
    let sync_in = batch.iter().filter(|e| e.event_type == EVENT_TYPE_SYNCHRONIZATION).count();
    let sync_out = out.iter().filter(|e| e.event_type == EVENT_TYPE_SYNCHRONIZATION).count();
    assert_eq!(sync_in, 2);
    assert!(sync_in <= sync_out);
}

#[test]
fn pipeline_without_privilege_fails_before_any_device() {
    let mut source = SimulatedPhysicalDevice::new(ident(), vec![vec![key(BTN_LEFT, 1)]]);
    let (code, sink) = run_pipeline(false, &mut source, declare_capabilities());
    assert_eq!(code, 1);
    assert!(sink.is_none());
    // The physical device was never opened or grabbed.
    assert!(!source.grabbed);
    assert_eq!(source.fetched, 0);
}

#[test]
fn pipeline_relays_everything_then_tears_down_on_disconnection() {
    let batches = vec![
        vec![key(BTN_LEFT, 1), syn()],
        vec![rel(REL_X, 5), rel(REL_Y, -3), syn()],
        vec![key(BTN_LEFT, 0), syn()],
    ];
    let mut source = SimulatedPhysicalDevice::new(ident(), batches.clone());
    let (code, sink) = run_pipeline(true, &mut source, declare_capabilities());
    // The dead source is fatal: non-zero exit, and the grab was released.
    assert_eq!(code, 1);
    assert!(!source.grabbed);
    let sink = sink.unwrap();
    // The synthetic device mirrors the physical identity.
    assert_eq!(sink.identity, source.identity);
    let expected: Vec<InputEventRec> = batches.into_iter().flatten().collect();
    assert_eq!(sink.emitted, expected);
    assert_eq!(sink.accepted, expected);
}

#[test]
fn pipeline_leaves_a_foreign_grab_alone() {
    let mut source = SimulatedPhysicalDevice::new(ident(), vec![vec![syn()]]);
    source.grab().unwrap();
    let (code, sink) = run_pipeline(true, &mut source, declare_capabilities());
    assert_eq!(code, 1);
    assert!(sink.is_none());
    // The foreign holder keeps its exclusive capture.
    assert!(source.grabbed);
    assert_eq!(source.fetched, 0);
}

#[test]
fn controller_acquisition_happy_path() {
    let mut ctl = Controller::initial();
    assert_eq!(ctl.next_action(), Action::CheckPrivilege);
    ctl.step(Outcome::PrivilegeIs(true));
    assert_eq!(ctl.next_action(), Action::OpenDevice);
    ctl.step(Outcome::OpenFinished(Ok(())));
    assert_eq!(ctl.next_action(), Action::GrabDevice);
    ctl.step(Outcome::GrabFinished(Ok(())));
    assert_eq!(ctl.next_action(), Action::BuildSyntheticDevice);
    assert!(ctl.grab_held);
    ctl.step(Outcome::BuildFinished(Ok(())));
    assert_eq!(ctl.next_action(), Action::Settle);
    ctl.step(Outcome::SettleFinished);
    assert_eq!(ctl.next_action(), Action::FetchAndForward);
    ctl.step(Outcome::BatchForwarded);
    assert_eq!(ctl.next_action(), Action::FetchAndForward);
}

#[test]
fn controller_releases_grab_when_build_fails() {
    let mut ctl = Controller::initial();
    ctl.step(Outcome::PrivilegeIs(true));
    ctl.step(Outcome::OpenFinished(Ok(())));
    ctl.step(Outcome::GrabFinished(Ok(())));
    ctl.step(Outcome::BuildFinished(Err(RelayError::DeviceCreationError)));
    // Half-initialized: the grab must be released before exiting.
    assert_eq!(ctl.phase, Phase::ReleasingGrab);
    assert_eq!(ctl.next_action(), Action::ReleaseGrab);
    ctl.step(Outcome::GrabReleased);
    assert_eq!(ctl.phase, Phase::Terminated);
    assert!(!ctl.grab_held);
    assert_eq!(ctl.next_action(), Action::ExitFailure(RelayError::DeviceCreationError));
    assert_eq!(ctl.exit_code(), 1);
}

#[test]
fn controller_interrupt_exits_cleanly_with_status_zero() {
    let mut ctl = Controller::initial();
    ctl.step(Outcome::PrivilegeIs(true));
    ctl.step(Outcome::OpenFinished(Ok(())));
    ctl.step(Outcome::GrabFinished(Ok(())));
    ctl.step(Outcome::BuildFinished(Ok(())));
    ctl.step(Outcome::SettleFinished);
    ctl.step(Outcome::BatchForwarded);
    ctl.step(Outcome::Interrupted);
    assert_eq!(ctl.next_action(), Action::ReleaseGrab);
    ctl.step(Outcome::GrabReleased);
    assert!(ctl.is_terminated());
    assert!(!ctl.grab_held);
    assert_eq!(ctl.next_action(), Action::ExitSuccess);
    assert_eq!(ctl.exit_code(), 0);
}

#[test]
fn controller_privilege_denied_terminates_at_once() {
    let mut ctl = Controller::initial();
    ctl.step(Outcome::PrivilegeIs(false));
    assert!(ctl.is_terminated());
    assert!(!ctl.grab_held);
    assert!(!ctl.synthetic_built);
    assert_eq!(ctl.next_action(), Action::ExitFailure(RelayError::PermissionDenied));
    assert_eq!(ctl.exit_code(), 1);
}

#[test]
fn error_messages_name_each_failure() {
    assert_eq!(RelayError::PermissionDenied.message(), "this program needs elevated privilege");
    assert_eq!(RelayError::DeviceNotFound.message(), "physical device not found");
    assert_eq!(
        RelayError::AlreadyGrabbed.message(),
        "device is already grabbed by another process"
    );
    assert_eq!(
        RelayError::DeviceCreationError.message(),
        "could not create the virtual device"
    );
    assert_eq!(RelayError::IoError.message(), "device read or write failed");
}
