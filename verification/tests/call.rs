use accord_voice::audio::{AudioDeviceInfo, AudioDeviceList, AudioDeviceSelection};
use accord_voice::call::{Action, CallActor, InternalEvent};
use accord_voice::ticket::create_ticket;
use accord_voice::{CallCommand, CallEvent, CallState, CoreConfig, VoiceError};
use iroh_base::{NodeAddr, SecretKey};

type Actor = CallActor<u32, &'static str>;
type Actions = Vec<Action<u32, &'static str>>;

fn selection(input: &str, output: &str) -> AudioDeviceSelection {
    AudioDeviceSelection { input: Some(input.to_string()), output: Some(output.to_string()) }
}

fn actor() -> Actor {
    CallActor::new(selection("mic", "speaker"))
}

fn show(actions: Actions) -> Vec<String> {
    actions
        .into_iter()
        .map(|action| match action {
            Action::Emit(CallEvent::CallState(state)) => format!("state {:?}", state),
            Action::Emit(CallEvent::Error(text)) => format!("error {}", text),
            Action::Emit(CallEvent::AudioDevices(info)) => {
                format!("audio {} {} {}", info.input_name, info.output_name, info.sample_rate)
            }
            Action::Emit(CallEvent::DeviceList {
                inputs,
                outputs,
                selected_input,
                selected_output,
            }) => format!(
                "devices {} / {} use {} {}",
                inputs.join(","),
                outputs.join(","),
                selected_input.unwrap_or_default(),
                selected_output.unwrap_or_default()
            ),
            Action::SpawnListener => "spawn".to_string(),
            Action::AbortListener => "abort".to_string(),
            Action::Connect(addr) => format!("connect {}", addr.node_id),
            Action::ListDevices => "list".to_string(),
            Action::OpenCall { connection, selection } => format!(
                "open {} {} {}",
                connection,
                selection.input.unwrap_or_default(),
                selection.output.unwrap_or_default()
            ),
            Action::CloseCall(call) => format!("close {}", call),
            Action::DropCall(call) => format!("drop call {}", call),
            Action::DropConnection(connection) => format!("drop {}", connection),
            Action::StoreMute(enabled) => format!("mute {}", enabled),
        })
        .collect()
}

fn info() -> AudioDeviceInfo {
    AudioDeviceInfo {
        input_name: "usb mic".to_string(),
        output_name: "headset".to_string(),
        sample_rate: 48_000,
        channels: 1,
    }
}

fn incoming(connection: u32, remote: Option<&str>) -> InternalEvent<u32> {
    InternalEvent::Incoming { connection, remote: remote.map(|name| name.to_string()) }
}

fn list(inputs: &[&str], outputs: &[&str]) -> AudioDeviceList {
    AudioDeviceList {
        inputs: inputs.iter().map(|name| name.to_string()).collect(),
        outputs: outputs.iter().map(|name| name.to_string()).collect(),
    }
}

fn in_call() -> Actor {
    let mut actor = actor();
    actor.handle_internal(incoming(1, Some("peer")));
    actor.handle_command(CallCommand::Accept);
    actor.call_opened(Ok(("first", info())));
    assert_eq!(actor.state(), CallState::InCall);
    actor
}

fn some_node(seed: u8) -> NodeAddr {
    NodeAddr::new(SecretKey::from_bytes(&[seed; 32]).public())
}

#[test]
fn core_config_has_no_directory() {
    assert_eq!(CoreConfig::default().config_dir, None);
}

#[test]
fn first_move_tells_the_state() {
    let actor = actor();
    assert_eq!(show(actor.start()), vec!["state Idle", "list"]);
    assert!(!actor.is_opening());
}

#[test]
fn listening_starts_and_stops() {
    let mut actor = actor();
    assert_eq!(
        show(actor.handle_command(CallCommand::StartListening)),
        vec!["spawn", "state Listening"]
    );
    assert!(show(actor.handle_command(CallCommand::StartListening)).is_empty());
    assert_eq!(
        show(actor.handle_command(CallCommand::StopListening)),
        vec!["abort", "state Idle"]
    );
    assert_eq!(show(actor.handle_command(CallCommand::StopListening)), vec!["state Idle"]);
}

#[test]
fn caller_is_accepted() {
    let mut actor = actor();
    actor.handle_command(CallCommand::StartListening);
    assert_eq!(
        show(actor.handle_internal(incoming(7, Some("peer")))),
        vec!["state IncomingCall { from: \"peer\" }"]
    );
    assert_eq!(
        show(actor.handle_command(CallCommand::Accept)),
        vec!["abort", "open 7 mic speaker"]
    );
    assert!(actor.is_opening());
    assert_eq!(
        show(actor.call_opened(Ok(("call", info())))),
        vec![
            "devices  /  use usb mic headset",
            "audio usb mic headset 48000",
            "state InCall",
        ]
    );
    assert!(!actor.is_opening());
    assert_eq!(
        show(actor.handle_command(CallCommand::HangUp)),
        vec!["close call", "spawn", "state Listening", "state Listening"]
    );
}

#[test]
fn unknown_caller_is_named_so() {
    let mut actor = actor();
    assert_eq!(
        show(actor.handle_internal(incoming(7, None))),
        vec!["state IncomingCall { from: \"Unknown\" }"]
    );
}

#[test]
fn caller_is_rejected() {
    let mut actor = actor();
    actor.handle_internal(incoming(7, Some("peer")));
    assert_eq!(
        show(actor.handle_command(CallCommand::Reject)),
        vec!["drop 7", "state Idle"]
    );
    assert!(show(actor.handle_command(CallCommand::Reject)).is_empty());
}

#[test]
fn rejecting_while_listening_shows_idle() {
    let mut actor = actor();
    actor.handle_command(CallCommand::StartListening);
    actor.handle_internal(incoming(7, Some("peer")));
    assert_eq!(
        show(actor.handle_command(CallCommand::Reject)),
        vec!["drop 7", "state Idle"]
    );
    assert_eq!(actor.state(), CallState::Idle);
    assert_eq!(
        show(actor.handle_command(CallCommand::StopListening)),
        vec!["abort", "state Idle"]
    );
}

#[test]
fn listening_resumes_after_a_rejection() {
    let mut actor = actor();
    actor.handle_command(CallCommand::StartListening);
    actor.handle_internal(incoming(1, Some("peer")));
    actor.handle_command(CallCommand::Accept);
    actor.call_opened(Err(VoiceError::Audio("x".to_string())));
    actor.handle_internal(incoming(2, Some("other")));
    assert_eq!(
        show(actor.handle_command(CallCommand::Reject)),
        vec!["drop 2", "spawn", "state Listening", "state Idle"]
    );
}

#[test]
fn accepting_needs_a_caller() {
    let mut actor = actor();
    assert_eq!(
        show(actor.handle_command(CallCommand::Accept)),
        vec!["error Invalid state: No incoming call to accept", "state Error"]
    );
    assert_eq!(actor.state(), CallState::Error);
}

#[test]
fn busy_callers_are_let_go() {
    let mut waiting = actor();
    waiting.handle_internal(incoming(1, Some("peer")));
    assert_eq!(show(waiting.handle_internal(incoming(2, None))), vec!["drop 2"]);
    let mut talking = in_call();
    assert_eq!(show(talking.handle_internal(incoming(3, None))), vec!["drop 3"]);
    assert_eq!(talking.state(), CallState::InCall);
}

#[test]
fn dialing_connects_to_the_node_of_the_ticket() {
    let addr = some_node(5);
    let id = addr.node_id;
    let ticket = create_ticket(Some(addr)).ok().unwrap();
    let mut actor = actor();
    assert_eq!(
        show(actor.handle_command(CallCommand::Dial { ticket: ticket.clone() })),
        vec!["state Dialing".to_string(), format!("connect {}", id)]
    );
    assert_eq!(
        show(actor.handle_command(CallCommand::Dial { ticket })),
        vec!["error Invalid state: Already in a call", "state Error"]
    );
    assert_eq!(
        show(actor.handle_internal(InternalEvent::DialResult(Ok(4)))),
        vec!["open 4 mic speaker"]
    );
}

#[test]
fn dialing_needs_a_ticket() {
    let mut actor = actor();
    assert_eq!(
        show(actor.handle_command(CallCommand::Dial { ticket: "blob".to_string() })),
        vec!["error Ticket error: wrong prefix, expected node", "state Error"]
    );
}

#[test]
fn dialing_in_a_call_is_refused() {
    let mut actor = in_call();
    assert_eq!(
        show(actor.dial(Ok(some_node(6)))),
        vec!["error Invalid state: Already in a call", "state Error"]
    );
    assert_eq!(
        show(actor.handle_command(CallCommand::HangUp)),
        vec!["close first", "state Idle"]
    );
}

#[test]
fn dialing_a_read_address() {
    let addr = some_node(6);
    let id = addr.node_id;
    assert_eq!(
        show(actor().dial(Ok(addr))),
        vec!["state Dialing".to_string(), format!("connect {}", id)]
    );
    assert_eq!(
        show(actor().dial(Err(VoiceError::Ticket("bad".to_string())))),
        vec!["error Ticket error: bad", "state Error"]
    );
}

#[test]
fn failed_dialing_leaves_the_call_idle() {
    let mut actor = actor();
    let failed = InternalEvent::DialResult(Err(VoiceError::Other("Dial failed".to_string())));
    assert_eq!(
        show(actor.handle_internal(failed)),
        vec!["error Dial failed", "state Error", "state Idle"]
    );
}

#[test]
fn failed_opening_shows_an_error() {
    let mut actor = actor();
    actor.handle_internal(incoming(1, None));
    actor.handle_command(CallCommand::Accept);
    assert_eq!(
        show(actor.call_opened(Err(VoiceError::Audio("no device".to_string())))),
        vec!["error Audio error: no device", "state Error"]
    );
    assert!(show(actor.handle_command(CallCommand::SetMute(true))).is_empty());
}

#[test]
fn later_call_takes_the_place_of_the_open_one() {
    let mut actor = in_call();
    actor.handle_internal(InternalEvent::DialResult(Ok(9)));
    assert_eq!(
        show(actor.call_opened(Ok(("second", info()))))[0],
        "drop call first".to_string()
    );
    assert_eq!(
        show(actor.handle_command(CallCommand::HangUp)),
        vec!["close second", "state Idle"]
    );
}

#[test]
fn call_ends_from_the_other_side() {
    let mut actor = in_call();
    assert_eq!(
        show(actor.handle_internal(InternalEvent::CallEnded("gone".to_string()))),
        vec!["close first", "state Idle"]
    );
    assert_eq!(
        show(actor.handle_internal(InternalEvent::CallEnded("gone".to_string()))),
        vec!["state Idle"]
    );
}

#[test]
fn ending_a_call_twice() {
    let mut actor = in_call();
    assert_eq!(show(actor.end_call()), vec!["close first", "state Idle"]);
    assert_eq!(show(actor.end_call()), vec!["state Idle"]);
    actor.handle_command(CallCommand::StartListening);
    assert_eq!(show(actor.end_call()), vec!["state Listening"]);
}

#[test]
fn listening_waits_for_the_end_of_the_call() {
    let mut actor = in_call();
    assert!(show(actor.handle_command(CallCommand::StartListening)).is_empty());
    assert_eq!(actor.state(), CallState::InCall);
    assert_eq!(
        show(actor.handle_command(CallCommand::HangUp)),
        vec!["close first", "spawn", "state Listening", "state Listening"]
    );
}

#[test]
fn stop_listening_in_a_call_keeps_the_state() {
    let mut actor = in_call();
    assert!(show(actor.handle_command(CallCommand::StopListening)).is_empty());
    assert_eq!(actor.state(), CallState::InCall);
}

#[test]
fn muting_reaches_the_open_call() {
    let mut actor = in_call();
    assert_eq!(show(actor.handle_command(CallCommand::SetMute(true))), vec!["mute true"]);
    assert_eq!(show(actor.handle_command(CallCommand::SetMute(false))), vec!["mute false"]);
    assert_eq!(actor.state(), CallState::InCall);
}

#[test]
fn chosen_devices_are_told_and_used() {
    let mut actor = actor();
    assert_eq!(
        show(actor.handle_command(CallCommand::SetInputDevice("line".to_string()))),
        vec!["devices  /  use line speaker"]
    );
    assert_eq!(
        show(actor.handle_command(CallCommand::SetOutputDevice("hdmi".to_string()))),
        vec!["devices  /  use line hdmi"]
    );
    actor.handle_internal(incoming(1, None));
    assert_eq!(
        show(actor.handle_command(CallCommand::Accept)),
        vec!["open 1 line hdmi"]
    );
}

#[test]
fn missing_devices_give_way_to_the_default() {
    let mut actor = actor();
    assert_eq!(show(actor.handle_command(CallCommand::RefreshDevices)), vec!["list"]);
    assert_eq!(
        show(
            actor.devices_listed(Ok(list(&["mic", "line"], &["hdmi"])), selection("line", "hdmi"))
        ),
        vec!["devices mic,line / hdmi use mic hdmi"]
    );
    assert_eq!(
        show(actor.devices_listed(Ok(list(&[], &["hdmi"])), AudioDeviceSelection::default())),
        vec!["devices  / hdmi use  hdmi"]
    );
    let failed = Err(VoiceError::Other("Failed to enumerate input devices".to_string()));
    assert_eq!(
        show(actor.devices_listed(failed, AudioDeviceSelection::default())),
        vec!["error Failed to enumerate input devices", "state Error"]
    );
}

#[test]
fn events_are_copied() {
    let event: CallEvent = CallEvent::DeviceList {
        inputs: vec!["a".to_string()],
        outputs: vec![],
        selected_input: Some("a".to_string()),
        selected_output: None,
    };
    assert_eq!(format!("{:?}", event.clone()), format!("{:?}", event));
    let state = CallState::IncomingCall { from: "x".to_string() };
    assert_eq!(state.clone(), state);
}
