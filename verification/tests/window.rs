use accord_voice::audio::AudioDeviceInfo;
use accord_voice::gui::{Effect, Message, StartedCore, VoiceApp};
use accord_voice::qr::{build_qr, draw_qr};
use accord_voice::ticket::{create_ticket, parse_ticket};
use accord_voice::{CallCommand, CallEvent, CallState, VoiceError};
use iroh_base::{NodeAddr, SecretKey};
use qrcode::{Color, QrCode};

fn app() -> VoiceApp {
    VoiceApp::new(Ok(StartedCore { node_id: "abc".to_string(), ticket: "nodexyz".to_string() }))
}

fn command(effect: Option<Effect>) -> Option<CallCommand> {
    match effect {
        Some(Effect::Send(command)) => Some(command),
        Some(Effect::WriteClipboard(_)) => panic!("no command"),
        None => None,
    }
}

fn enter(app: &mut VoiceApp, state: CallState) {
    let effect = app.update(Message::CoreEvent(CallEvent::CallState(state)));
    assert!(effect.is_none());
}

#[test]
fn window_opens_on_a_core() {
    let app = app();
    let screen = app.screen();
    assert_eq!(app.title(), "Accord Voice");
    assert_eq!(screen.node_line, "Node ID: abc");
    assert_eq!(screen.local_ticket, "nodexyz");
    assert_eq!(screen.remote_ticket, "");
    assert_eq!(screen.listening_label, "Start listening");
    assert!(!screen.call_enabled);
    assert!(!screen.accept_enabled);
    assert!(!screen.reject_enabled);
    assert!(!screen.hang_up_enabled);
    assert!(!screen.mute_enabled);
    assert_eq!(screen.mute_label, "Mute");
    assert_eq!(screen.state_line, "State: Idle");
    assert_eq!(screen.audio_line, "Audio: default devices");
    assert_eq!(screen.error_line, "Last error: none");
    assert_eq!(screen.qr_caption, "Ticket QR");
    assert!(app.qr_png().is_some());
}

#[test]
fn window_opens_without_a_core() {
    let mut app = VoiceApp::new(Err(VoiceError::Io("disk full".to_string())));
    let screen = app.screen();
    assert_eq!(screen.node_line, "Node ID: Unavailable");
    assert_eq!(screen.local_ticket, "");
    assert_eq!(screen.error_line, "Last error: I/O error: disk full");
    assert_eq!(screen.qr_caption, "Ticket QR unavailable");
    assert!(app.qr_png().is_none());
    assert!(app.update(Message::ToggleListening).is_none());
    assert!(app.update(Message::HangUp).is_none());
}

#[test]
fn ticket_is_copied() {
    let mut app = app();
    assert!(matches!(
        app.update(Message::CopyTicket),
        Some(Effect::WriteClipboard(text)) if text == "nodexyz"
    ));
}

#[test]
fn call_dials_the_trimmed_ticket() {
    let mut app = app();
    assert!(app.update(Message::Call).is_none());
    assert!(app.update(Message::RemoteTicketChanged(" \t\u{2003}\n".to_string())).is_none());
    assert!(!app.screen().call_enabled);
    assert!(app.update(Message::Call).is_none());
    app.update(Message::RemoteTicketChanged(" \u{a0}node 1\n".to_string()));
    assert!(app.screen().call_enabled);
    assert_eq!(app.screen().remote_ticket, " \u{a0}node 1\n");
    assert_eq!(
        command(app.update(Message::Call)),
        Some(CallCommand::Dial { ticket: "node 1".to_string() })
    );
}

#[test]
fn pasted_ticket_leads_to_its_node() {
    let addr = NodeAddr::new(SecretKey::from_bytes(&[3; 32]).public());
    let ticket = create_ticket(Some(addr.clone())).ok().unwrap();
    let mut app = app();
    app.update(Message::RemoteTicketChanged(format!("  {}\r\n", ticket)));
    match command(app.update(Message::Call)) {
        Some(CallCommand::Dial { ticket: dialed }) => {
            assert_eq!(dialed, ticket);
            assert_eq!(parse_ticket(&dialed), Ok(addr));
        }
        other => panic!("{:?}", other),
    }
}

#[test]
fn listening_is_toggled() {
    let mut app = app();
    assert_eq!(
        command(app.update(Message::ToggleListening)),
        Some(CallCommand::StartListening)
    );
    enter(&mut app, CallState::Listening);
    assert_eq!(app.screen().listening_label, "Stop listening");
    assert_eq!(
        command(app.update(Message::ToggleListening)),
        Some(CallCommand::StopListening)
    );
}

#[test]
fn buttons_follow_the_state() {
    let mut app = app();
    enter(&mut app, CallState::IncomingCall { from: "peer".to_string() });
    let ringing = app.screen();
    assert!(ringing.accept_enabled && ringing.reject_enabled);
    assert!(!ringing.hang_up_enabled && !ringing.mute_enabled);
    assert_eq!(command(app.update(Message::Accept)), Some(CallCommand::Accept));
    assert_eq!(command(app.update(Message::Reject)), Some(CallCommand::Reject));
    enter(&mut app, CallState::Dialing);
    let dialing = app.screen();
    assert!(dialing.hang_up_enabled && !dialing.mute_enabled && !dialing.accept_enabled);
    enter(&mut app, CallState::InCall);
    let talking = app.screen();
    assert!(talking.hang_up_enabled && talking.mute_enabled);
    assert_eq!(command(app.update(Message::HangUp)), Some(CallCommand::HangUp));
}

#[test]
fn states_have_labels() {
    let mut app = app();
    let labels = [
        (CallState::Idle, "Idle"),
        (CallState::Listening, "Listening for calls"),
        (CallState::IncomingCall { from: "peer".to_string() }, "Incoming call from peer"),
        (CallState::Dialing, "Dialing"),
        (CallState::InCall, "In call"),
        (CallState::Error, "Error"),
    ];
    for (state, label) in labels {
        enter(&mut app, state);
        assert_eq!(app.call_state_label(), label);
        assert_eq!(app.screen().state_line, format!("State: {}", label));
    }
}

#[test]
fn mute_is_switched_in_the_call_only() {
    let mut app = app();
    enter(&mut app, CallState::InCall);
    assert_eq!(command(app.update(Message::ToggleMute)), Some(CallCommand::SetMute(true)));
    assert_eq!(app.screen().mute_label, "Unmute");
    enter(&mut app, CallState::InCall);
    assert_eq!(app.screen().mute_label, "Unmute");
    assert_eq!(command(app.update(Message::ToggleMute)), Some(CallCommand::SetMute(false)));
    assert_eq!(command(app.update(Message::ToggleMute)), Some(CallCommand::SetMute(true)));
    enter(&mut app, CallState::Idle);
    assert_eq!(app.screen().mute_label, "Mute");
}

#[test]
fn events_are_shown() {
    let mut app = app();
    app.apply_event(CallEvent::Error("Dial failed".to_string()));
    assert_eq!(app.screen().error_line, "Last error: Dial failed");
    app.apply_event(CallEvent::AudioDevices(AudioDeviceInfo {
        input_name: "mic".to_string(),
        output_name: "speaker".to_string(),
        sample_rate: 48_000,
        channels: 1,
    }));
    assert_eq!(app.screen().audio_line, "Input: mic | Output: speaker | 48000 Hz");
    app.apply_event(CallEvent::AudioDevices(AudioDeviceInfo {
        input_name: "mic".to_string(),
        output_name: "speaker".to_string(),
        sample_rate: u32::MAX,
        channels: 1,
    }));
    assert_eq!(app.screen().audio_line, "Input: mic | Output: speaker | 4294967295 Hz");
    app.apply_event(CallEvent::DeviceList {
        inputs: vec!["mic".to_string()],
        outputs: vec![],
        selected_input: None,
        selected_output: None,
    });
    assert_eq!(app.screen().audio_line, "Input: mic | Output: speaker | 4294967295 Hz");
    assert_eq!(app.screen().state_line, "State: Idle");
}

fn check_picture(text: &str) {
    let png = build_qr(text).unwrap();
    let picture = image::load_from_memory(&png).unwrap().to_luma8();
    let code = QrCode::new(text.as_bytes()).unwrap();
    let colors = code.to_colors();
    let side = code.width() as u32;
    let modules = side + 8;
    let scale = (240 + modules - 1) / modules;
    assert_eq!(picture.dimensions(), (modules * scale, modules * scale));
    let mut dark_pixels = 0;
    for (x, y, pixel) in picture.enumerate_pixels() {
        let column = x / scale;
        let row = y / scale;
        let inside = (4..side + 4).contains(&column) && (4..side + 4).contains(&row);
        let dark = inside && colors[((row - 4) * side + column - 4) as usize] == Color::Dark;
        assert_eq!(pixel.0[0], if dark { 0 } else { 255 });
        dark_pixels += dark as u32;
    }
    assert!(dark_pixels > 0);
}

#[test]
fn picture_shows_the_ticket() {
    check_picture("a");
    check_picture("nodeab2c3d4e5f6g7h8i9j0kalbmcndoepfqgrhsitjukvlwmxnyoz");
    check_picture(&"x".repeat(2_331));
    check_picture(" padded ");
}

#[test]
fn picture_of_nothing() {
    assert_eq!(build_qr(""), None);
    assert_eq!(build_qr(" \n\u{3000}"), None);
    assert_eq!(build_qr(&"x".repeat(2_332)), None);
}

#[test]
fn window_holds_the_picture_of_its_ticket() {
    assert_eq!(app().qr_png(), build_qr("nodexyz"));
    assert_ne!(app().qr_png(), build_qr("nodexyy"));
}

#[test]
fn codes_of_any_size_are_drawn() {
    let _one = draw_qr(1, &vec![true]);
    let _large = draw_qr(300, &vec![true; 90_000]);
}
