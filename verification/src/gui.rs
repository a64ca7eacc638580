//! The window: what its parts show, what pressing them asks for, and how it follows the core.
use vstd::prelude::*;
use vstd::string::*;

use crate::audio::{AudioDeviceInfo, DeviceInfoView};
use crate::call::{
    command_step, tell, ActionView, ActorView, CallCommand, CallEvent, CallState, CommandView,
    EventView, StateView,
};
use crate::call_laws::{consistent, shown, step, user_sees_the_state, Occurrence};
use crate::error::{error_text, VoiceError};
use crate::qr::{build_qr, opt_bytes, ticket_picture};
use crate::text::{
    blank, decimal, decimal_text, joined, opt_text, trim_is_unique, trimmed, trimmed_copy,
    trims_between, trims_to,
};
use crate::ticket::{leads_to, reachability, ticket_outcome};
use iroh_base::NodeAddr;

verus! {

/// What happens in the window.
#[derive(Debug, Clone)]
pub enum Message {
    CopyTicket,
    RemoteTicketChanged(String),
    ToggleListening,
    Call,
    Accept,
    Reject,
    HangUp,
    ToggleMute,
    CoreEvent(CallEvent),
}

/// What the window asks the surrounding program for.
#[derive(Debug)]
pub enum Effect {
    /// Put a text on the clipboard.
    WriteClipboard(String),
    /// Hand a command to the core.
    Send(CallCommand),
}

/// The mathematical value of an [`Effect`].
pub enum EffectView {
    WriteClipboard(Seq<char>),
    Send(CommandView),
}

impl View for Effect {
    type V = EffectView;

    open spec fn view(&self) -> EffectView {
        match self {
            Effect::WriteClipboard(text) => EffectView::WriteClipboard(text@),
            Effect::Send(command) => EffectView::Send(command@),
        }
    }
}

/// The value of an optional effect.
pub open spec fn opt_effect(effect: Option<Effect>) -> Option<EffectView> {
    match effect {
        Some(e) => Some(e@),
        None => None,
    }
}

/// A core that has been started.
#[derive(Debug)]
pub struct StartedCore {
    pub node_id: String,
    pub ticket: String,
}

/// The state of the window.
pub struct VoiceApp {
    has_core: bool,
    node_id: String,
    local_ticket: String,
    remote_ticket: String,
    call_state: CallState,
    last_error: Option<String>,
    muted: bool,
    audio_info: Option<String>,
    qr: Option<Vec<u8>>,
}

/// The mathematical value of a [`VoiceApp`].
pub struct AppView {
    /// The core runs.
    pub has_core: bool,
    /// The identity of this node.
    pub node_id: Seq<char>,
    /// The ticket of this node.
    pub local_ticket: Seq<char>,
    /// The ticket of the other node, as entered.
    pub remote_ticket: Seq<char>,
    /// The state of the call.
    pub call_state: StateView,
    /// The last error.
    pub last_error: Option<Seq<char>>,
    /// The microphone is off.
    pub muted: bool,
    /// The audio devices in use.
    pub audio_info: Option<Seq<char>>,
    /// The picture of the ticket.
    pub qr: Option<Seq<u8>>,
}

impl View for VoiceApp {
    type V = AppView;

    closed spec fn view(&self) -> AppView {
        AppView {
            has_core: self.has_core,
            node_id: self.node_id@,
            local_ticket: self.local_ticket@,
            remote_ticket: self.remote_ticket@,
            call_state: self.call_state@,
            last_error: opt_text(self.last_error),
            muted: self.muted,
            audio_info: opt_text(self.audio_info),
            qr: opt_bytes(self.qr),
        }
    }
}

/// How the window opens: with the identity and ticket of the core, or with the error that kept
/// the core from starting.
pub open spec fn opened(core: Result<StartedCore, VoiceError>) -> AppView {
    let ticket = match core {
        Ok(started) => started.ticket@,
        Err(_) => ""@,
    };
    AppView {
        has_core: core is Ok,
        node_id: match core {
            Ok(started) => started.node_id@,
            Err(_) => ""@,
        },
        local_ticket: ticket,
        remote_ticket: ""@,
        call_state: StateView::Idle,
        last_error: match core {
            Ok(_) => None,
            Err(error) => Some(error_text(error@)),
        },
        muted: false,
        audio_info: None,
        qr: ticket_picture(ticket),
    }
}

/// How the audio devices in use are shown.
pub open spec fn audio_text(info: DeviceInfoView) -> Seq<char> {
    "Input: "@ + info.input_name + " | Output: "@ + info.output_name + " | "@ + decimal(
        info.sample_rate as nat,
    ) + " Hz"@
}

/// How the window follows an event of the core. The microphone counts as on outside a call.
pub open spec fn event_applied(m: AppView, event: EventView) -> AppView {
    match event {
        EventView::CallState(state) => AppView {
            call_state: state,
            muted: m.muted && state is InCall,
            ..m
        },
        EventView::Error(text) => AppView { last_error: Some(text), ..m },
        EventView::AudioDevices(info) => AppView { audio_info: Some(audio_text(info)), ..m },
        EventView::DeviceList { .. } => m,
    }
}

/// A command reaches the core if there is one.
pub open spec fn sent(m: AppView, command: CommandView) -> Option<EffectView> {
    if m.has_core {
        Some(EffectView::Send(command))
    } else {
        None
    }
}

/// The window after a message.
pub open spec fn message_applied(m: AppView, message: Message) -> AppView {
    match message {
        Message::RemoteTicketChanged(value) => AppView { remote_ticket: value@, ..m },
        Message::ToggleMute => AppView { muted: !m.muted, ..m },
        Message::CoreEvent(event) => event_applied(m, event@),
        _ => m,
    }
}

/// What a message asks for.
pub open spec fn message_effect(m: AppView, message: Message) -> Option<EffectView> {
    match message {
        Message::CopyTicket => Some(EffectView::WriteClipboard(m.local_ticket)),
        Message::ToggleListening => sent(
            m,
            if m.call_state is Listening {
                CommandView::StopListening
            } else {
                CommandView::StartListening
            },
        ),
        Message::Call => if blank(m.remote_ticket) {
            None
        } else {
            sent(m, CommandView::Dial { ticket: trimmed(m.remote_ticket) })
        },
        Message::Accept => sent(m, CommandView::Accept),
        Message::Reject => sent(m, CommandView::Reject),
        Message::HangUp => sent(m, CommandView::HangUp),
        Message::ToggleMute => sent(m, CommandView::SetMute(!m.muted)),
        Message::RemoteTicketChanged(_) => None,
        Message::CoreEvent(_) => None,
    }
}

/// How the state of the call is shown.
pub open spec fn state_label(state: StateView) -> Seq<char> {
    match state {
        StateView::Idle => "Idle"@,
        StateView::Listening => "Listening for calls"@,
        StateView::IncomingCall { from } => "Incoming call from "@ + from,
        StateView::Dialing => "Dialing"@,
        StateView::InCall => "In call"@,
        StateView::Error => "Error"@,
    }
}

/// What the window shows. A button that is not enabled cannot be pressed.
#[derive(Debug)]
pub struct Screen {
    pub node_line: String,
    pub local_ticket: String,
    pub remote_ticket: String,
    pub listening_label: String,
    pub call_enabled: bool,
    pub accept_enabled: bool,
    pub reject_enabled: bool,
    pub hang_up_enabled: bool,
    pub mute_label: String,
    pub mute_enabled: bool,
    pub state_line: String,
    pub audio_line: String,
    pub error_line: String,
    pub qr_caption: String,
}

/// The screen shows the window as it is.
pub open spec fn shows(screen: Screen, m: AppView) -> bool {
    &&& screen.node_line@ == "Node ID: "@ + if m.node_id.len() == 0 {
        "Unavailable"@
    } else {
        m.node_id
    }
    &&& screen.local_ticket@ == m.local_ticket
    &&& screen.remote_ticket@ == m.remote_ticket
    &&& screen.listening_label@ == if m.call_state is Listening {
        "Stop listening"@
    } else {
        "Start listening"@
    }
    &&& screen.call_enabled == !blank(m.remote_ticket)
    &&& screen.accept_enabled == (m.call_state is IncomingCall)
    &&& screen.reject_enabled == (m.call_state is IncomingCall)
    &&& screen.hang_up_enabled == (m.call_state is InCall || m.call_state is Dialing)
    &&& screen.mute_label@ == if m.muted {
        "Unmute"@
    } else {
        "Mute"@
    }
    &&& screen.mute_enabled == (m.call_state is InCall)
    &&& screen.state_line@ == "State: "@ + state_label(m.call_state)
    &&& screen.audio_line@ == match m.audio_info {
        Some(text) => text,
        None => "Audio: default devices"@,
    }
    &&& screen.error_line@ == "Last error: "@ + match m.last_error {
        Some(text) => text,
        None => "none"@,
    }
    &&& screen.qr_caption@ == if m.qr is Some {
        "Ticket QR"@
    } else {
        "Ticket QR unavailable"@
    }
}

/// The text that the devices in use are shown with.
fn audio_line(info: &AudioDeviceInfo) -> (r: String)
    ensures
        r@ == audio_text(info@),
{
    let mut text: String = joined("Input: ", info.input_name.as_str());
    text.append(" | Output: ");
    text.append(info.output_name.as_str());
    text.append(" | ");
    let rate: String = decimal_text(info.sample_rate);
    text.append(rate.as_str());
    text.append(" Hz");
    text
}

impl VoiceApp {
    /// Opens the window on a core that has been started, or could not be.
    pub fn new(core: Result<StartedCore, VoiceError>) -> (r: Self)
        ensures
            r@ == opened(core),
    {
        let mut has_core: bool = false;
        let mut node_id: String = "".to_owned();
        let mut local_ticket: String = "".to_owned();
        let mut last_error: Option<String> = None;
        match core {
            Ok(started) => {
                has_core = true;
                node_id = started.node_id;
                local_ticket = started.ticket;
            },
            Err(error) => {
                last_error = Some(error.message());
            },
        }
        let qr: Option<Vec<u8>> = build_qr(local_ticket.as_str());
        VoiceApp {
            has_core,
            node_id,
            local_ticket,
            remote_ticket: "".to_owned(),
            call_state: CallState::Idle,
            last_error,
            muted: false,
            audio_info: None,
            qr,
        }
    }

    /// Asks for a command to be handed to the core, if there is one.
    fn send_command(&self, command: CallCommand) -> (r: Option<Effect>)
        ensures
            opt_effect(r) == sent(self@, command@),
    {
        if self.has_core {
            Some(Effect::Send(command))
        } else {
            None
        }
    }

    /// Follows an event of the core.
    pub fn apply_event(&mut self, event: CallEvent)
        ensures
            final(self)@ == event_applied(old(self)@, event@),
    {
        match event {
            CallEvent::CallState(state) => {
                let in_call: bool = match state {
                    CallState::InCall => true,
                    _ => false,
                };
                self.call_state = state;
                if !in_call {
                    self.muted = false;
                }
            },
            CallEvent::Error(error) => {
                self.last_error = Some(error);
            },
            CallEvent::AudioDevices(info) => {
                self.audio_info = Some(audio_line(&info));
            },
            CallEvent::DeviceList { .. } => {},
        }
    }

    /// Carries out what happened in the window.
    pub fn update(&mut self, message: Message) -> (r: Option<Effect>)
        ensures
            final(self)@ == message_applied(old(self)@, message),
            opt_effect(r) == message_effect(old(self)@, message),
    {
        match message {
            Message::CopyTicket => Some(Effect::WriteClipboard(self.local_ticket.clone())),
            Message::RemoteTicketChanged(value) => {
                self.remote_ticket = value;
                None
            },
            Message::ToggleListening => {
                match self.call_state {
                    CallState::Listening => self.send_command(CallCommand::StopListening),
                    _ => self.send_command(CallCommand::StartListening),
                }
            },
            Message::Call => {
                let ticket: String = trimmed_copy(self.remote_ticket.as_str());
                if ticket.as_str().is_empty() {
                    None
                } else {
                    self.send_command(CallCommand::Dial { ticket })
                }
            },
            Message::Accept => self.send_command(CallCommand::Accept),
            Message::Reject => self.send_command(CallCommand::Reject),
            Message::HangUp => self.send_command(CallCommand::HangUp),
            Message::ToggleMute => {
                self.muted = !self.muted;
                self.send_command(CallCommand::SetMute(self.muted))
            },
            Message::CoreEvent(event) => {
                self.apply_event(event);
                None
            },
        }
    }

    /// The text that the state of the call is shown with.
    pub fn call_state_label(&self) -> (r: String)
        ensures
            r@ == state_label(self@.call_state),
    {
        match &self.call_state {
            CallState::Idle => "Idle".to_owned(),
            CallState::Listening => "Listening for calls".to_owned(),
            CallState::IncomingCall { from } => joined("Incoming call from ", from.as_str()),
            CallState::Dialing => "Dialing".to_owned(),
            CallState::InCall => "In call".to_owned(),
            CallState::Error => "Error".to_owned(),
        }
    }

    /// What the window shows.
    pub fn screen(&self) -> (r: Screen)
        ensures
            shows(r, self@),
    {
        let node_line: String = if self.node_id.as_str().is_empty() {
            joined("Node ID: ", "Unavailable")
        } else {
            joined("Node ID: ", self.node_id.as_str())
        };
        let remote: String = trimmed_copy(self.remote_ticket.as_str());
        let call_enabled: bool = !remote.as_str().is_empty();
        let listening: bool = match self.call_state {
            CallState::Listening => true,
            _ => false,
        };
        let listening_label: String = if listening {
            "Stop listening".to_owned()
        } else {
            "Start listening".to_owned()
        };
        let ringing: bool = match self.call_state {
            CallState::IncomingCall { .. } => true,
            _ => false,
        };
        let in_call: bool = match self.call_state {
            CallState::InCall => true,
            _ => false,
        };
        let dialing: bool = match self.call_state {
            CallState::Dialing => true,
            _ => false,
        };
        let mute_label: String = if self.muted {
            "Unmute".to_owned()
        } else {
            "Mute".to_owned()
        };
        let label: String = self.call_state_label();
        let state_line: String = joined("State: ", label.as_str());
        let audio_line: String = match &self.audio_info {
            Some(text) => text.clone(),
            None => "Audio: default devices".to_owned(),
        };
        let error_line: String = match &self.last_error {
            Some(text) => joined("Last error: ", text.as_str()),
            None => joined("Last error: ", "none"),
        };
        let qr_caption: String = match &self.qr {
            Some(_) => "Ticket QR".to_owned(),
            None => "Ticket QR unavailable".to_owned(),
        };
        Screen {
            node_line,
            local_ticket: self.local_ticket.clone(),
            remote_ticket: self.remote_ticket.clone(),
            listening_label,
            call_enabled,
            accept_enabled: ringing,
            reject_enabled: ringing,
            hang_up_enabled: in_call || dialing,
            mute_label,
            mute_enabled: in_call,
            state_line,
            audio_line,
            error_line,
            qr_caption,
        }
    }

    /// The picture of the ticket, in the PNG format.
    pub fn qr_png(&self) -> (r: Option<Vec<u8>>)
        ensures
            opt_bytes(r) == self@.qr,
    {
        match &self.qr {
            Some(bytes) => Some(bytes.clone()),
            None => None,
        }
    }

    /// The title of the window.
    pub fn title(&self) -> (r: String)
        ensures
            r@ == "Accord Voice"@,
    {
        "Accord Voice".to_owned()
    }
}

/// The window after the events that the actions of the core tell, in order.
pub open spec fn told<C, A>(m: AppView, actions: Seq<ActionView<C, A>>) -> AppView
    decreases actions.len(),
{
    if actions.len() == 0 {
        m
    } else {
        let before = told(m, actions.drop_last());
        match actions.last() {
            ActionView::Emit(event) => event_applied(before, event),
            _ => before,
        }
    }
}

/// The window shows the last state that it was told.
proof fn lemma_told_state<C, A>(m: AppView, actions: Seq<ActionView<C, A>>)
    ensures
        told(m, actions).call_state == shown(m.call_state, actions),
    decreases actions.len(),
{
    if actions.len() > 0 {
        lemma_told_state(m, actions.drop_last());
    }
}

/// The window shows the state of the core: if it did before a move of the core, it does after it.
pub proof fn window_follows_the_core<C, A>(
    m: AppView,
    core: ActorView<C, A>,
    o: Occurrence<C, A>,
)
    requires
        m.call_state == core.state,
    ensures
        told(m, step(core, o).actions).call_state == step(core, o).next.state,
{
    lemma_told_state(m, step(core, o).actions);
    user_sees_the_state(core, o);
}

/// The window lets the message happen: the button for it can be pressed.
pub open spec fn can_happen(m: AppView, message: Message) -> bool {
    match message {
        Message::Call => !blank(m.remote_ticket),
        Message::Accept => m.call_state is IncomingCall,
        Message::Reject => m.call_state is IncomingCall,
        Message::HangUp => m.call_state is InCall || m.call_state is Dialing,
        Message::ToggleMute => m.call_state is InCall,
        _ => true,
    }
}

/// The buttons are as shown: each can be pressed exactly where the window lets its message happen.
pub proof fn buttons_are_as_shown(screen: Screen, m: AppView)
    requires
        shows(screen, m),
    ensures
        screen.call_enabled == can_happen(m, Message::Call),
        screen.accept_enabled == can_happen(m, Message::Accept),
        screen.reject_enabled == can_happen(m, Message::Reject),
        screen.hang_up_enabled == can_happen(m, Message::HangUp),
        screen.mute_enabled == can_happen(m, Message::ToggleMute),
{
}

/// The microphone is shown as off in a call only.
pub open spec fn mute_fits(m: AppView) -> bool {
    m.muted ==> m.call_state is InCall
}

/// Whatever happens in the window, the microphone is shown as off in a call only; a call starts
/// with the microphone on.
pub proof fn mute_stays_in_the_call(m: AppView, message: Message)
    requires
        mute_fits(m),
        can_happen(m, message),
    ensures
        mute_fits(message_applied(m, message)),
{
}

/// The window opens with the microphone on.
pub proof fn mute_fits_at_first(core: Result<StartedCore, VoiceError>)
    ensures
        mute_fits(opened(core)),
{
}

/// The core is told what the window shows: after the microphone has been switched, the command
/// says what is shown, and switching it again shows what was shown before.
pub proof fn mute_is_told_as_shown(m: AppView)
    ensures
        m.has_core ==> message_effect(m, Message::ToggleMute) == Some(
            EffectView::Send(
                CommandView::SetMute(message_applied(m, Message::ToggleMute).muted),
            ),
        ),
        message_applied(message_applied(m, Message::ToggleMute), Message::ToggleMute) == m,
{
}

/// A ticket brings the caller to the node that made it: where the ticket of a node has been
/// pasted, with or without white space around it, the call can be placed, and a core without a
/// call then connects to that node.
pub proof fn pasted_ticket_reaches_the_node<C, A>(
    m: AppView,
    core: ActorView<C, A>,
    ticket: Seq<char>,
    addr: NodeAddr,
)
    requires
        leads_to(ticket, addr),
        trims_to(m.remote_ticket, ticket),
        m.has_core,
        core.active is None,
        !(core.state is Dialing),
    ensures
        can_happen(m, Message::Call),
        message_effect(m, Message::Call) == Some(EffectView::Send(CommandView::Dial { ticket })),
        exists|reached: NodeAddr|
            #![trigger reachability(reached)]
            reachability(reached) == reachability(addr) && command_step(
                core,
                CommandView::Dial { ticket },
            ).actions == seq![tell::<C, A>(StateView::Dialing), ActionView::Connect(reached)],
{
    let (start, end) = choose|start: int, end: int| #[trigger]
        trims_between(m.remote_ticket, ticket, start, end);
    assert(ticket[0] == m.remote_ticket[start]);
    trim_is_unique(m.remote_ticket, ticket, trimmed(m.remote_ticket));
    let reached = ticket_outcome(ticket)->Ok_0;
    assert(reachability(reached) == reachability(addr));
}

/// A ticket of nothing but white space has no picture, and cannot be called.
pub proof fn blank_ticket_is_nothing(m: AppView, ticket: Seq<char>)
    requires
        blank(ticket),
    ensures
        ticket_picture(ticket) is None,
        m.remote_ticket == ticket ==> !can_happen(m, Message::Call) && message_effect(
            m,
            Message::Call,
        ) is None,
{
}

/// A caller who can be accepted in the window waits in the core, so that accepting is not refused.
pub proof fn accepting_is_not_refused<C, A>(m: AppView, core: ActorView<C, A>)
    requires
        m.call_state == core.state,
        consistent(core),
        !core.opening,
        can_happen(m, Message::Accept),
    ensures
        core.pending is Some,
        command_step(core, CommandView::Accept).actions.last() is OpenCall,
{
}

}
