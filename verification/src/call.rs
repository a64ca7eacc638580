//! The call actor: what a command of the user or an event of the network does to the call, and
//! what is to be done about it.
//!
//! The actor decides and the surrounding program acts. Each event is handed to the actor, which
//! moves to its next state and answers with the actions to perform, in order. Two of them have an
//! answer, which is handed back before any other event: [`Action::ListDevices`] is answered with
//! [`CallActor::devices_listed`], [`Action::OpenCall`] with [`CallActor::call_opened`].
use iroh_base::NodeAddr;
use std::path::PathBuf;
use vstd::prelude::*;
use vstd::string::*;

use crate::audio::{
    AudioDeviceInfo, AudioDeviceList, AudioDeviceSelection, DeviceInfoView, DeviceListView,
    SelectionView,
};
use crate::error::{error_text, ErrorView, VoiceError};
use crate::text::{contains_text, copy_list, copy_opt, opt_text, texts};
use crate::ticket::{parse_ticket, ticket_outcome};

verus! {

/// The state of the call as the user sees it.
#[derive(Debug, PartialEq, Eq)]
pub enum CallState {
    Idle,
    Listening,
    IncomingCall { from: String },
    Dialing,
    InCall,
    Error,
}

/// The mathematical value of a [`CallState`].
pub enum StateView {
    Idle,
    Listening,
    IncomingCall { from: Seq<char> },
    Dialing,
    InCall,
    Error,
}

impl View for CallState {
    type V = StateView;

    open spec fn view(&self) -> StateView {
        match self {
            CallState::Idle => StateView::Idle,
            CallState::Listening => StateView::Listening,
            CallState::IncomingCall { from } => StateView::IncomingCall { from: from@ },
            CallState::Dialing => StateView::Dialing,
            CallState::InCall => StateView::InCall,
            CallState::Error => StateView::Error,
        }
    }
}

impl Clone for CallState {
    fn clone(&self) -> (r: Self)
        ensures
            r@ == self@,
    {
        match self {
            CallState::Idle => CallState::Idle,
            CallState::Listening => CallState::Listening,
            CallState::IncomingCall { from } => CallState::IncomingCall { from: from.clone() },
            CallState::Dialing => CallState::Dialing,
            CallState::InCall => CallState::InCall,
            CallState::Error => CallState::Error,
        }
    }
}

/// What the user asks for.
#[derive(Debug, Clone, PartialEq, Eq)]
pub enum CallCommand {
    StartListening,
    StopListening,
    Dial { ticket: String },
    RefreshDevices,
    SetInputDevice(String),
    SetOutputDevice(String),
    Accept,
    Reject,
    HangUp,
    SetMute(bool),
}

/// The mathematical value of a [`CallCommand`].
pub enum CommandView {
    StartListening,
    StopListening,
    Dial { ticket: Seq<char> },
    RefreshDevices,
    SetInputDevice(Seq<char>),
    SetOutputDevice(Seq<char>),
    Accept,
    Reject,
    HangUp,
    SetMute(bool),
}

impl View for CallCommand {
    type V = CommandView;

    open spec fn view(&self) -> CommandView {
        match self {
            CallCommand::StartListening => CommandView::StartListening,
            CallCommand::StopListening => CommandView::StopListening,
            CallCommand::Dial { ticket } => CommandView::Dial { ticket: ticket@ },
            CallCommand::RefreshDevices => CommandView::RefreshDevices,
            CallCommand::SetInputDevice(name) => CommandView::SetInputDevice(name@),
            CallCommand::SetOutputDevice(name) => CommandView::SetOutputDevice(name@),
            CallCommand::Accept => CommandView::Accept,
            CallCommand::Reject => CommandView::Reject,
            CallCommand::HangUp => CommandView::HangUp,
            CallCommand::SetMute(enabled) => CommandView::SetMute(*enabled),
        }
    }
}

/// What the user is told.
#[derive(Debug)]
pub enum CallEvent {
    CallState(CallState),
    Error(String),
    AudioDevices(AudioDeviceInfo),
    DeviceList {
        inputs: Vec<String>,
        outputs: Vec<String>,
        selected_input: Option<String>,
        selected_output: Option<String>,
    },
}

/// The mathematical value of a [`CallEvent`].
pub enum EventView {
    CallState(StateView),
    Error(Seq<char>),
    AudioDevices(DeviceInfoView),
    DeviceList { devices: DeviceListView, selection: SelectionView },
}

impl View for CallEvent {
    type V = EventView;

    open spec fn view(&self) -> EventView {
        match self {
            CallEvent::CallState(state) => EventView::CallState(state@),
            CallEvent::Error(text) => EventView::Error(text@),
            CallEvent::AudioDevices(info) => EventView::AudioDevices(info@),
            CallEvent::DeviceList { inputs, outputs, selected_input, selected_output } =>
                EventView::DeviceList {
                    devices: DeviceListView { inputs: texts(inputs@), outputs: texts(outputs@) },
                    selection: SelectionView {
                        input: opt_text(*selected_input),
                        output: opt_text(*selected_output),
                    },
                },
        }
    }
}

impl Clone for CallEvent {
    fn clone(&self) -> (r: Self)
        ensures
            r@ == self@,
    {
        match self {
            CallEvent::CallState(state) => CallEvent::CallState(state.clone()),
            CallEvent::Error(text) => CallEvent::Error(text.clone()),
            CallEvent::AudioDevices(info) => CallEvent::AudioDevices(info.clone()),
            CallEvent::DeviceList { inputs, outputs, selected_input, selected_output } =>
                CallEvent::DeviceList {
                    inputs: copy_list(inputs),
                    outputs: copy_list(outputs),
                    selected_input: copy_opt(selected_input),
                    selected_output: copy_opt(selected_output),
                },
        }
    }
}

/// How the core is started.
#[derive(Debug, Clone)]
pub struct CoreConfig {
    /// Where the identity is kept, if not where the platform keeps it.
    pub config_dir: Option<PathBuf>,
}

impl Default for CoreConfig {
    fn default() -> (r: Self)
        ensures
            r.config_dir is None,
    {
        CoreConfig { config_dir: None }
    }
}

/// What the network reports.
#[derive(Debug)]
pub enum InternalEvent<C> {
    /// A connection has been accepted, from the node with the given name if it is known.
    Incoming { connection: C, remote: Option<String> },
    /// Dialing has come to an end.
    DialResult(Result<C, VoiceError>),
    /// A task of the call has ended, for the given reason.
    CallEnded(String),
}

/// What the surrounding program is to do. `C` is a connection to another node, `A` is an open
/// call with its audio and its tasks.
pub enum Action<C, A> {
    /// Tell the user.
    Emit(CallEvent),
    /// Start accepting connections.
    SpawnListener,
    /// Stop accepting connections.
    AbortListener,
    /// Connect to a node, and report how that went.
    Connect(NodeAddr),
    /// List the audio devices, and answer at once.
    ListDevices,
    /// Open a call over the connection with the selected devices, and answer at once.
    OpenCall { connection: C, selection: AudioDeviceSelection },
    /// Stop the tasks of the call and let it go.
    CloseCall(A),
    /// Let go of a call that another one has replaced.
    DropCall(A),
    /// Let go of a connection.
    DropConnection(C),
    /// Switch the microphone of the open call off or on.
    StoreMute(bool),
}

/// The mathematical value of an [`Action`].
pub enum ActionView<C, A> {
    Emit(EventView),
    SpawnListener,
    AbortListener,
    Connect(NodeAddr),
    ListDevices,
    OpenCall { connection: C, selection: SelectionView },
    CloseCall(A),
    DropCall(A),
    DropConnection(C),
    StoreMute(bool),
}

impl<C, A> View for Action<C, A> {
    type V = ActionView<C, A>;

    open spec fn view(&self) -> ActionView<C, A> {
        match self {
            Action::Emit(event) => ActionView::Emit(event@),
            Action::SpawnListener => ActionView::SpawnListener,
            Action::AbortListener => ActionView::AbortListener,
            Action::Connect(addr) => ActionView::Connect(*addr),
            Action::ListDevices => ActionView::ListDevices,
            Action::OpenCall { connection, selection } => ActionView::OpenCall {
                connection: *connection,
                selection: selection@,
            },
            Action::CloseCall(call) => ActionView::CloseCall(*call),
            Action::DropCall(call) => ActionView::DropCall(*call),
            Action::DropConnection(connection) => ActionView::DropConnection(*connection),
            Action::StoreMute(enabled) => ActionView::StoreMute(*enabled),
        }
    }
}

/// The values of a list of actions.
pub open spec fn views<C, A>(actions: Seq<Action<C, A>>) -> Seq<ActionView<C, A>> {
    actions.map_values(|action: Action<C, A>| action@)
}

/// The mathematical value of a [`CallActor`].
pub struct ActorView<C, A> {
    /// What the user was last told of the call.
    pub state: StateView,
    /// Connections are being accepted.
    pub listening: bool,
    /// The user wants connections to be accepted.
    pub requested: bool,
    /// The connection of a caller who waits for an answer.
    pub pending: Option<C>,
    /// The open call.
    pub active: Option<A>,
    /// A call is being opened, and the answer is outstanding.
    pub opening: bool,
    /// The devices that are present.
    pub devices: DeviceListView,
    /// The devices that are used.
    pub selection: SelectionView,
}

/// The actor before anything has happened.
pub open spec fn initial<C, A>(defaults: SelectionView) -> ActorView<C, A> {
    ActorView {
        state: StateView::Idle,
        listening: false,
        requested: false,
        pending: None,
        active: None,
        opening: false,
        devices: DeviceListView { inputs: seq![], outputs: seq![] },
        selection: defaults,
    }
}

/// A move of the actor: where it goes and what is to be done, in order.
pub struct Step<C, A> {
    pub next: ActorView<C, A>,
    pub actions: Seq<ActionView<C, A>>,
}

/// Telling the user the state of the call.
pub open spec fn tell<C, A>(state: StateView) -> ActionView<C, A> {
    ActionView::Emit(EventView::CallState(state))
}

/// Telling the user the devices and the selection.
pub open spec fn tell_devices<C, A>(
    devices: DeviceListView,
    selection: SelectionView,
) -> ActionView<C, A> {
    ActionView::Emit(EventView::DeviceList { devices, selection })
}

/// The action, if the condition holds.
pub open spec fn only_if<C, A>(condition: bool, action: ActionView<C, A>) -> Seq<ActionView<C, A>> {
    if condition {
        seq![action]
    } else {
        seq![]
    }
}

/// Nothing to do.
pub open spec fn quiet_step<C, A>(m: ActorView<C, A>) -> Step<C, A> {
    Step { next: m, actions: seq![] }
}

/// A failure: the user is told the error, and the state shows it.
pub open spec fn error_step<C, A>(m: ActorView<C, A>, text: Seq<char>) -> Step<C, A> {
    Step {
        next: ActorView { state: StateView::Error, ..m },
        actions: seq![ActionView::Emit(EventView::Error(text)), tell(StateView::Error)],
    }
}

/// What starting to accept connections takes, unless they are accepted already.
pub open spec fn listen_actions<C, A>(wanted: bool, listening: bool) -> Seq<ActionView<C, A>> {
    if wanted && !listening {
        seq![ActionView::SpawnListener, tell(StateView::Listening)]
    } else {
        seq![]
    }
}

/// The beginning of a call: no more connections are accepted, and the call is to be opened.
pub open spec fn open_step<C, A>(m: ActorView<C, A>, connection: C) -> Step<C, A> {
    Step {
        next: ActorView { listening: false, opening: true, ..m },
        actions: only_if(m.listening, ActionView::AbortListener).push(
            ActionView::OpenCall { connection, selection: m.selection },
        ),
    }
}

/// The end of a call: the open call is closed, and connections are accepted again if the user
/// wants that.
pub open spec fn end_step<C, A>(m: ActorView<C, A>) -> Step<C, A> {
    let state = if m.requested {
        StateView::Listening
    } else {
        StateView::Idle
    };
    let closing = match m.active {
        Some(call) => seq![ActionView::CloseCall(call)],
        None => seq![],
    };
    Step {
        next: ActorView { active: None, listening: m.listening || m.requested, state, ..m },
        actions: (closing + listen_actions(m.requested, m.listening)).push(tell(state)),
    }
}

/// The address that a ticket leads to, or the error of reading it.
pub open spec fn ticket_address(ticket: Seq<char>) -> Result<NodeAddr, ErrorView> {
    match ticket_outcome(ticket) {
        Ok(addr) => Ok(addr),
        Err(text) => Err(ErrorView::Ticket(text)),
    }
}

/// An address that has been read, or the error of reading it.
pub open spec fn read_address(address: Result<NodeAddr, VoiceError>) -> Result<
    NodeAddr,
    ErrorView,
> {
    match address {
        Ok(addr) => Ok(addr),
        Err(error) => Err(error@),
    }
}

/// What a request to dial does once the ticket has been read. One call at a time: it is refused
/// while a call is open or being dialed.
pub open spec fn dial_step<C, A>(
    m: ActorView<C, A>,
    outcome: Result<NodeAddr, ErrorView>,
) -> Step<C, A> {
    if m.active is Some || m.state is Dialing {
        error_step(m, error_text(ErrorView::InvalidState("Already in a call"@)))
    } else {
        match outcome {
            Ok(addr) => Step {
                next: ActorView { state: StateView::Dialing, ..m },
                actions: seq![tell(StateView::Dialing), ActionView::Connect(addr)],
            },
            Err(error) => error_step(m, error_text(error)),
        }
    }
}

/// What each command does.
pub open spec fn command_step<C, A>(m: ActorView<C, A>, command: CommandView) -> Step<C, A> {
    match command {
        CommandView::StartListening => {
            let starts = m.active is None && !m.listening;
            Step {
                next: ActorView {
                    requested: true,
                    listening: m.listening || starts,
                    state: if starts {
                        StateView::Listening
                    } else {
                        m.state
                    },
                    ..m
                },
                actions: listen_actions(m.active is None, m.listening),
            }
        },
        CommandView::StopListening => Step {
            next: ActorView {
                requested: false,
                listening: false,
                state: if m.active is None {
                    StateView::Idle
                } else {
                    m.state
                },
                ..m
            },
            actions: only_if(m.listening, ActionView::AbortListener) + only_if(
                m.active is None,
                tell(StateView::Idle),
            ),
        },
        CommandView::Dial { ticket } => dial_step(m, ticket_address(ticket)),
        CommandView::RefreshDevices => Step { next: m, actions: seq![ActionView::ListDevices] },
        CommandView::SetInputDevice(name) => {
            let selection = SelectionView { input: Some(name), ..m.selection };
            Step {
                next: ActorView { selection, ..m },
                actions: seq![tell_devices(m.devices, selection)],
            }
        },
        CommandView::SetOutputDevice(name) => {
            let selection = SelectionView { output: Some(name), ..m.selection };
            Step {
                next: ActorView { selection, ..m },
                actions: seq![tell_devices(m.devices, selection)],
            }
        },
        CommandView::Accept => match m.pending {
            Some(connection) => open_step(ActorView { pending: None, ..m }, connection),
            None => error_step(
                m,
                error_text(ErrorView::InvalidState("No incoming call to accept"@)),
            ),
        },
        CommandView::Reject => match m.pending {
            Some(connection) => Step {
                next: ActorView {
                    pending: None,
                    listening: m.listening || m.requested,
                    state: StateView::Idle,
                    ..m
                },
                actions: (seq![ActionView::DropConnection(connection)] + listen_actions(
                    m.requested,
                    m.listening,
                )).push(tell(StateView::Idle)),
            },
            None => quiet_step(m),
        },
        CommandView::HangUp => end_step(m),
        CommandView::SetMute(enabled) => Step {
            next: m,
            actions: only_if(m.active is Some, ActionView::StoreMute(enabled)),
        },
    }
}

/// What a connection of a caller does: it waits for an answer, unless a call is open or another
/// caller waits; then it is let go. The caller is named by its node, or as unknown.
pub open spec fn incoming_step<C, A>(
    m: ActorView<C, A>,
    connection: C,
    remote: Option<Seq<char>>,
) -> Step<C, A> {
    if m.active is Some || m.pending is Some {
        Step { next: m, actions: seq![ActionView::DropConnection(connection)] }
    } else {
        let from = match remote {
            Some(id) => id,
            None => "Unknown"@,
        };
        let state = StateView::IncomingCall { from };
        Step {
            next: ActorView { pending: Some(connection), state, ..m },
            actions: seq![tell(state)],
        }
    }
}

/// What the result of dialing does: a connection becomes a call, a failure is told and leaves
/// the call idle.
pub open spec fn dialed_step<C, A>(m: ActorView<C, A>, result: Result<C, VoiceError>) -> Step<
    C,
    A,
> {
    match result {
        Ok(connection) => open_step(m, connection),
        Err(error) => {
            let failed = error_step(m, error_text(error@));
            Step {
                next: ActorView { state: StateView::Idle, ..failed.next },
                actions: failed.actions.push(tell(StateView::Idle)),
            }
        },
    }
}

/// What each report of the network does.
pub open spec fn internal_step<C, A>(m: ActorView<C, A>, event: InternalEvent<C>) -> Step<C, A> {
    match event {
        InternalEvent::Incoming { connection, remote } => incoming_step(
            m,
            connection,
            opt_text(remote),
        ),
        InternalEvent::DialResult(result) => dialed_step(m, result),
        InternalEvent::CallEnded(_) => end_step(m),
    }
}

/// What the answer to opening a call does: an open call is in use, with the devices it was
/// opened with, and takes the place of any other; a failure is told.
pub open spec fn opened_step<C, A>(
    m: ActorView<C, A>,
    result: Result<(A, AudioDeviceInfo), VoiceError>,
) -> Step<C, A> {
    match result {
        Ok(opened) => {
            let info = opened.1@;
            let selection = SelectionView {
                input: Some(info.input_name),
                output: Some(info.output_name),
            };
            let replaced = match m.active {
                Some(call) => seq![ActionView::DropCall(call)],
                None => seq![],
            };
            Step {
                next: ActorView {
                    active: Some(opened.0),
                    opening: false,
                    selection,
                    state: StateView::InCall,
                    ..m
                },
                actions: replaced + seq![
                    tell_devices(m.devices, selection),
                    ActionView::Emit(EventView::AudioDevices(info)),
                    tell(StateView::InCall),
                ],
            }
        },
        Err(error) => error_step(ActorView { opening: false, ..m }, error_text(error@)),
    }
}

/// The device to use after the list has changed: the one in use if it is still present, else the
/// default one.
pub open spec fn kept_or_default(
    current: Option<Seq<char>>,
    present: Seq<Seq<char>>,
    default: Option<Seq<char>>,
) -> Option<Seq<char>> {
    match current {
        Some(name) => if present.contains(name) {
            current
        } else {
            default
        },
        None => default,
    }
}

/// What a list of devices does.
pub open spec fn devices_step<C, A>(
    m: ActorView<C, A>,
    listed: Result<AudioDeviceList, VoiceError>,
    defaults: SelectionView,
) -> Step<C, A> {
    match listed {
        Ok(list) => {
            let devices = list@;
            let selection = SelectionView {
                input: kept_or_default(m.selection.input, devices.inputs, defaults.input),
                output: kept_or_default(m.selection.output, devices.outputs, defaults.output),
            };
            Step {
                next: ActorView { devices, selection, ..m },
                actions: seq![tell_devices(devices, selection)],
            }
        },
        Err(error) => error_step(m, error_text(error@)),
    }
}

/// The actor that owns the call.
pub struct CallActor<C, A> {
    state: CallState,
    listening: bool,
    listening_requested: bool,
    pending_incoming: Option<C>,
    active_call: Option<A>,
    opening: bool,
    device_list: AudioDeviceList,
    audio_selection: AudioDeviceSelection,
}

impl<C, A> View for CallActor<C, A> {
    type V = ActorView<C, A>;

    closed spec fn view(&self) -> ActorView<C, A> {
        ActorView {
            state: self.state@,
            listening: self.listening,
            requested: self.listening_requested,
            pending: self.pending_incoming,
            active: self.active_call,
            opening: self.opening,
            devices: self.device_list@,
            selection: self.audio_selection@,
        }
    }
}

/// Adds an action to a list.
fn put<C, A>(out: &mut Vec<Action<C, A>>, action: Action<C, A>)
    ensures
        views(final(out)@) == views(old(out)@).push(action@),
{
    out.push(action);
    assert(views(out@) =~= views(old(out)@).push(action@));
}

impl<C, A> CallActor<C, A> {
    /// An actor with no call, which listens to nobody and uses the default devices.
    pub fn new(defaults: AudioDeviceSelection) -> (r: Self)
        ensures
            r@ == initial::<C, A>(defaults@),
    {
        CallActor {
            state: CallState::Idle,
            listening: false,
            listening_requested: false,
            pending_incoming: None,
            active_call: None,
            opening: false,
            device_list: AudioDeviceList::default(),
            audio_selection: defaults,
        }
    }

    /// Moves to a state and tells the user.
    fn set_state(&mut self, out: &mut Vec<Action<C, A>>, state: CallState)
        ensures
            final(self)@ == (ActorView { state: state@, ..old(self)@ }),
            views(final(out)@) == views(old(out)@).push(tell(state@)),
    {
        self.state = state.clone();
        put(out, Action::Emit(CallEvent::CallState(state)));
    }

    /// Tells the user an error and shows it in the state.
    fn emit_error(&mut self, out: &mut Vec<Action<C, A>>, error: &VoiceError)
        ensures
            final(self)@ == error_step(old(self)@, error_text(error@)).next,
            views(final(out)@) == views(old(out)@) + error_step(
                old(self)@,
                error_text(error@),
            ).actions,
    {
        put(out, Action::Emit(CallEvent::Error(error.message())));
        self.set_state(out, CallState::Error);
        assert(views(out@) =~= views(old(out)@) + error_step(
            old(self)@,
            error_text(error@),
        ).actions);
    }

    /// Tells the user the devices and the selection.
    fn emit_device_list(&self, out: &mut Vec<Action<C, A>>)
        ensures
            views(final(out)@) == views(old(out)@).push(
                tell_devices(self@.devices, self@.selection),
            ),
    {
        put(
            out,
            Action::Emit(
                CallEvent::DeviceList {
                    inputs: copy_list(&self.device_list.inputs),
                    outputs: copy_list(&self.device_list.outputs),
                    selected_input: copy_opt(&self.audio_selection.input),
                    selected_output: copy_opt(&self.audio_selection.output),
                },
            ),
        );
    }

    /// Starts accepting connections, unless they are accepted already.
    fn start_listening(&mut self, out: &mut Vec<Action<C, A>>)
        ensures
            final(self)@ == (ActorView {
                listening: true,
                state: if old(self)@.listening {
                    old(self)@.state
                } else {
                    StateView::Listening
                },
                ..old(self)@
            }),
            views(final(out)@) == views(old(out)@) + listen_actions(true, old(self)@.listening),
    {
        if self.listening {
            assert(views(out@) =~= views(old(out)@) + listen_actions(true, old(self)@.listening));
            return;
        }
        put(out, Action::SpawnListener);
        self.listening = true;
        self.set_state(out, CallState::Listening);
        assert(views(out@) =~= views(old(out)@) + listen_actions(true, old(self)@.listening));
    }

    /// Stops accepting connections.
    fn stop_listening(&mut self, out: &mut Vec<Action<C, A>>)
        ensures
            final(self)@ == (ActorView { listening: false, ..old(self)@ }),
            views(final(out)@) == views(old(out)@) + only_if(
                old(self)@.listening,
                ActionView::AbortListener,
            ),
    {
        if self.listening {
            put(out, Action::AbortListener);
        }
        self.listening = false;
        assert(views(out@) =~= views(old(out)@) + only_if(
            old(self)@.listening,
            ActionView::AbortListener,
        ));
    }

    /// Begins a call over a connection.
    fn start_call(&mut self, out: &mut Vec<Action<C, A>>, connection: C)
        ensures
            final(self)@ == open_step(old(self)@, connection).next,
            views(final(out)@) == views(old(out)@) + open_step(old(self)@, connection).actions,
    {
        self.stop_listening(out);
        self.opening = true;
        put(
            out,
            Action::OpenCall { connection, selection: self.audio_selection.clone() },
        );
        assert(views(out@) =~= views(old(out)@) + open_step(old(self)@, connection).actions);
    }

    /// Ends the call, if there is one.
    pub fn end_call(&mut self) -> (r: Vec<Action<C, A>>)
        ensures
            final(self)@ == end_step(old(self)@).next,
            views(r@) == end_step(old(self)@).actions,
    {
        let mut out: Vec<Action<C, A>> = Vec::new();
        if let Some(call) = self.active_call.take() {
            put(&mut out, Action::CloseCall(call));
        }
        if self.listening_requested {
            self.start_listening(&mut out);
            self.set_state(&mut out, CallState::Listening);
        } else {
            self.set_state(&mut out, CallState::Idle);
        }
        assert(views(out@) =~= end_step(old(self)@).actions);
        out
    }

    /// The first move: the user is told the state, and the devices are to be listed.
    pub fn start(&self) -> (r: Vec<Action<C, A>>)
        ensures
            views(r@) == seq![tell::<C, A>(self@.state), ActionView::ListDevices],
    {
        let mut out: Vec<Action<C, A>> = Vec::new();
        put(&mut out, Action::Emit(CallEvent::CallState(self.state.clone())));
        put(&mut out, Action::ListDevices);
        assert(views(out@) =~= seq![tell::<C, A>(self@.state), ActionView::ListDevices]);
        out
    }

    /// Dials a node whose address has been read from a ticket, or tells why it cannot be read.
    pub fn dial(&mut self, address: Result<NodeAddr, VoiceError>) -> (r: Vec<Action<C, A>>)
        ensures
            final(self)@ == dial_step(old(self)@, read_address(address)).next,
            views(r@) == dial_step(old(self)@, read_address(address)).actions,
    {
        let ghost step = dial_step(old(self)@, read_address(address));
        let mut out: Vec<Action<C, A>> = Vec::new();
        let busy: bool = match self.active_call {
            Some(_) => true,
            None => match self.state {
                CallState::Dialing => true,
                _ => false,
            },
        };
        if busy {
            let error: VoiceError = VoiceError::InvalidState("Already in a call".to_owned());
            self.emit_error(&mut out, &error);
        } else {
            match address {
                Ok(addr) => {
                    self.set_state(&mut out, CallState::Dialing);
                    put(&mut out, Action::Connect(addr));
                },
                Err(error) => {
                    self.emit_error(&mut out, &error);
                },
            }
        }
        assert(views(out@) =~= step.actions);
        out
    }

    /// Carries out a command of the user.
    pub fn handle_command(&mut self, command: CallCommand) -> (r: Vec<Action<C, A>>)
        ensures
            final(self)@ == command_step(old(self)@, command@).next,
            views(r@) == command_step(old(self)@, command@).actions,
    {
        let mut out: Vec<Action<C, A>> = Vec::new();
        let ghost step = command_step(old(self)@, command@);
        match command {
            CallCommand::StartListening => {
                self.listening_requested = true;
                if self.active_call.is_none() {
                    self.start_listening(&mut out);
                }
            },
            CallCommand::StopListening => {
                self.listening_requested = false;
                self.stop_listening(&mut out);
                if self.active_call.is_none() {
                    self.set_state(&mut out, CallState::Idle);
                }
            },
            CallCommand::Dial { ticket } => {
                let address: Result<NodeAddr, VoiceError> = parse_ticket(ticket.as_str());
                out = self.dial(address);
            },
            CallCommand::RefreshDevices => {
                put(&mut out, Action::ListDevices);
            },
            CallCommand::SetInputDevice(name) => {
                self.audio_selection.input = Some(name);
                self.emit_device_list(&mut out);
            },
            CallCommand::SetOutputDevice(name) => {
                self.audio_selection.output = Some(name);
                self.emit_device_list(&mut out);
            },
            CallCommand::Accept => {
                match self.pending_incoming.take() {
                    Some(connection) => {
                        self.start_call(&mut out, connection);
                    },
                    None => {
                        let error: VoiceError = VoiceError::InvalidState(
                            "No incoming call to accept".to_owned(),
                        );
                        self.emit_error(&mut out, &error);
                    },
                }
            },
            CallCommand::Reject => {
                if let Some(connection) = self.pending_incoming.take() {
                    put(&mut out, Action::DropConnection(connection));
                    if self.listening_requested {
                        self.start_listening(&mut out);
                    }
                    self.set_state(&mut out, CallState::Idle);
                }
            },
            CallCommand::HangUp => {
                out = self.end_call();
            },
            CallCommand::SetMute(enabled) => {
                if self.active_call.is_some() {
                    put(&mut out, Action::StoreMute(enabled));
                }
            },
        }
        assert(views(out@) =~= step.actions);
        out
    }

    /// Takes in a report of the network.
    pub fn handle_internal(&mut self, event: InternalEvent<C>) -> (r: Vec<Action<C, A>>)
        ensures
            final(self)@ == internal_step(old(self)@, event).next,
            views(r@) == internal_step(old(self)@, event).actions,
    {
        let mut out: Vec<Action<C, A>> = Vec::new();
        let ghost step = internal_step(old(self)@, event);
        match event {
            InternalEvent::Incoming { connection, remote } => {
                if self.active_call.is_some() || self.pending_incoming.is_some() {
                    put(&mut out, Action::DropConnection(connection));
                } else {
                    let from: String = match remote {
                        Some(id) => id,
                        None => "Unknown".to_owned(),
                    };
                    self.pending_incoming = Some(connection);
                    self.set_state(&mut out, CallState::IncomingCall { from });
                }
            },
            InternalEvent::DialResult(result) => {
                match result {
                    Ok(connection) => {
                        self.start_call(&mut out, connection);
                    },
                    Err(error) => {
                        self.emit_error(&mut out, &error);
                        self.set_state(&mut out, CallState::Idle);
                    },
                }
            },
            InternalEvent::CallEnded(_) => {
                out = self.end_call();
            },
        }
        assert(views(out@) =~= step.actions);
        out
    }

    /// Takes in the answer to [`Action::OpenCall`].
    pub fn call_opened(&mut self, result: Result<(A, AudioDeviceInfo), VoiceError>) -> (r: Vec<
        Action<C, A>,
    >)
        ensures
            final(self)@ == opened_step(old(self)@, result).next,
            views(r@) == opened_step(old(self)@, result).actions,
    {
        let mut out: Vec<Action<C, A>> = Vec::new();
        let ghost step = opened_step(old(self)@, result);
        self.opening = false;
        match result {
            Ok((call, info)) => {
                if let Some(replaced) = self.active_call.take() {
                    put(&mut out, Action::DropCall(replaced));
                }
                self.active_call = Some(call);
                self.audio_selection = AudioDeviceSelection {
                    input: Some(info.input_name.clone()),
                    output: Some(info.output_name.clone()),
                };
                self.emit_device_list(&mut out);
                put(&mut out, Action::Emit(CallEvent::AudioDevices(info)));
                self.set_state(&mut out, CallState::InCall);
            },
            Err(error) => {
                self.emit_error(&mut out, &error);
            },
        }
        assert(views(out@) =~= step.actions);
        out
    }

    /// Takes in the answer to [`Action::ListDevices`], with the devices that are the default now.
    pub fn devices_listed(
        &mut self,
        listed: Result<AudioDeviceList, VoiceError>,
        defaults: AudioDeviceSelection,
    ) -> (r: Vec<Action<C, A>>)
        ensures
            final(self)@ == devices_step(old(self)@, listed, defaults@).next,
            views(r@) == devices_step(old(self)@, listed, defaults@).actions,
    {
        let mut out: Vec<Action<C, A>> = Vec::new();
        let ghost step = devices_step(old(self)@, listed, defaults@);
        match listed {
            Ok(devices) => {
                let input_valid: bool = match &self.audio_selection.input {
                    Some(name) => contains_text(&devices.inputs, name),
                    None => false,
                };
                let output_valid: bool = match &self.audio_selection.output {
                    Some(name) => contains_text(&devices.outputs, name),
                    None => false,
                };
                if !input_valid {
                    self.audio_selection.input = defaults.input;
                }
                if !output_valid {
                    self.audio_selection.output = defaults.output;
                }
                self.device_list = devices;
                self.emit_device_list(&mut out);
            },
            Err(error) => {
                self.emit_error(&mut out, &error);
            },
        }
        assert(views(out@) =~= step.actions);
        out
    }

    /// Whether the answer to [`Action::OpenCall`] is outstanding.
    pub fn is_opening(&self) -> (r: bool)
        ensures
            r == self@.opening,
    {
        self.opening
    }

    /// The state of the call.
    pub fn state(&self) -> (r: CallState)
        ensures
            r@ == self@.state,
    {
        self.state.clone()
    }
}

}
