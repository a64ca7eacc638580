//! What holds of the window over every event and every message.
use vstd::prelude::*;
use vstd::utf8::encode_utf8;

use crate::call::{ActionView, ActorView, CommandView, EventView, StateView};
use crate::call_effects::{failure, failures_are_told};
use crate::call_laws::{step, Occurrence};
use crate::error::{error_text, VoiceError};
use crate::gui::{
    event_applied, message_applied, message_effect, opened, opt_effect, shows, state_label, told,
    AppView, Effect, EffectView, Message, Screen, StartedCore,
};
use crate::qr::{picture, picture_size, png_encoding, qr_symbol, ticket_picture};
use crate::text::{blank, decimal, trims_to};

verus! {

/// What an event of the core changes in the window: a state changes the state that is shown, and
/// switches the microphone on outside a call; an error changes the error; devices change their
/// text; and each changes nothing else.
pub proof fn events_change_what_they_tell(m: AppView, event: EventView)
    ensures
        ({
            let next = event_applied(m, event);
            &&& next.has_core == m.has_core
            &&& next.node_id == m.node_id
            &&& next.local_ticket == m.local_ticket
            &&& next.remote_ticket == m.remote_ticket
            &&& next.qr == m.qr
            &&& match event {
                EventView::CallState(state) => {
                    &&& next.call_state == state
                    &&& state is InCall ==> next.muted == m.muted
                    &&& !(state is InCall) ==> !next.muted
                },
                _ => next.call_state == m.call_state && next.muted == m.muted,
            }
            &&& match event {
                EventView::Error(text) => next.last_error == Some(text),
                _ => next.last_error == m.last_error,
            }
            &&& match event {
                EventView::AudioDevices(info) => next.audio_info == Some(
                    "Input: "@ + info.input_name + " | Output: "@ + info.output_name + " | "@
                        + decimal(info.sample_rate as nat) + " Hz"@,
                ),
                _ => next.audio_info == m.audio_info,
            }
        }),
{
}

/// No error is told after the first so many actions.
pub open spec fn no_error_from<C, A>(actions: Seq<ActionView<C, A>>, from: int) -> bool {
    forall|j: int|
        from <= j < actions.len() ==> !((#[trigger] actions[j]) matches ActionView::Emit(
            EventView::Error(_),
        ))
}

/// No devices in use are told after the first so many actions.
pub open spec fn no_devices_from<C, A>(actions: Seq<ActionView<C, A>>, from: int) -> bool {
    forall|j: int|
        from <= j < actions.len() ==> !((#[trigger] actions[j]) matches ActionView::Emit(
            EventView::AudioDevices(_),
        ))
}

/// The window shows the last error it was told: whatever else is told after it, the error stays on
/// the screen; and where none is told, the one before stays.
pub proof fn window_shows_the_last_error<C, A>(m: AppView, actions: Seq<ActionView<C, A>>, i: int)
    ensures
        no_error_from(actions, 0) ==> told(m, actions).last_error == m.last_error,
        0 <= i < actions.len() && no_error_from(actions, i + 1) ==> (actions[i]
            matches ActionView::Emit(EventView::Error(text)) ==> told(m, actions).last_error
            == Some(text)),
    decreases actions.len(),
{
    if actions.len() > 0 {
        let before = actions.drop_last();
        window_shows_the_last_error(m, before, i);
        assert(forall|j: int| 0 <= j < before.len() ==> #[trigger] before[j] == actions[j]);
        assert(actions[actions.len() - 1] == actions.last());
        assert(no_error_from(actions, 0) ==> no_error_from(before, 0));
        assert(0 <= i < before.len() && no_error_from(actions, i + 1) ==> no_error_from(
            before,
            i + 1,
        ));
    }
}

/// After a move of the core that fails, the window shows that failure; after any other, it shows
/// the error that it showed before.
pub proof fn window_shows_the_failure<C, A>(
    m: AppView,
    core: ActorView<C, A>,
    o: Occurrence<C, A>,
)
    ensures
        failure(core, o) matches Some(text) ==> told(m, step(core, o).actions).last_error == Some(
            text,
        ),
        failure(core, o) is None ==> told(m, step(core, o).actions).last_error == m.last_error,
{
    let actions = step(core, o).actions;
    assert forall|j: int| 0 <= j < actions.len() && ((#[trigger] actions[j])
        matches ActionView::Emit(EventView::Error(_))) implies j == 0 && failure(core, o)
        is Some by {
        failures_are_told(core, o, j);
    }
    window_shows_the_last_error(m, actions, 0);
    if failure(core, o) is Some {
        crate::call_effects::nothing_is_passed_over(core, o);
        failures_are_told(core, o, 0);
    }
}

/// The window shows the devices it was told last, and keeps showing them.
pub proof fn window_shows_the_last_devices<C, A>(m: AppView, actions: Seq<ActionView<C, A>>, i: int)
    ensures
        no_devices_from(actions, 0) ==> told(m, actions).audio_info == m.audio_info,
        0 <= i < actions.len() && no_devices_from(actions, i + 1) ==> (actions[i]
            matches ActionView::Emit(EventView::AudioDevices(info)) ==> told(m, actions).audio_info
            == Some(
            "Input: "@ + info.input_name + " | Output: "@ + info.output_name + " | "@ + decimal(
                info.sample_rate as nat,
            ) + " Hz"@,
        )),
    decreases actions.len(),
{
    if actions.len() > 0 {
        let before = actions.drop_last();
        window_shows_the_last_devices(m, before, i);
        assert(forall|j: int| 0 <= j < before.len() ==> #[trigger] before[j] == actions[j]);
        assert(actions[actions.len() - 1] == actions.last());
        assert(no_devices_from(actions, 0) ==> no_devices_from(before, 0));
        assert(0 <= i < before.len() && no_devices_from(actions, i + 1) ==> no_devices_from(
            before,
            i + 1,
        ));
    }
}

/// Whatever the core tells, the identity, both tickets and the picture stay as they are.
pub proof fn core_leaves_the_tickets_alone<C, A>(m: AppView, actions: Seq<ActionView<C, A>>)
    ensures
        told(m, actions).has_core == m.has_core,
        told(m, actions).node_id == m.node_id,
        told(m, actions).local_ticket == m.local_ticket,
        told(m, actions).remote_ticket == m.remote_ticket,
        told(m, actions).qr == m.qr,
    decreases actions.len(),
{
    if actions.len() > 0 {
        core_leaves_the_tickets_alone(m, actions.drop_last());
    }
}

/// What each message changes in the window: typing changes the remote ticket, the mute button turns
/// the microphone over, an event of the core is followed, and all else changes nothing.
pub proof fn messages_change_what_they_are_about(m: AppView, message: Message)
    ensures
        ({
            let next = message_applied(m, message);
            &&& next.has_core == m.has_core
            &&& next.node_id == m.node_id
            &&& next.local_ticket == m.local_ticket
            &&& next.qr == m.qr
            &&& match message {
                Message::RemoteTicketChanged(value) => next.remote_ticket == value@,
                _ => next.remote_ticket == m.remote_ticket,
            }
            &&& match message {
                Message::ToggleMute => next.muted == !m.muted,
                Message::CoreEvent(event) => next == event_applied(m, event@),
                _ => next.muted == m.muted,
            }
            &&& !(message is CoreEvent) ==> next.call_state == m.call_state && next.last_error
                == m.last_error && next.audio_info == m.audio_info
        }),
{
}

/// What each message asks for. Copying puts the local ticket on the clipboard. Every other request
/// is a command to the core, and none is made without a core.
pub proof fn messages_ask_for_what_they_say(m: AppView, message: Message)
    ensures
        ({
            let effect = message_effect(m, message);
            let asks = |command: CommandView|
                effect == if m.has_core {
                    Some(EffectView::Send(command))
                } else {
                    None
                };
            match message {
                Message::CopyTicket => effect == Some(EffectView::WriteClipboard(m.local_ticket)),
                Message::RemoteTicketChanged(_) => effect is None,
                Message::CoreEvent(_) => effect is None,
                Message::ToggleListening => {
                    &&& m.call_state is Listening ==> asks(CommandView::StopListening)
                    &&& !(m.call_state is Listening) ==> asks(CommandView::StartListening)
                },
                Message::Call => blank(m.remote_ticket) ==> effect is None,
                Message::Accept => asks(CommandView::Accept),
                Message::Reject => asks(CommandView::Reject),
                Message::HangUp => asks(CommandView::HangUp),
                Message::ToggleMute => asks(CommandView::SetMute(!m.muted)),
            }
        }),
{
}

/// Calling dials the ticket that was typed, without the white space around it.
pub proof fn call_dials_what_was_typed(m: AppView, ticket: Seq<char>)
    requires
        m.has_core,
        trims_to(m.remote_ticket, ticket),
        !blank(m.remote_ticket),
    ensures
        message_effect(m, Message::Call) == Some(EffectView::Send(CommandView::Dial { ticket })),
{
    crate::text::trim_is_unique(
        m.remote_ticket,
        ticket,
        crate::text::trimmed(m.remote_ticket),
    );
}

/// The listening button does what it says: with the command that it leads to, the core wants to
/// listen exactly where the window did not show that it listens.
pub proof fn listening_button_turns_the_wish<C, A>(m: AppView, core: ActorView<C, A>)
    requires
        m.has_core,
        m.call_state == core.state,
    ensures
        message_effect(m, Message::ToggleListening) matches Some(EffectView::Send(command)) && step(
            core,
            Occurrence::Command(command),
        ).next.requested == !(core.state is Listening),
{
}

/// The window opens on a started core with its identity and its ticket, and on one that could not
/// be started with nothing but the reason; idle, with the microphone on, and with the picture of
/// its ticket.
pub proof fn window_opens_on_its_core(core: Result<StartedCore, VoiceError>)
    ensures
        ({
            let m = opened(core);
            &&& m.call_state is Idle && !m.muted && m.audio_info is None
            &&& m.remote_ticket == ""@
            &&& m.qr == ticket_picture(m.local_ticket)
            &&& match core {
                Ok(started) => {
                    &&& m.has_core
                    &&& m.node_id == started.node_id@
                    &&& m.local_ticket == started.ticket@
                    &&& m.last_error is None
                },
                Err(error) => {
                    &&& !m.has_core
                    &&& m.node_id == ""@
                    &&& m.local_ticket == ""@
                    &&& m.last_error == Some(error_text(error@))
                },
            }
        }),
{
}

/// The picture of a ticket is that of the QR code of the whole text of the ticket.
pub proof fn picture_is_of_the_whole_ticket(ticket: Seq<char>)
    requires
        !blank(ticket),
    ensures
        qr_symbol(encode_utf8(ticket)) is None ==> ticket_picture(ticket) is None,
        qr_symbol(encode_utf8(ticket)) matches Some(symbol) ==> ticket_picture(ticket)
            == png_encoding(
            picture_size(symbol.side),
            picture_size(symbol.side),
            picture(symbol.side, symbol.dark),
        ),
{
}

/// What the screen shows: the texts hold what the window holds, whole, and each button can be
/// pressed in the states that it is for.
pub proof fn screen_shows_the_window(screen: Screen, m: AppView)
    requires
        shows(screen, m),
    ensures
        m.node_id.len() > 0 ==> screen.node_line@ == "Node ID: "@ + m.node_id,
        m.node_id.len() == 0 ==> screen.node_line@ == "Node ID: "@ + "Unavailable"@,
        screen.local_ticket@ == m.local_ticket,
        screen.remote_ticket@ == m.remote_ticket,
        m.call_state is Listening ==> screen.listening_label@ == "Stop listening"@,
        !(m.call_state is Listening) ==> screen.listening_label@ == "Start listening"@,
        screen.call_enabled <==> !blank(m.remote_ticket),
        screen.accept_enabled <==> m.call_state is IncomingCall,
        screen.reject_enabled <==> m.call_state is IncomingCall,
        screen.hang_up_enabled <==> m.call_state is InCall || m.call_state is Dialing,
        screen.mute_enabled <==> m.call_state is InCall,
        m.muted ==> screen.mute_label@ == "Unmute"@,
        !m.muted ==> screen.mute_label@ == "Mute"@,
        screen.state_line@ == "State: "@ + state_label(m.call_state),
        m.audio_info matches Some(text) ==> screen.audio_line@ == text,
        m.audio_info is None ==> screen.audio_line@ == "Audio: default devices"@,
        m.last_error matches Some(text) ==> screen.error_line@ == "Last error: "@ + text,
        m.last_error is None ==> screen.error_line@ == "Last error: "@ + "none"@,
        m.qr is Some ==> screen.qr_caption@ == "Ticket QR"@,
        m.qr is None ==> screen.qr_caption@ == "Ticket QR unavailable"@,
{
}

/// The label of a state names it, and names the caller whole.
pub proof fn label_names_the_state(from: Seq<char>)
    ensures
        state_label(StateView::Idle) == "Idle"@,
        state_label(StateView::Listening) == "Listening for calls"@,
        state_label(StateView::IncomingCall { from }) == "Incoming call from "@ + from,
        state_label(StateView::Dialing) == "Dialing"@,
        state_label(StateView::InCall) == "In call"@,
        state_label(StateView::Error) == "Error"@,
{
}

/// The value of an effect tells what it is and what it holds.
pub proof fn values_tell_effects_apart(effect: Option<Effect>)
    ensures
        match effect {
            None => opt_effect(effect) is None,
            Some(Effect::WriteClipboard(text)) => opt_effect(effect) == Some(
                EffectView::WriteClipboard(text@),
            ),
            Some(Effect::Send(command)) => opt_effect(effect) == Some(EffectView::Send(command@)),
        },
{
}

}
