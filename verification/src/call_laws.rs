//! What holds of the call actor over every event and every run.
use vstd::prelude::*;

use crate::audio::{AudioDeviceInfo, AudioDeviceList, SelectionView};
use crate::call::{
    command_step, devices_step, dial_step, end_step, incoming_step, initial, internal_step,
    opened_step, tell, ActionView, ActorView, CommandView, EventView, InternalEvent, StateView,
    Step,
};
use crate::error::{ErrorView, VoiceError};
use iroh_base::NodeAddr;

verus! {

/// Anything that the actor is handed.
pub enum Occurrence<C, A> {
    Command(CommandView),
    Internal(InternalEvent<C>),
    Opened(Result<(A, AudioDeviceInfo), VoiceError>),
    Listed { listed: Result<AudioDeviceList, VoiceError>, defaults: SelectionView },
}

/// The move that an occurrence leads to.
pub open spec fn step<C, A>(m: ActorView<C, A>, o: Occurrence<C, A>) -> Step<C, A> {
    match o {
        Occurrence::Command(command) => command_step(m, command),
        Occurrence::Internal(event) => internal_step(m, event),
        Occurrence::Opened(result) => opened_step(m, result),
        Occurrence::Listed { listed, defaults } => devices_step(m, listed, defaults),
    }
}

/// The answer to opening a call comes when it is outstanding, and nothing else comes before it.
pub open spec fn in_turn<C, A>(m: ActorView<C, A>, o: Occurrence<C, A>) -> bool {
    m.opening == (o is Opened)
}

/// The state that the user sees agrees with what there is: a call that is shown is open, a caller
/// who is shown waits, listening that is shown takes place; and nobody is listened for against
/// the user's wish or while a call is being opened.
pub open spec fn consistent<C, A>(m: ActorView<C, A>) -> bool {
    &&& m.state is InCall ==> m.active is Some
    &&& m.state is Dialing ==> m.active is None
    &&& m.state is IncomingCall ==> m.pending is Some || m.opening
    &&& m.state is Listening ==> m.active is None && (m.listening || m.opening)
    &&& m.listening ==> m.requested && !m.opening
}

/// The actor after a run of occurrences.
pub open spec fn after<C, A>(m: ActorView<C, A>, run: Seq<Occurrence<C, A>>) -> ActorView<C, A>
    decreases run.len(),
{
    if run.len() == 0 {
        m
    } else {
        step(after(m, run.drop_last()), run.last()).next
    }
}

/// Every occurrence of the run comes in turn.
pub open spec fn run_in_turn<C, A>(m: ActorView<C, A>, run: Seq<Occurrence<C, A>>) -> bool
    decreases run.len(),
{
    run.len() > 0 ==> run_in_turn(m, run.drop_last()) && in_turn(
        after(m, run.drop_last()),
        run.last(),
    )
}

/// A consistent actor stays consistent, whatever it is handed in turn.
pub proof fn step_stays_consistent<C, A>(m: ActorView<C, A>, o: Occurrence<C, A>)
    requires
        consistent(m),
        in_turn(m, o),
    ensures
        consistent(step(m, o).next),
{
}

/// The actor is consistent at every point of every run from its start.
pub proof fn always_consistent<C, A>(defaults: SelectionView, run: Seq<Occurrence<C, A>>)
    requires
        run_in_turn(initial(defaults), run),
    ensures
        consistent(after(initial(defaults), run)),
    decreases run.len(),
{
    if run.len() > 0 {
        always_consistent(defaults, run.drop_last());
        step_stays_consistent(after(initial(defaults), run.drop_last()), run.last());
    }
}

/// The state that someone who saw `state` sees after being told all that the actions tell.
pub open spec fn shown<C, A>(state: StateView, actions: Seq<ActionView<C, A>>) -> StateView
    decreases actions.len(),
{
    if actions.len() == 0 {
        state
    } else {
        match actions.last() {
            ActionView::Emit(EventView::CallState(told)) => told,
            _ => shown(state, actions.drop_last()),
        }
    }
}

/// The state that an action tells, if it tells one.
spec fn tells<C, A>(action: ActionView<C, A>) -> Option<StateView> {
    match action {
        ActionView::Emit(EventView::CallState(state)) => Some(state),
        _ => None,
    }
}

/// In a short list of actions the last one that tells a state decides.
proof fn lemma_shown_short<C, A>(state: StateView, actions: Seq<ActionView<C, A>>)
    requires
        actions.len() <= 4,
    ensures
        ({
            let n = actions.len() as int;
            shown(state, actions) == if n >= 1 && tells(actions[n - 1]) is Some {
                tells(actions[n - 1])->0
            } else if n >= 2 && tells(actions[n - 2]) is Some {
                tells(actions[n - 2])->0
            } else if n >= 3 && tells(actions[n - 3]) is Some {
                tells(actions[n - 3])->0
            } else if n >= 4 && tells(actions[n - 4]) is Some {
                tells(actions[n - 4])->0
            } else {
                state
            }
        }),
{
    reveal_with_fuel(shown, 5);
}

/// The user always sees the state that the actor is in: whoever saw the state before a move sees
/// the state after it once told what the move tells.
pub proof fn user_sees_the_state<C, A>(m: ActorView<C, A>, o: Occurrence<C, A>)
    ensures
        shown(m.state, step(m, o).actions) == step(m, o).next.state,
{
    lemma_shown_short(m.state, step(m, o).actions);
}

/// Whether connections are accepted once the actions have been done, in order; no answer where a
/// second listener would be started or one stopped that does not run.
pub open spec fn listening_after<C, A>(
    listening: bool,
    actions: Seq<ActionView<C, A>>,
) -> Option<bool>
    decreases actions.len(),
{
    if actions.len() == 0 {
        Some(listening)
    } else {
        match (listening_after(listening, actions.drop_last()), actions.last()) {
            (Some(running), ActionView::SpawnListener) => if running {
                None
            } else {
                Some(true)
            },
            (Some(running), ActionView::AbortListener) => if running {
                Some(false)
            } else {
                None
            },
            (running, _) => running,
        }
    }
}

/// What one action makes of the listener.
spec fn listener_next<C, A>(running: Option<bool>, action: ActionView<C, A>) -> Option<bool> {
    match (running, action) {
        (Some(on), ActionView::SpawnListener) => if on {
            None
        } else {
            Some(true)
        },
        (Some(on), ActionView::AbortListener) => if on {
            Some(false)
        } else {
            None
        },
        _ => running,
    }
}

/// In a short list of actions they take effect one after the other.
proof fn lemma_listening_short<C, A>(listening: bool, actions: Seq<ActionView<C, A>>)
    requires
        actions.len() <= 4,
    ensures
        ({
            let n = actions.len() as int;
            let r0 = Some(listening);
            let r1 = if n >= 1 {
                listener_next(r0, actions[0])
            } else {
                r0
            };
            let r2 = if n >= 2 {
                listener_next(r1, actions[1])
            } else {
                r1
            };
            let r3 = if n >= 3 {
                listener_next(r2, actions[2])
            } else {
                r2
            };
            let r4 = if n >= 4 {
                listener_next(r3, actions[3])
            } else {
                r3
            };
            listening_after(listening, actions) == r4
        }),
{
    reveal_with_fuel(listening_after, 5);
}

/// There is never more than one listener, only a running one is stopped, and the actor knows
/// whether one runs.
pub proof fn one_listener_at_most<C, A>(m: ActorView<C, A>, o: Occurrence<C, A>)
    ensures
        listening_after(m.listening, step(m, o).actions) == Some(step(m, o).next.listening),
{
    lemma_listening_short(m.listening, step(m, o).actions);
}

/// How many there are: one or none.
pub open spec fn count<T>(held: Option<T>) -> int {
    if held is Some {
        1
    } else {
        0
    }
}

/// How many connections the actions hand over.
pub open spec fn connections_out<C, A>(actions: Seq<ActionView<C, A>>) -> int
    decreases actions.len(),
{
    if actions.len() == 0 {
        0
    } else {
        connections_out(actions.drop_last()) + if actions.last() is OpenCall
            || actions.last() is DropConnection {
            1int
        } else {
            0
        }
    }
}

/// How many connections an occurrence brings.
pub open spec fn connections_in<C, A>(o: Occurrence<C, A>) -> int {
    match o {
        Occurrence::Internal(InternalEvent::Incoming { .. }) => 1,
        Occurrence::Internal(InternalEvent::DialResult(Ok(_))) => 1,
        _ => 0,
    }
}

/// How many open calls the actions hand over.
pub open spec fn calls_out<C, A>(actions: Seq<ActionView<C, A>>) -> int
    decreases actions.len(),
{
    if actions.len() == 0 {
        0
    } else {
        calls_out(actions.drop_last()) + if actions.last() is CloseCall || actions.last()
            is DropCall {
            1int
        } else {
            0
        }
    }
}

/// How many open calls an occurrence brings.
pub open spec fn calls_in<C, A>(o: Occurrence<C, A>) -> int {
    match o {
        Occurrence::Opened(Ok(_)) => 1,
        _ => 0,
    }
}

/// Whether an action hands over a connection.
spec fn hands_connection<C, A>(actions: Seq<ActionView<C, A>>, i: int) -> int {
    if i < actions.len() && (actions[i] is OpenCall || actions[i] is DropConnection) {
        1
    } else {
        0
    }
}

/// In a short list of actions each counts.
proof fn lemma_connections_short<C, A>(actions: Seq<ActionView<C, A>>)
    requires
        actions.len() <= 4,
    ensures
        connections_out(actions) == hands_connection(actions, 0) + hands_connection(actions, 1)
            + hands_connection(actions, 2) + hands_connection(actions, 3),
{
    reveal_with_fuel(connections_out, 5);
}

/// A command loses no connection.
proof fn lemma_connection_command<C, A>(m: ActorView<C, A>, command: CommandView)
    ensures
        count(m.pending) == count(command_step(m, command).next.pending) + connections_out(
            command_step(m, command).actions,
        ),
{
    lemma_connections_short(command_step(m, command).actions);
}

/// A report of the network loses no connection.
proof fn lemma_connection_internal<C, A>(m: ActorView<C, A>, event: InternalEvent<C>)
    ensures
        count(m.pending) + connections_in(Occurrence::<C, A>::Internal(event)) == count(
            internal_step(m, event).next.pending,
        ) + connections_out(internal_step(m, event).actions),
{
    lemma_connections_short(internal_step(m, event).actions);
}

/// No connection is lost or used twice: what was held and what came in is what is held and what
/// goes out. There is one waiting caller at most.
pub proof fn no_connection_is_lost<C, A>(m: ActorView<C, A>, o: Occurrence<C, A>)
    ensures
        count(m.pending) + connections_in(o) == count(step(m, o).next.pending) + connections_out(
            step(m, o).actions,
        ),
{
    match o {
        Occurrence::Command(command) => lemma_connection_command(m, command),
        Occurrence::Internal(event) => lemma_connection_internal(m, event),
        _ => lemma_connections_short(step(m, o).actions),
    }
}

/// Whether an action hands over a call.
spec fn hands_call<C, A>(actions: Seq<ActionView<C, A>>, i: int) -> int {
    if i < actions.len() && (actions[i] is CloseCall || actions[i] is DropCall) {
        1
    } else {
        0
    }
}

/// In a short list of actions each counts.
proof fn lemma_calls_short<C, A>(actions: Seq<ActionView<C, A>>)
    requires
        actions.len() <= 4,
    ensures
        calls_out(actions) == hands_call(actions, 0) + hands_call(actions, 1) + hands_call(
            actions,
            2,
        ) + hands_call(actions, 3),
{
    reveal_with_fuel(calls_out, 5);
}

/// A command loses no call.
proof fn lemma_call_command<C, A>(m: ActorView<C, A>, command: CommandView)
    ensures
        count(m.active) == count(command_step(m, command).next.active) + calls_out(
            command_step(m, command).actions,
        ),
{
    lemma_calls_short(command_step(m, command).actions);
}

/// A report of the network loses no call.
proof fn lemma_call_internal<C, A>(m: ActorView<C, A>, event: InternalEvent<C>)
    ensures
        count(m.active) + calls_in(Occurrence::<C, A>::Internal(event)) == count(
            internal_step(m, event).next.active,
        ) + calls_out(internal_step(m, event).actions),
{
    lemma_calls_short(internal_step(m, event).actions);
}

/// No call is lost or closed twice: what was open and what was opened is what is open and what is
/// let go. There is one open call at most.
pub proof fn no_call_is_lost<C, A>(m: ActorView<C, A>, o: Occurrence<C, A>)
    ensures
        count(m.active) + calls_in(o) == count(step(m, o).next.active) + calls_out(
            step(m, o).actions,
        ),
{
    match o {
        Occurrence::Command(command) => lemma_call_command(m, command),
        Occurrence::Internal(event) => lemma_call_internal(m, event),
        _ => lemma_calls_short(step(m, o).actions),
    }
}

/// One call at a time: dialing while a call is open or being dialed connects to nobody and leaves
/// the call and the caller who waits as they are; only the shown state tells of the error.
pub proof fn second_call_is_refused<C, A>(
    m: ActorView<C, A>,
    address: Result<NodeAddr, ErrorView>,
)
    requires
        m.active is Some || m.state is Dialing,
    ensures
        dial_step(m, address).next == (ActorView { state: StateView::Error, ..m }),
        forall|i: int|
            0 <= i < dial_step(m, address).actions.len() ==> dial_step(m, address).actions[i]
                is Emit,
{
}

/// A caller who comes while a call is open or another caller waits is let go, and nothing else
/// happens.
pub proof fn busy_caller_is_let_go<C, A>(
    m: ActorView<C, A>,
    connection: C,
    remote: Option<Seq<char>>,
)
    requires
        m.active is Some || m.pending is Some,
    ensures
        incoming_step(m, connection, remote).next == m,
        incoming_step(m, connection, remote).actions == seq![
            ActionView::<C, A>::DropConnection(connection),
        ],
{
}

/// Muting keeps the call: nothing of the actor changes, and the microphone of the open call, if
/// there is one, is switched.
pub proof fn muting_keeps_the_call<C, A>(m: ActorView<C, A>, enabled: bool)
    ensures
        command_step(m, CommandView::SetMute(enabled)).next == m,
        m.active is Some ==> command_step(m, CommandView::SetMute(enabled)).actions == seq![
            ActionView::<C, A>::StoreMute(enabled),
        ],
        m.active is None ==> command_step(m, CommandView::SetMute(enabled)).actions.len() == 0,
{
}

/// Hanging up ends the call: no call is open, the call that was open is closed, connections are
/// accepted if the user wants that, and the user is told the state last. What the user wants, the
/// caller who waits, the devices and the selection stay.
pub proof fn hanging_up_ends_the_call<C, A>(m: ActorView<C, A>)
    ensures
        ({
            let after = command_step(m, CommandView::HangUp);
            let state = if m.requested {
                StateView::Listening
            } else {
                StateView::Idle
            };
            &&& after.next == (ActorView {
                active: None,
                listening: m.listening || m.requested,
                state,
                ..m
            })
            &&& consistent(m) ==> after.next.listening == m.requested
            &&& m.active matches Some(call) ==> after.actions[0]
                == ActionView::<C, A>::CloseCall(call)
            &&& after.actions.last() == tell::<C, A>(state)
        }),
{
}

/// Hanging up again changes nothing more, and closes nothing.
pub proof fn hanging_up_again_changes_nothing<C, A>(m: ActorView<C, A>)
    ensures
        ({
            let once = command_step(m, CommandView::HangUp).next;
            let twice = command_step(once, CommandView::HangUp);
            &&& twice.next == once
            &&& twice.actions == seq![tell::<C, A>(once.state)]
        }),
{
    let once = command_step(m, CommandView::HangUp).next;
    assert(command_step(once, CommandView::HangUp).actions =~= seq![tell::<C, A>(once.state)]);
}

/// Every call ends alike, whether the user hangs up or it ends by itself.
pub proof fn every_call_ends_alike<C, A>(m: ActorView<C, A>, reason: String)
    ensures
        command_step(m, CommandView::HangUp) == end_step(m),
        internal_step(m, InternalEvent::CallEnded(reason)) == command_step(m, CommandView::HangUp),
{
}

/// A caller who is shown can be answered: accepting opens a call over the caller's connection
/// with the selected devices, rejecting lets the connection go.
pub proof fn shown_caller_can_be_answered<C, A>(m: ActorView<C, A>)
    requires
        consistent(m),
        m.state is IncomingCall,
        !m.opening,
    ensures
        m.pending is Some,
        command_step(m, CommandView::Accept).actions.last() == (ActionView::<C, A>::OpenCall {
            connection: m.pending->0,
            selection: m.selection,
        }),
        command_step(m, CommandView::Accept).next.pending is None,
        command_step(m, CommandView::Reject).actions[0] == ActionView::<C, A>::DropConnection(
            m.pending->0,
        ),
        command_step(m, CommandView::Reject).next.pending is None,
        command_step(m, CommandView::Reject).next.state is Idle,
{
}

/// After the devices have been listed, each device in use is present or is the default one.
pub proof fn selection_is_present_or_default<C, A>(
    m: ActorView<C, A>,
    list: AudioDeviceList,
    defaults: SelectionView,
)
    ensures
        ({
            let next = devices_step(m, Ok(list), defaults).next;
            &&& next.devices == list@
            &&& next.selection.input == defaults.input || (next.selection.input matches Some(
                name,
            ) && next.devices.inputs.contains(name))
            &&& next.selection.output == defaults.output || (next.selection.output matches Some(
                name,
            ) && next.devices.outputs.contains(name))
        }),
{
}

}
