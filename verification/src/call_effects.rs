//! What each move of the call actor changes and asks for, told field by field and action by action:
//! for everything that can change, on which occurrences it does, and to what.
use iroh_base::NodeAddr;
use vstd::prelude::*;

use crate::audio::{AudioDeviceInfo, DeviceListView, SelectionView};
use crate::call::{
    dial_step, initial, read_address, tell, ticket_address, views, Action, ActionView, ActorView,
    CallCommand, CallEvent, CallState, CommandView, EventView, InternalEvent, StateView,
};
use crate::call_laws::{after, consistent, run_in_turn, step, Occurrence};
use crate::error::{error_text, ErrorView, VoiceError};
use crate::text::{opt_text, texts};
use crate::ticket::{parsed_ticket, ticket_error_text};

verus! {

/// A dialing that is under way or a call that is open stands in the way of dialing.
pub open spec fn busy<C, A>(m: ActorView<C, A>) -> bool {
    m.active is Some || m.state is Dialing
}

/// The occurrence ends the call.
pub open spec fn ends<C, A>(o: Occurrence<C, A>) -> bool {
    match o {
        Occurrence::Command(CommandView::HangUp) => true,
        Occurrence::Internal(InternalEvent::CallEnded(_)) => true,
        _ => false,
    }
}

/// The connection that a call is to be opened over: that of a caller who is accepted, or the one
/// that dialing brought.
pub open spec fn opens_over<C, A>(m: ActorView<C, A>, o: Occurrence<C, A>) -> Option<C> {
    match o {
        Occurrence::Command(CommandView::Accept) => m.pending,
        Occurrence::Internal(InternalEvent::DialResult(Ok(connection))) => Some(connection),
        _ => None,
    }
}

/// The connection that is let go: that of a caller who is rejected, or of one who comes while a
/// call is open or another caller waits.
pub open spec fn lets_go<C, A>(m: ActorView<C, A>, o: Occurrence<C, A>) -> Option<C> {
    match o {
        Occurrence::Command(CommandView::Reject) => m.pending,
        Occurrence::Internal(InternalEvent::Incoming { connection, .. }) => if m.active is Some
            || m.pending is Some {
            Some(connection)
        } else {
            None
        },
        _ => None,
    }
}

/// The address that is dialed.
pub open spec fn dials<C, A>(m: ActorView<C, A>, o: Occurrence<C, A>) -> Option<NodeAddr> {
    match o {
        Occurrence::Command(CommandView::Dial { ticket }) => match parsed_ticket(ticket) {
            Ok(addr) => if busy(m) {
                None
            } else {
                Some(addr)
            },
            Err(_) => None,
        },
        _ => None,
    }
}

/// What goes wrong, in words.
pub open spec fn failure<C, A>(m: ActorView<C, A>, o: Occurrence<C, A>) -> Option<Seq<char>> {
    match o {
        Occurrence::Command(CommandView::Dial { ticket }) => if busy(m) {
            Some("Invalid state: "@ + "Already in a call"@)
        } else {
            match parsed_ticket(ticket) {
                Ok(_) => None,
                Err(error) => Some("Ticket error: "@ + ticket_error_text(error)),
            }
        },
        Occurrence::Command(CommandView::Accept) => if m.pending is None {
            Some("Invalid state: "@ + "No incoming call to accept"@)
        } else {
            None
        },
        Occurrence::Internal(InternalEvent::DialResult(Err(error))) => Some(error_text(error@)),
        Occurrence::Opened(Err(error)) => Some(error_text(error@)),
        Occurrence::Listed { listed: Err(error), .. } => Some(error_text(error@)),
        _ => None,
    }
}

/// The actor starts idle, with no call, no caller and no listener, and with the default devices.
pub proof fn actor_starts_idle<C, A>(defaults: SelectionView)
    ensures
        ({
            let m = initial::<C, A>(defaults);
            &&& m.state is Idle
            &&& !m.listening && !m.requested && !m.opening
            &&& m.pending is None && m.active is None
            &&& m.devices.inputs.len() == 0 && m.devices.outputs.len() == 0
            &&& m.selection == defaults
        }),
{
}

/// What the user wants is what the user said: only the commands to start and to stop listening
/// change it.
pub proof fn wish_is_what_the_user_said<C, A>(m: ActorView<C, A>, o: Occurrence<C, A>)
    ensures
        o == Occurrence::<C, A>::Command(CommandView::StartListening) ==> step(m, o).next.requested,
        o == Occurrence::<C, A>::Command(CommandView::StopListening) ==> !step(
            m,
            o,
        ).next.requested,
        o != Occurrence::<C, A>::Command(CommandView::StartListening) && o != Occurrence::<
            C,
            A,
        >::Command(CommandView::StopListening) ==> step(m, o).next.requested == m.requested,
{
}

/// The last of the two wishes in a run is to listen.
pub open spec fn last_wish_is_to_listen<C, A>(run: Seq<Occurrence<C, A>>) -> bool {
    exists|i: int|
        #![trigger run[i]]
        0 <= i < run.len() && run[i] == Occurrence::<C, A>::Command(CommandView::StartListening)
            && forall|j: int|
            i < j < run.len() ==> #[trigger] run[j] != Occurrence::<C, A>::Command(
                CommandView::StopListening,
            )
}

/// Over every run the actor wants to listen exactly where the user's last word on it was to start;
/// where the user said nothing, it does not.
pub proof fn wish_is_the_last_word<C, A>(defaults: SelectionView, run: Seq<Occurrence<C, A>>)
    ensures
        after(initial(defaults), run).requested <==> last_wish_is_to_listen(run),
    decreases run.len(),
{
    if run.len() > 0 {
        let before = run.drop_last();
        let last = run.last();
        let n = run.len() - 1;
        let start = Occurrence::<C, A>::Command(CommandView::StartListening);
        let stop = Occurrence::<C, A>::Command(CommandView::StopListening);
        wish_is_the_last_word(defaults, before);
        wish_is_what_the_user_said(after(initial(defaults), before), last);
        assert(forall|i: int| 0 <= i < n ==> before[i] == #[trigger] run[i]);
        assert(run[n] == last);
        if last == start {
            assert(last_wish_is_to_listen(run));
        } else if last == stop {
            assert(!last_wish_is_to_listen(run));
        } else if last_wish_is_to_listen(before) {
            let i = choose|i: int|
                #![trigger before[i]]
                0 <= i < before.len() && before[i] == start && forall|j: int|
                    i < j < before.len() ==> #[trigger] before[j] != stop;
            assert(run[i] == start);
            assert forall|j: int| i < j < run.len() implies #[trigger] run[j] != stop by {
                if j < n {
                    assert(before[j] == run[j]);
                }
            }
        } else if last_wish_is_to_listen(run) {
            let i = choose|i: int|
                #![trigger run[i]]
                0 <= i < run.len() && run[i] == start && forall|j: int|
                    i < j < run.len() ==> #[trigger] run[j] != stop;
            assert(before[i] == start);
            assert forall|j: int| i < j < before.len() implies #[trigger] before[j] != stop by {
                assert(before[j] == run[j]);
            }
        }
    }
}

/// Nobody is listened for whom the user does not want: over every run, connections are accepted
/// only where the user's last word was to listen.
pub proof fn listening_is_wanted<C, A>(defaults: SelectionView, run: Seq<Occurrence<C, A>>)
    requires
        run_in_turn(initial(defaults), run),
    ensures
        after(initial(defaults), run).listening ==> last_wish_is_to_listen(run),
{
    crate::call_laws::always_consistent(defaults, run);
    wish_is_the_last_word(defaults, run);
}

/// When connections start and stop being accepted: they stop on the user's word and for a call;
/// they start on the user's word, unless a call is open, and again, where the user wants it, when a
/// caller is rejected or a call ends. Nothing else touches them.
pub proof fn listening_starts_and_stops<C, A>(m: ActorView<C, A>, o: Occurrence<C, A>)
    ensures
        ({
            let next = step(m, o).next.listening;
            let rejects = o == Occurrence::<C, A>::Command(CommandView::Reject) && m.pending
                is Some;
            if o == Occurrence::<C, A>::Command(CommandView::StartListening) {
                m.active is None ==> next
            } else if o == Occurrence::<C, A>::Command(CommandView::StopListening) || opens_over(
                m,
                o,
            ) is Some {
                !next
            } else if (ends(o) || rejects) && m.requested {
                next
            } else {
                next == m.listening
            }
        }),
        o == Occurrence::<C, A>::Command(CommandView::StartListening) && m.active is Some ==> step(
            m,
            o,
        ).next.listening == m.listening,
{
}

/// A caller who comes while no call is open and no other caller waits is always shown and kept,
/// whatever else the actor does: the connection waits, the state names the caller, or calls the
/// caller unknown, and that is all that is told.
pub proof fn free_actor_takes_the_caller<C, A>(
    m: ActorView<C, A>,
    connection: C,
    remote: Option<String>,
)
    requires
        m.active is None,
        m.pending is None,
    ensures
        ({
            let moved = step(
                m,
                Occurrence::Internal(InternalEvent::Incoming { connection, remote }),
            );
            let from = match remote {
                Some(name) => name@,
                None => "Unknown"@,
            };
            &&& moved.next.pending == Some(connection)
            &&& moved.next.state == (StateView::IncomingCall { from })
            &&& moved.actions.len() == 1
            &&& moved.actions[0] == ActionView::<C, A>::Emit(
                EventView::CallState(StateView::IncomingCall { from }),
            )
            &&& moved.next.listening == m.listening && moved.next.requested == m.requested
            &&& moved.next.active is None && moved.next.opening == m.opening
            &&& moved.next.devices == m.devices && moved.next.selection == m.selection
        }),
{
}

/// Who waits for an answer: a caller who comes to a free actor, until the caller is accepted or
/// rejected. Nothing else makes a caller wait or forgets one.
pub proof fn callers_wait_for_an_answer<C, A>(m: ActorView<C, A>, o: Occurrence<C, A>)
    ensures
        match o {
            Occurrence::Command(CommandView::Accept) => step(m, o).next.pending is None,
            Occurrence::Command(CommandView::Reject) => step(m, o).next.pending is None,
            Occurrence::Internal(InternalEvent::Incoming { connection, .. }) => step(
                m,
                o,
            ).next.pending == if m.active is None && m.pending is None {
                Some(connection)
            } else {
                m.pending
            },
            _ => step(m, o).next.pending == m.pending,
        },
{
}

/// Which call is open: the one that was opened last, until it ends. Nothing else opens or ends one.
pub proof fn open_call_is_the_last_opened<C, A>(m: ActorView<C, A>, o: Occurrence<C, A>)
    ensures
        match o {
            Occurrence::Opened(Ok((call, _))) => step(m, o).next.active == Some(call),
            _ => step(m, o).next.active == if ends(o) {
                None
            } else {
                m.active
            },
        },
{
}

/// A call is opened over the very connection of an accepted caller, or over the one that dialing
/// brought, with the devices in use: asking for it is the last thing done, it is done once, no
/// connection is dropped for it, and the answer is outstanding until it comes. No other occurrence
/// opens a call.
pub proof fn call_is_opened_over_its_connection<C, A>(
    m: ActorView<C, A>,
    o: Occurrence<C, A>,
    i: int,
)
    requires
        0 <= i < step(m, o).actions.len(),
    ensures
        opens_over(m, o) matches Some(connection) ==> step(m, o).actions.last()
            == (ActionView::<C, A>::OpenCall { connection, selection: m.selection }),
        step(m, o).actions[i] is OpenCall <==> opens_over(m, o) is Some && i == step(
            m,
            o,
        ).actions.len() - 1,
        opens_over(m, o) is Some ==> !(step(m, o).actions[i] is DropConnection),
{
}

/// An opening is outstanding from when a call is to be opened until the answer comes.
pub proof fn opening_lasts_until_the_answer<C, A>(m: ActorView<C, A>, o: Occurrence<C, A>)
    ensures
        opens_over(m, o) is Some ==> step(m, o).actions.len() > 0 && step(m, o).next.opening,
        o is Opened ==> !step(m, o).next.opening,
        opens_over(m, o) is None && !(o is Opened) ==> step(m, o).next.opening == m.opening,
{
}

/// A call that is dialed comes up: from an actor without a call, dialing a ticket that can be read
/// asks to connect to the address in it; the connection that this brings is what the call is opened
/// over; and once it is open, that call is the active one, and the state says so.
pub proof fn dialed_call_comes_up<C, A>(
    m: ActorView<C, A>,
    ticket: Seq<char>,
    connection: C,
    call: A,
    info: AudioDeviceInfo,
)
    requires
        m.active is None,
        !(m.state is Dialing),
        parsed_ticket(ticket) is Ok,
    ensures
        ({
            let dial = Occurrence::<C, A>::Command(CommandView::Dial { ticket });
            let connected = Occurrence::<C, A>::Internal(
                InternalEvent::DialResult(Ok(connection)),
            );
            let opened = Occurrence::<C, A>::Opened(Ok((call, info)));
            let dialing = step(m, dial);
            let opening = step(dialing.next, connected);
            let talking = step(opening.next, opened);
            &&& dialing.next.state is Dialing
            &&& dialing.actions.last() == ActionView::<C, A>::Connect(parsed_ticket(ticket)->Ok_0)
            &&& opening.actions.last() == (ActionView::<C, A>::OpenCall {
                connection,
                selection: m.selection,
            })
            &&& opening.next.opening
            &&& talking.next.active == Some(call)
            &&& talking.next.state is InCall
            &&& !talking.next.opening && !talking.next.listening
            &&& talking.next.requested == m.requested
            &&& talking.next.pending == m.pending
            &&& after(m, seq![dial, connected, opened]) == talking.next
        }),
{
    let dial = Occurrence::<C, A>::Command(CommandView::Dial { ticket });
    let connected = Occurrence::<C, A>::Internal(InternalEvent::DialResult(Ok(connection)));
    let opened = Occurrence::<C, A>::Opened(Ok((call, info)));
    reveal_with_fuel(after, 4);
    assert(seq![dial, connected, opened].drop_last() =~= seq![dial, connected]);
    assert(seq![dial, connected].drop_last() =~= seq![dial]);
    assert(seq![dial].drop_last() =~= seq![]);
}

/// A call that is accepted comes up: from an actor without a call and without a waiting caller, a
/// caller who is accepted is talked to over the caller's own connection.
pub proof fn accepted_call_comes_up<C, A>(
    m: ActorView<C, A>,
    connection: C,
    remote: Option<String>,
    call: A,
    info: AudioDeviceInfo,
)
    requires
        m.active is None,
        m.pending is None,
    ensures
        ({
            let comes = Occurrence::<C, A>::Internal(
                InternalEvent::Incoming { connection, remote },
            );
            let accept = Occurrence::<C, A>::Command(CommandView::Accept);
            let opened = Occurrence::<C, A>::Opened(Ok((call, info)));
            let ringing = step(m, comes).next;
            let opening = step(ringing, accept);
            let talking = step(opening.next, opened);
            &&& ringing.state is IncomingCall
            &&& opening.actions.last() == (ActionView::<C, A>::OpenCall {
                connection,
                selection: m.selection,
            })
            &&& opening.next.opening && opening.next.pending is None
            &&& talking.next.active == Some(call)
            &&& talking.next.state is InCall
            &&& talking.next.pending is None
            &&& !talking.next.listening && talking.next.requested == m.requested
        }),
{
}

/// When a call ends, the actor goes back to what the user wants: it listens if the user asked for
/// that, and else it is idle and starts no listener.
pub proof fn ended_call_goes_back_to_the_wish<C, A>(m: ActorView<C, A>, o: Occurrence<C, A>)
    requires
        ends(o),
        consistent(m),
    ensures
        step(m, o).next.listening == m.requested,
        step(m, o).next.active is None,
        m.requested ==> step(m, o).next.state is Listening,
        !m.requested ==> step(m, o).next.state is Idle,
        !m.requested ==> forall|i: int|
            0 <= i < step(m, o).actions.len() ==> !(#[trigger] step(m, o).actions[i]
                is SpawnListener),
{
}

/// The devices that are known are those of the last listing.
pub proof fn devices_are_those_listed<C, A>(m: ActorView<C, A>, o: Occurrence<C, A>)
    ensures
        match o {
            Occurrence::Listed { listed: Ok(list), .. } => {
                &&& step(m, o).next.devices.inputs == texts(list.inputs@)
                &&& step(m, o).next.devices.outputs == texts(list.outputs@)
            },
            _ => step(m, o).next.devices == m.devices,
        },
{
}

/// The device that is used is chosen by the user, or is the one that a call was opened with. A
/// listing keeps a chosen device that is present, and puts the default one in the place of one that
/// is not, or that was never chosen. Nothing else changes the choice, and choosing one device
/// leaves the other.
pub proof fn selection_follows_the_user<C, A>(m: ActorView<C, A>, o: Occurrence<C, A>)
    ensures
        ({
            let next = step(m, o).next.selection;
            match o {
                Occurrence::Command(CommandView::SetInputDevice(name)) => next.input == Some(name)
                    && next.output == m.selection.output,
                Occurrence::Command(CommandView::SetOutputDevice(name)) => next.output == Some(name)
                    && next.input == m.selection.input,
                Occurrence::Opened(Ok((_, info))) => next.input == Some(info.input_name@)
                    && next.output == Some(info.output_name@),
                Occurrence::Listed { listed: Ok(list), defaults } => {
                    &&& m.selection.input is Some && texts(list.inputs@).contains(
                        m.selection.input->0,
                    ) ==> next.input == m.selection.input
                    &&& m.selection.input is None || !texts(list.inputs@).contains(
                        m.selection.input->0,
                    ) ==> next.input == defaults.input
                    &&& m.selection.output is Some && texts(list.outputs@).contains(
                        m.selection.output->0,
                    ) ==> next.output == m.selection.output
                    &&& m.selection.output is None || !texts(list.outputs@).contains(
                        m.selection.output->0,
                    ) ==> next.output == defaults.output
                },
                _ => next == m.selection,
            }
        }),
{
}

/// The state after each occurrence. A failure shows as an error, but for a failed dialing, after
/// which the call is idle.
pub proof fn state_after<C, A>(m: ActorView<C, A>, o: Occurrence<C, A>)
    ensures
        ({
            let next = step(m, o).next.state;
            &&& failure(m, o) is Some && !(o is Internal) ==> next is Error
            &&& failure(m, o) is Some && o is Internal ==> next is Idle
            &&& dials(m, o) is Some ==> next is Dialing
            &&& o is Opened && failure(m, o) is None ==> next is InCall
            &&& ends(o) && m.requested ==> next is Listening
            &&& ends(o) && !m.requested ==> next is Idle
            &&& failure(m, o) is None && dials(m, o) is None && !(o is Opened) && !ends(o) ==> {
                match o {
                    Occurrence::Command(CommandView::StartListening) => next == if m.active is None
                        && !m.listening {
                        StateView::Listening
                    } else {
                        m.state
                    },
                    Occurrence::Command(CommandView::StopListening) => next == if m.active is None {
                        StateView::Idle
                    } else {
                        m.state
                    },
                    Occurrence::Command(CommandView::Reject) => next == if m.pending is Some {
                        StateView::Idle
                    } else {
                        m.state
                    },
                    Occurrence::Internal(InternalEvent::Incoming { remote, .. }) => next
                        == if m.active is Some || m.pending is Some {
                        m.state
                    } else {
                        StateView::IncomingCall {
                            from: match remote {
                                Some(name) => name@,
                                None => "Unknown"@,
                            },
                        }
                    },
                    _ => next == m.state,
                }
            }
        }),
{
}

/// A failure is told first, in its own words, with the state that shows it; and nothing is told to
/// have gone wrong where nothing has.
pub proof fn failures_are_told<C, A>(m: ActorView<C, A>, o: Occurrence<C, A>, i: int)
    requires
        0 <= i < step(m, o).actions.len(),
    ensures
        failure(m, o) matches Some(text) ==> {
            &&& step(m, o).actions.len() >= 2
            &&& step(m, o).actions[0] == ActionView::<C, A>::Emit(EventView::Error(text))
            &&& step(m, o).actions[1] == ActionView::<C, A>::Emit(
                EventView::CallState(StateView::Error),
            )
        },
        (step(m, o).actions[i] matches ActionView::Emit(EventView::Error(_))) ==> i == 0 && failure(
            m,
            o,
        ) is Some,
{
    assert(error_text(ErrorView::InvalidState("Already in a call"@)) == "Invalid state: "@
        + "Already in a call"@);
    assert(error_text(ErrorView::InvalidState("No incoming call to accept"@))
        == "Invalid state: "@ + "No incoming call to accept"@);
}

/// A failure changes nothing but the state, and that an answer is no longer outstanding.
pub proof fn failures_change_the_state_only<C, A>(m: ActorView<C, A>, o: Occurrence<C, A>)
    requires
        failure(m, o) is Some,
    ensures
        step(m, o).next == (ActorView {
            state: step(m, o).next.state,
            opening: m.opening && !(o is Opened),
            ..m
        }),
        forall|i: int|
            0 <= i < step(m, o).actions.len() ==> #[trigger] step(m, o).actions[i] is Emit,
{
}

/// A connection is let go when its caller is rejected, or comes while a call is open or another
/// caller waits; it is the first thing done, and it is done once. No other connection is let go.
pub proof fn connection_is_let_go<C, A>(m: ActorView<C, A>, o: Occurrence<C, A>, i: int)
    requires
        0 <= i < step(m, o).actions.len(),
    ensures
        lets_go(m, o) matches Some(connection) ==> step(m, o).actions[0] == ActionView::<
            C,
            A,
        >::DropConnection(connection),
        step(m, o).actions[i] is DropConnection <==> lets_go(m, o) is Some && i == 0,
{
}

/// Where something has to be done, something is done.
pub proof fn nothing_is_passed_over<C, A>(m: ActorView<C, A>, o: Occurrence<C, A>)
    ensures
        lets_go(m, o) is Some ==> step(m, o).actions.len() > 0,
        opens_over(m, o) is Some ==> step(m, o).actions.len() > 0,
        dials(m, o) is Some ==> step(m, o).actions.len() == 2,
        failure(m, o) is Some ==> step(m, o).actions.len() >= 2,
        ends(o) ==> step(m, o).actions.len() > 0,
{
}

/// The open call is closed when it ends, and let go when another one takes its place: that is the
/// first thing done, it is done once, and at no other time.
pub proof fn open_call_is_closed<C, A>(m: ActorView<C, A>, o: Occurrence<C, A>, i: int)
    requires
        0 <= i < step(m, o).actions.len(),
    ensures
        ({
            let replaced = o is Opened && failure(m, o) is None;
            &&& ends(o) && m.active is Some ==> step(m, o).actions[0] == ActionView::<
                C,
                A,
            >::CloseCall(m.active->0)
            &&& replaced && m.active is Some ==> step(m, o).actions[0] == ActionView::<
                C,
                A,
            >::DropCall(m.active->0)
            &&& step(m, o).actions[i] is CloseCall <==> ends(o) && m.active is Some && i == 0
            &&& step(m, o).actions[i] is DropCall <==> replaced && m.active is Some && i == 0
        }),
{
}

/// Dialing connects to the address in the ticket, after the state has been told; nothing else
/// connects to anybody.
pub proof fn dialing_connects<C, A>(m: ActorView<C, A>, o: Occurrence<C, A>, i: int)
    requires
        0 <= i < step(m, o).actions.len(),
    ensures
        dials(m, o) matches Some(addr) ==> step(m, o).actions.len() == 2 && step(m, o).actions[1]
            == ActionView::<C, A>::Connect(addr),
        step(m, o).actions[i] is Connect <==> dials(m, o) is Some && i == 1,
{
}

/// Dialing by an address that has been read is dialing by the ticket it was read from: an actor
/// without a call connects to that very address, and changes nothing but its state.
pub proof fn read_address_is_dialed<C, A>(m: ActorView<C, A>, addr: NodeAddr)
    requires
        !busy(m),
    ensures
        dial_step(m, Ok(addr)).next == (ActorView { state: StateView::Dialing, ..m }),
        dial_step(m, Ok(addr)).actions.len() == 2,
        dial_step(m, Ok(addr)).actions[0] == ActionView::<C, A>::Emit(
            EventView::CallState(StateView::Dialing),
        ),
        dial_step(m, Ok(addr)).actions[1] == ActionView::<C, A>::Connect(addr),
{
}

/// An address that could not be read is dialed by nobody: the error is told in its own words.
pub proof fn unread_address_is_told<C, A>(m: ActorView<C, A>, error: ErrorView)
    requires
        !busy(m),
    ensures
        dial_step(m, Err(error)).next == (ActorView { state: StateView::Error, ..m }),
        dial_step(m, Err(error)).actions.len() == 2,
        dial_step(m, Err(error)).actions[0] == ActionView::<C, A>::Emit(
            EventView::Error(error_text(error)),
        ),
        dial_step(m, Err(error)).actions[1] == ActionView::<C, A>::Emit(
            EventView::CallState(StateView::Error),
        ),
{
}

/// The devices are listed when the user asks for that, and the microphone is switched as the user
/// asks, where a call is open; at no other time.
pub proof fn requests_are_passed_on<C, A>(m: ActorView<C, A>, o: Occurrence<C, A>, i: int)
    ensures
        o == Occurrence::<C, A>::Command(CommandView::RefreshDevices) ==> step(m, o).actions.len()
            == 1 && step(m, o).actions[0] is ListDevices && step(m, o).next == m,
        o matches Occurrence::Command(CommandView::SetMute(enabled)) ==> step(m, o).next == m
            && if m.active is Some {
            step(m, o).actions.len() == 1 && step(m, o).actions[0] == ActionView::<
                C,
                A,
            >::StoreMute(enabled)
        } else {
            step(m, o).actions.len() == 0
        },
        0 <= i < step(m, o).actions.len() && step(m, o).actions[i] is ListDevices ==> o
            == Occurrence::<C, A>::Command(CommandView::RefreshDevices),
        0 <= i < step(m, o).actions.len() && step(m, o).actions[i] is StoreMute ==> (o
            matches Occurrence::Command(CommandView::SetMute(_))),
{
}

/// The listener is stopped first of all, and started once a call has been closed or a caller let
/// go: each exactly where it runs and is to stop, or does not run and is to start.
pub proof fn listener_is_started_and_stopped<C, A>(m: ActorView<C, A>, o: Occurrence<C, A>, i: int)
    requires
        0 <= i < step(m, o).actions.len(),
    ensures
        step(m, o).actions[i] is AbortListener <==> m.listening && !step(m, o).next.listening && i
            == 0,
        step(m, o).actions[i] is SpawnListener <==> !m.listening && step(m, o).next.listening && i
            == if lets_go(m, o) is Some || (ends(o) && m.active is Some) {
            1int
        } else {
            0
        },
        !m.listening && step(m, o).next.listening ==> step(m, o).actions.len() >= 2,
{
}

/// The devices and the choice are told, as they are after the move, whenever they may have changed;
/// and the devices that a call was opened with are told after them.
pub proof fn devices_are_told<C, A>(m: ActorView<C, A>, o: Occurrence<C, A>, i: int)
    requires
        0 <= i < step(m, o).actions.len(),
    ensures
        ({
            let moved = step(m, o);
            let chosen = match o {
                Occurrence::Command(CommandView::SetInputDevice(_)) => true,
                Occurrence::Command(CommandView::SetOutputDevice(_)) => true,
                _ => false,
            };
            let opened = o is Opened && failure(m, o) is None;
            let listed = o is Listed && failure(m, o) is None;
            let at = if opened && m.active is Some {
                1int
            } else {
                0
            };
            &&& chosen || listed ==> moved.actions.len() == 1
            &&& chosen || listed || opened ==> moved.actions[at] == ActionView::<C, A>::Emit(
                EventView::DeviceList {
                    devices: moved.next.devices,
                    selection: moved.next.selection,
                },
            )
            &&& (moved.actions[i] matches ActionView::Emit(EventView::DeviceList { .. })) <==> (
            chosen || listed || opened) && i == at
            &&& (o matches Occurrence::Opened(Ok((_, info))) ==> moved.actions.len() == at + 3
                && moved.actions[at + 1] == ActionView::<C, A>::Emit(
                EventView::AudioDevices(info@),
            ))
            &&& (moved.actions[i] matches ActionView::Emit(EventView::AudioDevices(_))) <==> opened
                && i == at + 1
        }),
{
}

/// A state that is told is the state after the move; only behind the start of the listener it is
/// that of listening, and behind an error that of an error.
pub proof fn told_states_are_true<C, A>(m: ActorView<C, A>, o: Occurrence<C, A>, i: int)
    requires
        0 <= i < step(m, o).actions.len(),
    ensures
        step(m, o).actions[i] matches ActionView::Emit(EventView::CallState(told)) ==> told == if i
            > 0 && step(m, o).actions[i - 1] is SpawnListener {
            StateView::Listening
        } else if i > 0 && (step(m, o).actions[i - 1] matches ActionView::Emit(
            EventView::Error(_),
        )) {
            StateView::Error
        } else {
            step(m, o).next.state
        },
        i > 0 && step(m, o).actions[i - 1] is SpawnListener ==> (step(m, o).actions[i]
            matches ActionView::Emit(EventView::CallState(_))),
{
}

/// How much there is to do on each occurrence: no less than is called for, and no more.
pub proof fn actions_are_counted<C, A>(m: ActorView<C, A>, o: Occurrence<C, A>)
    ensures
        ({
            let n = step(m, o).actions.len();
            let one = |b: bool|
                if b {
                    1int
                } else {
                    0
                };
            let spawns = m.requested && !m.listening;
            if failure(m, o) is Some {
                n == 2 + one(o is Internal)
            } else if ends(o) {
                n == one(m.active is Some) + 2 * one(spawns) + 1
            } else if opens_over(m, o) is Some {
                n == one(m.listening) + 1
            } else {
                match o {
                    Occurrence::Command(CommandView::StartListening) => n == 2 * one(
                        m.active is None && !m.listening,
                    ),
                    Occurrence::Command(CommandView::StopListening) => n == one(m.listening) + one(
                        m.active is None,
                    ),
                    Occurrence::Command(CommandView::Dial { .. }) => n == 2,
                    Occurrence::Command(CommandView::Reject) => n == if m.pending is Some {
                        2 + 2 * one(spawns)
                    } else {
                        0
                    },
                    Occurrence::Command(CommandView::SetMute(_)) => n == one(m.active is Some),
                    Occurrence::Opened(_) => n == 3 + one(m.active is Some),
                    _ => n == 1,
                }
            }
        }),
{
}

/// The list of values of some actions has the value of each action at its place, and the value of
/// an action tells what it is and what it holds.
pub proof fn values_tell_actions_apart<C, A>(actions: Seq<Action<C, A>>, i: int)
    requires
        0 <= i < actions.len(),
    ensures
        views(actions).len() == actions.len(),
        views(actions)[i] == actions[i]@,
        match actions[i] {
            Action::Emit(event) => actions[i]@ == ActionView::<C, A>::Emit(event@),
            Action::SpawnListener => actions[i]@ is SpawnListener,
            Action::AbortListener => actions[i]@ is AbortListener,
            Action::Connect(addr) => actions[i]@ == ActionView::<C, A>::Connect(addr),
            Action::ListDevices => actions[i]@ is ListDevices,
            Action::OpenCall { connection, selection } => {
                &&& actions[i]@ is OpenCall
                &&& actions[i]@->OpenCall_connection == connection
                &&& actions[i]@->OpenCall_selection.input == opt_text(selection.input)
                &&& actions[i]@->OpenCall_selection.output == opt_text(selection.output)
            },
            Action::CloseCall(call) => actions[i]@ == ActionView::<C, A>::CloseCall(call),
            Action::DropCall(call) => actions[i]@ == ActionView::<C, A>::DropCall(call),
            Action::DropConnection(connection) => actions[i]@ == ActionView::<
                C,
                A,
            >::DropConnection(connection),
            Action::StoreMute(enabled) => actions[i]@ == ActionView::<C, A>::StoreMute(enabled),
        },
{
}

/// Telling a state tells that state.
pub proof fn telling_a_state_tells_it<C, A>(state: StateView)
    ensures
        tell::<C, A>(state) == ActionView::<C, A>::Emit(EventView::CallState(state)),
{
}

/// An address that was read stays what was read, and an error keeps its words.
pub proof fn reading_keeps_the_outcome(
    ticket: Seq<char>,
    address: Result<NodeAddr, VoiceError>,
)
    ensures
        ticket_address(ticket) is Ok <==> parsed_ticket(ticket) is Ok,
        parsed_ticket(ticket) matches Ok(addr) ==> ticket_address(ticket) == Ok::<
            NodeAddr,
            ErrorView,
        >(addr),
        parsed_ticket(ticket) matches Err(error) ==> ticket_address(ticket) == Err::<
            NodeAddr,
            ErrorView,
        >(ErrorView::Ticket(ticket_error_text(error))),
        address matches Ok(addr) ==> read_address(address) == Ok::<NodeAddr, ErrorView>(addr),
        address matches Err(error) ==> read_address(address) == Err::<NodeAddr, ErrorView>(
            error@,
        ),
{
}

/// The values that the contracts speak of tell states apart, and commands, and events.
pub proof fn values_tell_things_apart(state: CallState, command: CallCommand, event: CallEvent)
    ensures
        match state {
            CallState::Idle => state@ is Idle,
            CallState::Listening => state@ is Listening,
            CallState::IncomingCall { from } => state@ == (StateView::IncomingCall { from: from@ }),
            CallState::Dialing => state@ is Dialing,
            CallState::InCall => state@ is InCall,
            CallState::Error => state@ is Error,
        },
        match command {
            CallCommand::StartListening => command@ is StartListening,
            CallCommand::StopListening => command@ is StopListening,
            CallCommand::Dial { ticket } => command@ == (CommandView::Dial { ticket: ticket@ }),
            CallCommand::RefreshDevices => command@ is RefreshDevices,
            CallCommand::SetInputDevice(name) => command@ == CommandView::SetInputDevice(name@),
            CallCommand::SetOutputDevice(name) => command@ == CommandView::SetOutputDevice(name@),
            CallCommand::Accept => command@ is Accept,
            CallCommand::Reject => command@ is Reject,
            CallCommand::HangUp => command@ is HangUp,
            CallCommand::SetMute(enabled) => command@ == CommandView::SetMute(enabled),
        },
        match event {
            CallEvent::CallState(told) => event@ == EventView::CallState(told@),
            CallEvent::Error(text) => event@ == EventView::Error(text@),
            CallEvent::AudioDevices(info) => (event@ matches EventView::AudioDevices(told)
                && told.input_name == info.input_name@ && told.output_name == info.output_name@
                && told.sample_rate == info.sample_rate && told.channels == info.channels),
            CallEvent::DeviceList { inputs, outputs, selected_input, selected_output } => event@
                == (EventView::DeviceList {
                devices: DeviceListView { inputs: texts(inputs@), outputs: texts(outputs@) },
                selection: SelectionView {
                    input: opt_text(selected_input),
                    output: opt_text(selected_output),
                },
            }),
        },
{
}

}
