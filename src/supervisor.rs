use vstd::prelude::*;

verus! {

/// How many terminate signals are sent before the command is killed outright.
pub const TERMINATE_ATTEMPTS: u8 = 3;

/// Where the supervisor of one spawned command stands.
#[derive(Clone, Copy, Debug, PartialEq, Eq, Structural)]
pub enum SupervisorState {
    /// The command runs and no termination was requested.
    Running,
    /// Termination was requested; this many terminate signals remain before
    /// the command is killed.
    Terminating(u8),
    /// Supervision is over.
    Done,
}

/// What one poll of the supervised command found.
#[derive(Clone, Copy, Debug, PartialEq, Eq, Structural)]
pub struct PollEvent {
    /// The command has exited.
    pub exited: bool,
    /// An interrupt or terminate signal reached the supervisor since the
    /// previous poll.
    pub interrupted: bool,
}

/// What the supervisor does after a poll.
#[derive(Clone, Copy, Debug, PartialEq, Eq, Structural)]
pub enum SupervisorAction {
    /// Wait one poll interval and poll again.
    Wait,
    /// Send a terminate signal to the command, then poll again.
    Terminate,
    /// Kill the command unconditionally and stop supervising.
    Kill,
    /// Stop supervising: the command is gone.
    Stop,
}

/// One step of the supervisor: the state after a poll and the action taken.
pub open spec fn spec_step(state: SupervisorState, ev: PollEvent) -> (SupervisorState, SupervisorAction) {
    match state {
        SupervisorState::Done => (SupervisorState::Done, SupervisorAction::Stop),
        _ => if ev.exited {
            (SupervisorState::Done, SupervisorAction::Stop)
        } else {
            match state {
                SupervisorState::Running => if ev.interrupted {
                    (SupervisorState::Terminating(TERMINATE_ATTEMPTS), SupervisorAction::Wait)
                } else {
                    (SupervisorState::Running, SupervisorAction::Wait)
                },
                SupervisorState::Terminating(n) => if n > 0 {
                    (SupervisorState::Terminating((n - 1) as u8), SupervisorAction::Terminate)
                } else {
                    (SupervisorState::Done, SupervisorAction::Kill)
                },
                SupervisorState::Done => (SupervisorState::Done, SupervisorAction::Stop),
            }
        },
    }
}

/// The states passed through when the supervisor meets `events` in turn,
/// starting from `state`: entry `i` is the state after the `i`-th poll.
pub open spec fn spec_states(state: SupervisorState, events: Seq<PollEvent>) -> Seq<SupervisorState>
    decreases events.len(),
{
    if events.len() == 0 {
        Seq::empty()
    } else {
        let next = spec_step(state, events[0]).0;
        seq![next] + spec_states(next, events.drop_first())
    }
}

/// The actions taken when the supervisor meets `events` in turn, starting
/// from `state`: entry `i` is the action after the `i`-th poll.
pub open spec fn spec_actions(state: SupervisorState, events: Seq<PollEvent>) -> Seq<SupervisorAction>
    decreases events.len(),
{
    if events.len() == 0 {
        Seq::empty()
    } else {
        let (next, act) = spec_step(state, events[0]);
        seq![act] + spec_actions(next, events.drop_first())
    }
}

/// Decides the supervisor's next state and action after one poll of the
/// supervised command. An exited command ends supervision at once; a
/// termination request starts the escalation, which sends the terminate
/// signal a fixed number of times, one poll apart, and then kills the
/// command. Requests that arrive during escalation change nothing.
pub fn supervisor_step(state: SupervisorState, ev: PollEvent) -> (r: (SupervisorState, SupervisorAction))
    ensures
        r == spec_step(state, ev),
{
    match state {
        SupervisorState::Done => (SupervisorState::Done, SupervisorAction::Stop),
        SupervisorState::Running => {
            if ev.exited {
                (SupervisorState::Done, SupervisorAction::Stop)
            } else if ev.interrupted {
                (SupervisorState::Terminating(TERMINATE_ATTEMPTS), SupervisorAction::Wait)
            } else {
                (SupervisorState::Running, SupervisorAction::Wait)
            }
        },
        SupervisorState::Terminating(n) => {
            if ev.exited {
                (SupervisorState::Done, SupervisorAction::Stop)
            } else if n > 0 {
                (SupervisorState::Terminating(n - 1), SupervisorAction::Terminate)
            } else {
                (SupervisorState::Done, SupervisorAction::Kill)
            }
        },
    }
}

/// The state in which supervision of a freshly launched command begins.
pub fn initial_state() -> (r: SupervisorState)
    ensures
        r == SupervisorState::Running,
{
    SupervisorState::Running
}

/// Whether supervision is over in `state`.
pub fn is_finished(state: SupervisorState) -> (r: bool)
    ensures
        r == (state == SupervisorState::Done),
{
    match state {
        SupervisorState::Done => true,
        _ => false,
    }
}

/// A run of `events` yields one state and one action per poll.
pub proof fn lemma_run_lengths(state: SupervisorState, events: Seq<PollEvent>)
    ensures
        spec_states(state, events).len() == events.len(),
        spec_actions(state, events).len() == events.len(),
    decreases events.len(),
{
    if events.len() > 0 {
        lemma_run_lengths(spec_step(state, events[0]).0, events.drop_first());
    }
}

/// A command that ignores terminate signals: once a termination request is
/// seen, the next polls send exactly three terminate signals, one per poll,
/// and the poll after them kills the command and ends supervision, whatever
/// further requests arrive meanwhile.
pub proof fn lemma_escalation_when_ignored(events: Seq<PollEvent>)
    requires
        events.len() == 5,
        forall|i: int| 0 <= i < 5 ==> !(#[trigger] events[i]).exited,
        events[0].interrupted,
    ensures
        spec_actions(SupervisorState::Running, events) == seq![
            SupervisorAction::Wait,
            SupervisorAction::Terminate,
            SupervisorAction::Terminate,
            SupervisorAction::Terminate,
            SupervisorAction::Kill,
        ],
        spec_states(SupervisorState::Running, events).last() == SupervisorState::Done,
{
    let e0 = events;
    let e1 = e0.drop_first();
    let e2 = e1.drop_first();
    let e3 = e2.drop_first();
    let e4 = e3.drop_first();
    let e5 = e4.drop_first();
    assert(!e1[0].exited && !e2[0].exited && !e3[0].exited && !e4[0].exited) by {
        assert(e1[0] == events[1]);
        assert(e2[0] == events[2]);
        assert(e3[0] == events[3]);
        assert(e4[0] == events[4]);
    }
    assert(e5.len() == 0);
    reveal_with_fuel(spec_actions, 6);
    reveal_with_fuel(spec_states, 6);
    let s = spec_states(SupervisorState::Running, events);
    assert(s == seq![
        SupervisorState::Terminating(3),
        SupervisorState::Terminating(2),
        SupervisorState::Terminating(1),
        SupervisorState::Terminating(0),
        SupervisorState::Done,
    ]);
    assert(spec_actions(SupervisorState::Running, events) =~= seq![
        SupervisorAction::Wait,
        SupervisorAction::Terminate,
        SupervisorAction::Terminate,
        SupervisorAction::Terminate,
        SupervisorAction::Kill,
    ]);
}

/// A command that exits on its own before any termination request: the
/// supervisor goes from running to done without ever terminating, and sends
/// no signal.
pub proof fn lemma_exit_without_request(events: Seq<PollEvent>)
    requires
        events.len() > 0,
        events.last().exited,
        forall|i: int| 0 <= i < events.len() - 1 ==> !(#[trigger] events[i]).exited
            && !events[i].interrupted,
    ensures
        forall|i: int| 0 <= i < events.len() - 1 ==> #[trigger] spec_states(SupervisorState::Running, events)[i]
            == SupervisorState::Running,
        spec_states(SupervisorState::Running, events).last() == SupervisorState::Done,
        forall|i: int| 0 <= i < events.len() ==> !(#[trigger] spec_states(SupervisorState::Running, events)[i] is Terminating),
        forall|i: int| 0 <= i < events.len() ==> {
            let a = #[trigger] spec_actions(SupervisorState::Running, events)[i];
            a != SupervisorAction::Terminate && a != SupervisorAction::Kill
        },
    decreases events.len(),
{
    lemma_run_lengths(SupervisorState::Running, events);
    if events.len() > 1 {
        let rest = events.drop_first();
        assert forall|i: int| 0 <= i < rest.len() - 1 implies !(#[trigger] rest[i]).exited
            && !rest[i].interrupted by {
            assert(rest[i] == events[i + 1]);
        }
        assert(rest.last() == events.last());
        lemma_exit_without_request(rest);
        assert(!events[0].exited && !events[0].interrupted);
        let s = spec_states(SupervisorState::Running, events);
        let a = spec_actions(SupervisorState::Running, events);
        assert(s == seq![SupervisorState::Running] + spec_states(SupervisorState::Running, rest));
        assert(a == seq![SupervisorAction::Wait] + spec_actions(SupervisorState::Running, rest));
        lemma_run_lengths(SupervisorState::Running, rest);
        assert forall|i: int| 0 <= i < events.len() implies !(#[trigger] s[i] is Terminating) by {
            if i > 0 {
                assert(s[i] == spec_states(SupervisorState::Running, rest)[i - 1]);
            }
        }
        assert forall|i: int| 0 <= i < events.len() - 1 implies #[trigger] s[i] == SupervisorState::Running by {
            if i > 0 {
                assert(s[i] == spec_states(SupervisorState::Running, rest)[i - 1]);
            }
        }
        assert forall|i: int| 0 <= i < events.len() implies {
            let x = #[trigger] a[i];
            x != SupervisorAction::Terminate && x != SupervisorAction::Kill
        } by {
            if i > 0 {
                assert(a[i] == spec_actions(SupervisorState::Running, rest)[i - 1]);
            }
        }
        assert(s.last() == spec_states(SupervisorState::Running, rest).last());
    } else {
        assert(events.drop_first().len() == 0);
        reveal_with_fuel(spec_actions, 2);
        reveal_with_fuel(spec_states, 2);
        assert(spec_states(SupervisorState::Running, events) =~= seq![SupervisorState::Done]);
        assert(spec_actions(SupervisorState::Running, events) =~= seq![SupervisorAction::Stop]);
    }
}

} // verus!
