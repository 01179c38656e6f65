use vstd::prelude::*;
use crate::event::ChangeEvent;
use crate::filter::GlobsetFilterer;

verus! {

/// How long to let a burst of changes settle after its first relevant
/// notification, in milliseconds.
pub const QUIESCENCE_MILLIS: u64 = 250;

/// Where the debouncer stands in its cycle.
pub enum DebounceState {
    /// Waiting for a relevant notification.
    Waiting,
    /// A relevant notification arrived; the quiescence window is running.
    Settling { trigger: ChangeEvent },
    /// The window is over; notifications buffered meanwhile are discarded.
    Draining { trigger: ChangeEvent },
}

/// What the caller observed while carrying out the last action.
pub enum DebounceInput {
    /// A notification was received.
    Received(ChangeEvent),
    /// The requested sleep is over.
    WindowElapsed,
    /// No notification was buffered.
    Drained,
}

/// What the caller has to do next.
pub enum DebounceAction {
    /// Block until the next notification arrives.
    Receive,
    /// Sleep for the quiescence window.
    Sleep { millis: u64 },
    /// Take a buffered notification without blocking, if there is one.
    TryReceive,
    /// The burst is over: run the command for this notification.
    Fire(ChangeEvent),
}

/// One transition: the new state and the action to carry out. An input that
/// does not belong to the current state is dropped and the pending action is
/// asked for again.
pub open spec fn next_step(
    f: GlobsetFilterer,
    window: u64,
    s: DebounceState,
    input: DebounceInput,
) -> (DebounceState, DebounceAction) {
    match s {
        DebounceState::Waiting => match input {
            DebounceInput::Received(e) => if f.accepts(e.paths@) {
                (DebounceState::Settling { trigger: e }, DebounceAction::Sleep { millis: window })
            } else {
                (DebounceState::Waiting, DebounceAction::Receive)
            },
            _ => (DebounceState::Waiting, DebounceAction::Receive),
        },
        DebounceState::Settling { trigger } => if input is WindowElapsed {
            (DebounceState::Draining { trigger }, DebounceAction::TryReceive)
        } else {
            (DebounceState::Settling { trigger }, DebounceAction::Sleep { millis: window })
        },
        DebounceState::Draining { trigger } => if input is Drained {
            (DebounceState::Waiting, DebounceAction::Fire(trigger))
        } else {
            (DebounceState::Draining { trigger }, DebounceAction::TryReceive)
        },
    }
}

/// The final state and the actions asked for, over a sequence of inputs.
pub open spec fn run_inputs(
    f: GlobsetFilterer,
    window: u64,
    s: DebounceState,
    inputs: Seq<DebounceInput>,
) -> (DebounceState, Seq<DebounceAction>)
    decreases inputs.len(),
{
    if inputs.len() == 0 {
        (s, Seq::empty())
    } else {
        let (s1, a) = next_step(f, window, s, inputs[0]);
        let (s2, rest) = run_inputs(f, window, s1, inputs.drop_first());
        (s2, seq![a] + rest)
    }
}

/// How many of the actions fire the command.
pub open spec fn fire_count(actions: Seq<DebounceAction>) -> nat
    decreases actions.len(),
{
    if actions.len() == 0 {
        0
    } else {
        (if actions[0] is Fire {
            1nat
        } else {
            0nat
        }) + fire_count(actions.drop_first())
    }
}

/// Draining: every buffered notification is received and discarded, then
/// the buffer is found empty.
pub open spec fn drain_inputs(buffered: Seq<ChangeEvent>) -> Seq<DebounceInput> {
    buffered.map_values(|e: ChangeEvent| DebounceInput::Received(e)) + seq![
        DebounceInput::Drained,
    ]
}

/// A burst: a first notification, the window running out, the later
/// notifications of the burst found in the buffer, and the buffer empty.
pub open spec fn burst_inputs(first: ChangeEvent, later: Seq<ChangeEvent>) -> Seq<DebounceInput> {
    seq![DebounceInput::Received(first), DebounceInput::WindowElapsed] + drain_inputs(later)
}

/// Collapses bursts of change notifications into one trigger each.
pub struct Debouncer {
    state: DebounceState,
    window_ms: u64,
}

impl Debouncer {
    pub closed spec fn state(&self) -> DebounceState {
        self.state
    }

    pub closed spec fn window(&self) -> u64 {
        self.window_ms
    }

    /// A debouncer waiting for its first notification, with a quiescence
    /// window of `window_ms` milliseconds.
    pub fn new(window_ms: u64) -> (r: Self)
        ensures
            r.state() is Waiting,
            r.window() == window_ms,
    {
        Debouncer { state: DebounceState::Waiting, window_ms }
    }

    /// Whether the debouncer is waiting for a new burst to begin.
    pub fn is_waiting(&self) -> (r: bool)
        ensures
            r == self.state() is Waiting,
    {
        match self.state {
            DebounceState::Waiting => true,
            _ => false,
        }
    }

    /// Takes what the caller observed and says what to do next. A rejected
    /// notification never starts a window; once a window has started, every
    /// notification until the buffer is empty is discarded, and the first
    /// one is handed back as the trigger.
    pub fn step(&mut self, f: &GlobsetFilterer, input: DebounceInput) -> (r: DebounceAction)
        ensures
            (final(self).state(), r) == next_step(*f, old(self).window(), old(self).state(), input),
            final(self).window() == old(self).window(),
    {
        let mut current = DebounceState::Waiting;
        std::mem::swap(&mut self.state, &mut current);
        let window = self.window_ms;
        let (next, action) = match current {
            DebounceState::Waiting => match input {
                DebounceInput::Received(e) => {
                    if f.check_event(&e) {
                        (DebounceState::Settling { trigger: e }, DebounceAction::Sleep { millis: window })
                    } else {
                        (DebounceState::Waiting, DebounceAction::Receive)
                    }
                },
                _ => (DebounceState::Waiting, DebounceAction::Receive),
            },
            DebounceState::Settling { trigger } => match input {
                DebounceInput::WindowElapsed => (
                    DebounceState::Draining { trigger },
                    DebounceAction::TryReceive,
                ),
                _ => (DebounceState::Settling { trigger }, DebounceAction::Sleep { millis: window }),
            },
            DebounceState::Draining { trigger } => match input {
                DebounceInput::Drained => (DebounceState::Waiting, DebounceAction::Fire(trigger)),
                _ => (DebounceState::Draining { trigger }, DebounceAction::TryReceive),
            },
        };
        self.state = next;
        action
    }
}

proof fn lemma_drain(f: GlobsetFilterer, window: u64, trigger: ChangeEvent, buffered: Seq<ChangeEvent>)
    ensures
        run_inputs(f, window, DebounceState::Draining { trigger }, drain_inputs(buffered)).0
            is Waiting,
        fire_count(
            run_inputs(f, window, DebounceState::Draining { trigger }, drain_inputs(buffered)).1,
        ) == 1,
        run_inputs(f, window, DebounceState::Draining { trigger }, drain_inputs(buffered)).1.last()
            == DebounceAction::Fire(trigger),
    decreases buffered.len(),
{
    let inputs = drain_inputs(buffered);
    let s = DebounceState::Draining { trigger };
    if buffered.len() == 0 {
        assert(inputs.len() == 1 && inputs[0] == DebounceInput::Drained);
        assert(inputs.drop_first() =~= Seq::<DebounceInput>::empty());
        assert(run_inputs(f, window, DebounceState::Waiting, inputs.drop_first()).1 =~= Seq::<
            DebounceAction,
        >::empty());
        let acts = run_inputs(f, window, s, inputs).1;
        assert(acts =~= seq![DebounceAction::Fire(trigger)]);
        assert(fire_count(acts.drop_first()) == 0);
    } else {
        assert(inputs[0] == DebounceInput::Received(buffered[0]));
        assert(inputs.drop_first() =~= drain_inputs(buffered.drop_first()));
        lemma_drain(f, window, trigger, buffered.drop_first());
        let rest = run_inputs(f, window, s, inputs.drop_first()).1;
        let acts = run_inputs(f, window, s, inputs).1;
        assert(acts == seq![DebounceAction::TryReceive] + rest);
        assert(acts.drop_first() =~= rest);
        assert(fire_count(acts) == fire_count(rest));
    }
}

/// A burst of notifications whose first one is relevant, and all of whose
/// later ones arrive within the quiescence window, yields exactly one
/// trigger: the first notification. The debouncer then waits again.
pub proof fn lemma_burst_fires_once(
    f: GlobsetFilterer,
    window: u64,
    first: ChangeEvent,
    later: Seq<ChangeEvent>,
)
    requires
        f.accepts(first.paths@),
    ensures
        run_inputs(f, window, DebounceState::Waiting, burst_inputs(first, later)).0 is Waiting,
        fire_count(run_inputs(f, window, DebounceState::Waiting, burst_inputs(first, later)).1)
            == 1,
        run_inputs(f, window, DebounceState::Waiting, burst_inputs(first, later)).1.last()
            == DebounceAction::Fire(first),
{
    let inputs = burst_inputs(first, later);
    let d = DebounceState::Draining { trigger: first };
    lemma_drain(f, window, first, later);
    assert(inputs[0] == DebounceInput::Received(first));
    assert(inputs.drop_first()[0] == DebounceInput::WindowElapsed);
    assert(inputs.drop_first().drop_first() =~= drain_inputs(later));
    let tail = run_inputs(f, window, d, drain_inputs(later)).1;
    let mid = run_inputs(
        f,
        window,
        DebounceState::Settling { trigger: first },
        inputs.drop_first(),
    ).1;
    assert(mid == seq![DebounceAction::TryReceive] + tail);
    assert(mid.drop_first() =~= tail);
    assert(fire_count(mid) == fire_count(tail));
    let acts = run_inputs(f, window, DebounceState::Waiting, inputs).1;
    assert(acts == seq![DebounceAction::Sleep { millis: window }] + mid);
    assert(acts.drop_first() =~= mid);
    assert(fire_count(acts) == fire_count(mid));
}

} // verus!
