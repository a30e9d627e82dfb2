//! The watch loop as a state machine: from a state and what happened to the
//! next state and what the caller does next.
use vstd::prelude::*;

use crate::handler::{actionable_value, is_actionable, ChangeEvent};

verus! {

/// Seconds to wait before opening the change feed again after it could not
/// be opened.
pub const RECONNECT_DELAY_SECS: u64 = 10;

/// Seconds between two checks that an open change feed is still alive.
pub const LIVENESS_SECS: u64 = 60;

#[derive(PartialEq, Eq, Structural, Clone, Copy, Debug)]
pub enum WatchState {
    /// Opening the change feed.
    Connecting,
    /// Waiting for the next event, or for the liveness timer.
    Streaming,
    /// Waiting out the delay after a failed open.
    Backoff,
    /// Cancelled with its handler; nothing more happens.
    Closed,
}

/// What the caller observed.
pub enum WatchEvent<V> {
    /// The change feed was opened.
    Opened,
    /// The change feed could not be opened.
    OpenFailed,
    /// The reconnect delay is over.
    DelayElapsed,
    /// The feed delivered an event.
    Change(ChangeEvent<V>),
    /// The liveness timer fired; the feed reported whether it is alive.
    LivenessTick { alive: bool },
    /// The feed ended or failed.
    StreamEnded,
    /// The handler was closed.
    Close,
}

/// What the caller does next.
pub enum WatchAction<V> {
    /// Open the change feed, filtered to the watched key.
    Open,
    /// Wait this many seconds, then report `DelayElapsed`.
    Sleep { secs: u64 },
    /// Wait for the next event, or for the liveness timer of `LIVENESS_SECS`.
    AwaitEvent,
    /// Store this value in the cell and publish it, then wait for the next
    /// event.
    Apply(V),
    /// Stop: the loop is over.
    Stop,
}

/// The action that resumes the loop in a state, where nothing new happened.
pub open spec fn resume_action<V>(s: WatchState) -> WatchAction<V> {
    match s {
        WatchState::Connecting => WatchAction::Open,
        WatchState::Streaming => WatchAction::AwaitEvent,
        WatchState::Backoff => WatchAction::Sleep { secs: RECONNECT_DELAY_SECS },
        WatchState::Closed => WatchAction::Stop,
    }
}

/// The transition of the watch loop of `key`.
pub open spec fn step_spec<V>(key: Seq<char>, s: WatchState, ev: WatchEvent<V>) -> (
    WatchState,
    WatchAction<V>,
) {
    if s == WatchState::Closed {
        (WatchState::Closed, WatchAction::Stop)
    } else {
        match ev {
            WatchEvent::Close => (WatchState::Closed, WatchAction::Stop),
            WatchEvent::Opened => if s == WatchState::Connecting {
                (WatchState::Streaming, WatchAction::AwaitEvent)
            } else {
                (s, resume_action(s))
            },
            WatchEvent::OpenFailed => if s == WatchState::Connecting {
                (WatchState::Backoff, WatchAction::Sleep { secs: RECONNECT_DELAY_SECS })
            } else {
                (s, resume_action(s))
            },
            WatchEvent::DelayElapsed => if s == WatchState::Backoff {
                (WatchState::Connecting, WatchAction::Open)
            } else {
                (s, resume_action(s))
            },
            WatchEvent::Change(c) => if s == WatchState::Streaming && is_actionable(key, c) {
                (WatchState::Streaming, WatchAction::Apply(c.new_value->Some_0.value))
            } else {
                (s, resume_action(s))
            },
            WatchEvent::LivenessTick { alive } => if s == WatchState::Streaming && !alive {
                (WatchState::Connecting, WatchAction::Open)
            } else {
                (s, resume_action(s))
            },
            WatchEvent::StreamEnded => if s == WatchState::Streaming {
                (WatchState::Connecting, WatchAction::Open)
            } else {
                (s, resume_action(s))
            },
        }
    }
}

/// The watch loop of one key.
pub struct WatchLoop {
    pub key: String,
    pub state: WatchState,
}

fn resume<V>(s: WatchState) -> (r: WatchAction<V>)
    ensures
        r == resume_action::<V>(s),
{
    match s {
        WatchState::Connecting => WatchAction::Open,
        WatchState::Streaming => WatchAction::AwaitEvent,
        WatchState::Backoff => WatchAction::Sleep { secs: RECONNECT_DELAY_SECS },
        WatchState::Closed => WatchAction::Stop,
    }
}

impl WatchLoop {
    /// A loop about to open the change feed of `key`; its first action is
    /// `Open`.
    pub fn new(key: String) -> (r: Self)
        ensures
            r.key == key,
            r.state == WatchState::Connecting,
    {
        WatchLoop { key, state: WatchState::Connecting }
    }

    /// Takes the loop one step on what the caller observed, and says what the
    /// caller does next.
    pub fn step<V>(&mut self, ev: WatchEvent<V>) -> (r: WatchAction<V>)
        ensures
            final(self).key == old(self).key,
            (final(self).state, r) == step_spec(old(self).key@, old(self).state, ev),
    {
        let s = self.state;
        if s == WatchState::Closed {
            return WatchAction::Stop;
        }
        match ev {
            WatchEvent::Close => {
                self.state = WatchState::Closed;
                WatchAction::Stop
            },
            WatchEvent::Opened => {
                if s == WatchState::Connecting {
                    self.state = WatchState::Streaming;
                    WatchAction::AwaitEvent
                } else {
                    resume(s)
                }
            },
            WatchEvent::OpenFailed => {
                if s == WatchState::Connecting {
                    self.state = WatchState::Backoff;
                    WatchAction::Sleep { secs: RECONNECT_DELAY_SECS }
                } else {
                    resume(s)
                }
            },
            WatchEvent::DelayElapsed => {
                if s == WatchState::Backoff {
                    self.state = WatchState::Connecting;
                    WatchAction::Open
                } else {
                    resume(s)
                }
            },
            WatchEvent::Change(c) => {
                if s != WatchState::Streaming {
                    return resume(s);
                }
                match actionable_value(&self.key, c) {
                    Some(v) => WatchAction::Apply(v),
                    None => WatchAction::AwaitEvent,
                }
            },
            WatchEvent::LivenessTick { alive } => {
                if s == WatchState::Streaming && !alive {
                    self.state = WatchState::Connecting;
                    WatchAction::Open
                } else {
                    resume(s)
                }
            },
            WatchEvent::StreamEnded => {
                if s == WatchState::Streaming {
                    self.state = WatchState::Connecting;
                    WatchAction::Open
                } else {
                    resume(s)
                }
            },
        }
    }
}

/// The loop of `key` run from state `s` over the events `evs`: its final
/// state and the action after each event.
pub open spec fn run<V>(key: Seq<char>, s: WatchState, evs: Seq<WatchEvent<V>>) -> (
    WatchState,
    Seq<WatchAction<V>>,
)
    decreases evs.len(),
{
    if evs.len() == 0 {
        (s, Seq::empty())
    } else {
        let (s1, a) = step_spec(key, s, evs[0]);
        let (sf, rest) = run(key, s1, evs.drop_first());
        (sf, seq![a] + rest)
    }
}

/// The values that the actions store and publish, in order.
pub open spec fn applied<V>(acts: Seq<WatchAction<V>>) -> Seq<V>
    decreases acts.len(),
{
    if acts.len() == 0 {
        Seq::empty()
    } else {
        let rest = applied(acts.drop_first());
        match acts[0] {
            WatchAction::Apply(v) => seq![v] + rest,
            _ => rest,
        }
    }
}

/// The new values of the events that change the value of `key`, in order.
pub open spec fn changed_values<V>(key: Seq<char>, evs: Seq<WatchEvent<V>>) -> Seq<V>
    decreases evs.len(),
{
    if evs.len() == 0 {
        Seq::empty()
    } else {
        let rest = changed_values(key, evs.drop_first());
        match evs[0] {
            WatchEvent::Change(c) => if is_actionable(key, c) {
                seq![c.new_value->Some_0.value] + rest
            } else {
                rest
            },
            _ => rest,
        }
    }
}

/// While the feed is open, each event that changes the value of the watched
/// key gives exactly one value to store and publish, the events' own, in the
/// order the feed delivered them; no other event gives one, and the loop
/// keeps streaming.
pub proof fn lemma_changes_applied_in_order<V>(key: Seq<char>, evs: Seq<WatchEvent<V>>)
    requires
        forall|i: int| 0 <= i < evs.len() ==> #[trigger] evs[i] is Change,
    ensures
        run(key, WatchState::Streaming, evs).0 == WatchState::Streaming,
        run(key, WatchState::Streaming, evs).1.len() == evs.len(),
        applied(run(key, WatchState::Streaming, evs).1) == changed_values(key, evs),
    decreases evs.len(),
{
    if evs.len() > 0 {
        let rest = evs.drop_first();
        assert forall|i: int| 0 <= i < rest.len() implies #[trigger] rest[i] is Change by {
            assert(rest[i] == evs[i + 1]);
        }
        lemma_changes_applied_in_order(key, rest);
        let (s1, a) = step_spec(key, WatchState::Streaming, evs[0]);
        let acts = run(key, WatchState::Streaming, evs).1;
        assert(acts.drop_first() =~= run(key, s1, rest).1);
    }
}

/// An event that is not an insert, update or replace of the watched key with
/// its new value leaves the loop where it was and stores and publishes
/// nothing.
pub proof fn lemma_ignored_change<V>(key: Seq<char>, s: WatchState, c: ChangeEvent<V>)
    requires
        !is_actionable(key, c),
    ensures
        step_spec(key, s, WatchEvent::Change(c)) == (s, resume_action::<V>(s)),
        !(step_spec(key, s, WatchEvent::Change(c)).1 is Apply),
{
}

/// Once closed, the loop stays closed whatever it is told: every action is
/// `Stop`, and nothing is stored or published.
pub proof fn lemma_closed_loop_stops<V>(key: Seq<char>, evs: Seq<WatchEvent<V>>)
    ensures
        run(key, WatchState::Closed, evs).0 == WatchState::Closed,
        forall|i: int|
            0 <= i < evs.len() ==> #[trigger] run(key, WatchState::Closed, evs).1[i]
                is Stop,
        run(key, WatchState::Closed, evs).1.len() == evs.len(),
        applied(run(key, WatchState::Closed, evs).1).len() == 0,
    decreases evs.len(),
{
    if evs.len() > 0 {
        let rest = evs.drop_first();
        lemma_closed_loop_stops(key, rest);
        let acts = run(key, WatchState::Closed, evs).1;
        assert(acts.drop_first() =~= run(key, WatchState::Closed, rest).1);
        assert forall|i: int| 0 <= i < evs.len() implies #[trigger] acts[i] is Stop by {
            if i > 0 {
                assert(acts[i] == run(key, WatchState::Closed, rest).1[i - 1]);
            }
        }
    }
}

/// Reconnecting: a feed that could not be opened is opened again only after
/// `RECONNECT_DELAY_SECS`; a feed that opened and then ended, or reported
/// itself dead at the liveness check, is opened again at once.
pub proof fn lemma_reconnect_policy<V>(key: Seq<char>)
    ensures
        run(key, WatchState::Connecting, seq![WatchEvent::<V>::OpenFailed, WatchEvent::DelayElapsed])
            == (WatchState::Connecting, seq![WatchAction::<V>::Sleep { secs: RECONNECT_DELAY_SECS }, WatchAction::Open]),
        step_spec(key, WatchState::Streaming, WatchEvent::<V>::StreamEnded) == (
            WatchState::Connecting,
            WatchAction::<V>::Open,
        ),
        step_spec(key, WatchState::Streaming, WatchEvent::<V>::LivenessTick { alive: false }) == (
            WatchState::Connecting,
            WatchAction::<V>::Open,
        ),
        step_spec(key, WatchState::Streaming, WatchEvent::<V>::LivenessTick { alive: true }) == (
            WatchState::Streaming,
            WatchAction::<V>::AwaitEvent,
        ),
{
    reveal_with_fuel(run, 3);
    let evs = seq![WatchEvent::<V>::OpenFailed, WatchEvent::DelayElapsed];
    assert(evs.drop_first() =~= seq![WatchEvent::<V>::DelayElapsed]);
    assert(evs.drop_first().drop_first() =~= Seq::<WatchEvent<V>>::empty());
    assert(run(key, WatchState::Backoff, evs.drop_first()).1 =~= seq![WatchAction::<V>::Open]);
    assert(run(key, WatchState::Connecting, evs).1 =~= seq![
        WatchAction::<V>::Sleep { secs: RECONNECT_DELAY_SECS },
        WatchAction::Open,
    ]);
}

/// Closing stops the loop from any state.
pub proof fn lemma_close_stops<V>(key: Seq<char>, s: WatchState)
    ensures
        step_spec(key, s, WatchEvent::<V>::Close) == (WatchState::Closed, WatchAction::<V>::Stop),
{
}

} // verus!
