//! The value cell: the current snapshot and the single-flight gate in front
//! of the store lookup that fills it.
use std::sync::Arc;
use vstd::prelude::*;

use crate::error::MConfigError;

verus! {

/// What a caller of `get` does next.
pub enum GetAction<T> {
    /// No snapshot and no lookup in flight: this caller performs the lookup.
    Fetch,
    /// A lookup is in flight: wait for its outcome, which is shared.
    Wait,
    /// The cell holds a snapshot: this is it.
    Ready(Arc<T>),
}

/// The decision for one `get`, and whether the watch loop is to be started
/// now.
pub struct GetStep<T> {
    pub action: GetAction<T>,
    pub start_watcher: bool,
}

/// The cache's shared state. The snapshot is replaced wholesale, never
/// mutated, so a handle handed out earlier keeps the value it had.
pub struct ValueCell<T> {
    pub snapshot: Option<Arc<T>>,
    pub in_flight: bool,
    pub watcher_started: bool,
    pub closed: bool,
    pub notify: bool,
    /// How many store lookups this cell has asked for.
    pub lookups: Ghost<nat>,
}

impl<T> ValueCell<T> {
    pub open spec fn get_action(self) -> GetAction<T> {
        match self.snapshot {
            Some(s) => GetAction::Ready(s),
            None => if self.in_flight {
                GetAction::Wait
            } else {
                GetAction::Fetch
            },
        }
    }

    pub open spec fn starts_fetch(self) -> bool {
        self.snapshot is None && !self.in_flight
    }

    pub open spec fn starts_watcher(self) -> bool {
        self.starts_fetch() && !self.watcher_started && !self.closed
    }

    pub open spec fn after_get(self) -> Self {
        if self.starts_fetch() {
            ValueCell {
                snapshot: self.snapshot,
                in_flight: true,
                watcher_started: self.watcher_started || !self.closed,
                closed: self.closed,
                notify: self.notify,
                lookups: Ghost(self.lookups@ + 1),
            }
        } else {
            self
        }
    }

    pub open spec fn after_fetch(self, outcome: Result<Arc<T>, MConfigError>) -> Self {
        ValueCell {
            snapshot: match outcome {
                Ok(v) => Some(v),
                Err(_) => self.snapshot,
            },
            in_flight: false,
            ..self
        }
    }

    pub open spec fn after_change(self, v: Arc<T>) -> Self {
        ValueCell { snapshot: Some(v), ..self }
    }

    pub open spec fn publishes(self) -> bool {
        self.notify && !self.closed
    }

    pub open spec fn after_close(self) -> Self {
        ValueCell { closed: true, ..self }
    }

    /// A cell with no snapshot, no lookup in flight and no watch loop.
    pub fn new(notify: bool) -> (r: Self)
        ensures
            r.snapshot is None,
            !r.in_flight,
            !r.watcher_started,
            !r.closed,
            r.notify == notify,
            r.lookups@ == 0,
    {
        ValueCell {
            snapshot: None,
            in_flight: false,
            watcher_started: false,
            closed: false,
            notify,
            lookups: Ghost(0),
        }
    }

    /// Decides what one `get` does: return the snapshot, wait for the lookup
    /// in flight, or start the one lookup (and, the first time, the watch
    /// loop, unless the cell was closed).
    pub fn begin_get(&mut self) -> (r: GetStep<T>)
        ensures
            r.action == old(self).get_action(),
            r.start_watcher == old(self).starts_watcher(),
            *final(self) == old(self).after_get(),
    {
        match &self.snapshot {
            Some(s) => {
                return GetStep { action: GetAction::Ready(s.clone()), start_watcher: false };
            },
            None => {},
        }
        if self.in_flight {
            return GetStep { action: GetAction::Wait, start_watcher: false };
        }
        let start_watcher = !self.watcher_started && !self.closed;
        self.in_flight = true;
        if start_watcher {
            self.watcher_started = true;
        }
        self.lookups = Ghost(self.lookups@ + 1);
        GetStep { action: GetAction::Fetch, start_watcher }
    }

    /// Records the outcome of the lookup in flight and returns it, to be
    /// handed to its caller and to every caller that waited for it. A value
    /// found becomes the snapshot; a failure leaves the cell as it was, so
    /// the next `get` looks up again.
    pub fn finish_fetch(&mut self, outcome: Result<Arc<T>, MConfigError>) -> (r: Result<
        Arc<T>,
        MConfigError,
    >)
        requires
            old(self).in_flight,
        ensures
            r == outcome,
            *final(self) == old(self).after_fetch(outcome),
    {
        self.in_flight = false;
        match &outcome {
            Ok(v) => {
                self.snapshot = Some(v.clone());
            },
            Err(_) => {},
        }
        outcome
    }

    /// Replaces the snapshot with a value from the change feed; returns
    /// whether it is to be published to subscribers.
    pub fn apply_change(&mut self, v: Arc<T>) -> (publish: bool)
        ensures
            *final(self) == old(self).after_change(v),
            publish == old(self).publishes(),
    {
        self.snapshot = Some(v);
        self.notify && !self.closed
    }

    /// Closes the cell; returns whether a running watch loop is to be
    /// cancelled now. Closing twice cancels nothing the second time.
    pub fn close(&mut self) -> (cancel: bool)
        ensures
            *final(self) == old(self).after_close(),
            cancel == (old(self).watcher_started && !old(self).closed),
    {
        let cancel = self.watcher_started && !self.closed;
        self.closed = true;
        cancel
    }
}

/// The cell after `n` calls of `get`, none of whose lookups has settled.
pub open spec fn gets<T>(c: ValueCell<T>, n: nat) -> ValueCell<T>
    decreases n,
{
    if n == 0 {
        c
    } else {
        gets(c, (n - 1) as nat).after_get()
    }
}

proof fn lemma_gets_after_first<T>(c: ValueCell<T>, n: nat)
    requires
        c.starts_fetch(),
        n >= 1,
    ensures
        gets(c, n) == c.after_get(),
    decreases n,
{
    assert(c.after_get().after_get() == c.after_get());
    if n > 1 {
        lemma_gets_after_first(c, (n - 1) as nat);
    } else {
        assert(gets(c, 0) == c);
    }
}

/// Single flight: of any number of `get` calls made while the cell has no
/// snapshot and no lookup in flight, the first starts the one store lookup
/// and every later one waits for it; exactly one lookup is asked for. When
/// it settles with a value, that value is what every `get` then returns.
pub proof fn lemma_single_flight<T>(
    c: ValueCell<T>,
    n: nat,
    outcome: Result<Arc<T>, MConfigError>,
)
    requires
        c.starts_fetch(),
        n >= 1,
    ensures
        c.get_action() is Fetch,
        forall|i: nat| 1 <= i < n ==> (#[trigger] gets(c, i)).get_action() is Wait,
        gets(c, n).lookups@ == c.lookups@ + 1,
        gets(c, n).in_flight,
        outcome matches Ok(v) ==> gets(c, n).after_fetch(outcome).get_action() == GetAction::Ready(
            v,
        ),
{
    lemma_gets_after_first(c, n);
    assert forall|i: nat| 1 <= i < n implies (#[trigger] gets(c, i)).get_action() is Wait by {
        lemma_gets_after_first(c, i);
    }
}

/// While the key has no record, a `get` on a cell without a snapshot fails
/// with `KeyNotExists` and leaves the cell ready to look up again, so the
/// next `get` asks the store once more; once the record is there, the lookup
/// fills the cell and later calls of `get` return its value.
pub proof fn lemma_missing_key_retried<T>(c: ValueCell<T>, e: MConfigError, v: Arc<T>)
    requires
        c.starts_fetch(),
        e.is_key_not_found(),
    ensures
        c.after_get().after_fetch(Err(e)).starts_fetch(),
        c.after_get().after_fetch(Err(e)).get_action() is Fetch,
        c.after_get().after_fetch(Err(e)).after_get().lookups@ == c.lookups@ + 2,
        c.after_get().after_fetch(Ok(v)).get_action() == GetAction::Ready(v),
{
}

/// A change seen after the cell holds snapshot `h` makes every later `get`
/// return the new value `v`, however many calls come; `h`, handed out
/// earlier, is not touched.
pub proof fn lemma_change_replaces_snapshot<T>(c: ValueCell<T>, h: Arc<T>, v: Arc<T>, n: nat)
    requires
        c.snapshot == Some(h),
    ensures
        c.get_action() == GetAction::Ready(h),
        gets(c.after_change(v), n).get_action() == GetAction::Ready(v),
        gets(c.after_change(v), n).lookups@ == c.lookups@,
    decreases n,
{
    if n > 0 {
        lemma_change_replaces_snapshot(c, h, v, (n - 1) as nat);
    }
}

/// A closed cell starts no watch loop and publishes no change, whatever
/// happens to it next.
pub proof fn lemma_closed_cell_is_quiet<T>(c: ValueCell<T>, v: Arc<T>)
    requires
        c.closed,
    ensures
        !c.starts_watcher(),
        !c.publishes(),
        !c.after_get().starts_watcher(),
        !c.after_change(v).publishes(),
        !c.after_close().publishes(),
{
}

} // verus!
