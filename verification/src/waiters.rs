//! The registry of per-window waiters.
//!
//! A `FocusWaiter` holds one window's wait bookkeeping: the pending one-shot
//! sender (at most one wait may be pending per window), the phase of the
//! current cycle, and whether the window's event listener has been
//! installed. A `WaiterRegistry` maps window labels to waiters, one waiter
//! per label, and is pruned when a window is destroyed.
//!
//! Contracts are stated over a ghost model: `WaiterM` records what a waiter
//! is (its label, whether a wait is pending, its phase, its listener flag),
//! and every operation says exactly which model the registry is left with.

use vstd::prelude::*;

use crate::channel::{recv_signal_with_timeout, send_signal, signal_channel};
use crate::error::Error;
use crate::focus::{event_signals, phase_after, FocusEvent, FocusPhase, FocusState};
use crate::FOCUS_WAIT_TIMEOUT_MS;

verus! {

/// The ghost model of one waiter: everything the contracts speak of.
pub struct WaiterM {
    pub label: Seq<char>,
    pub pending: bool,
    pub phase: FocusPhase,
    pub listener: bool,
}

/// One window's wait bookkeeping.
pub struct FocusWaiter {
    pub label: String,
    pub pending: Option<std::sync::mpsc::Sender<()>>,
    pub state: FocusState,
    pub listener_registered: bool,
}

impl FocusWaiter {
    /// What this waiter is, as the contracts see it.
    pub open spec fn model(&self) -> WaiterM {
        WaiterM {
            label: self.label@,
            pending: self.pending is Some,
            phase: self.state.phase,
            listener: self.listener_registered,
        }
    }

    /// A fresh waiter for a window: nothing pending, a cycle waiting for
    /// focus loss, no listener installed yet.
    pub fn new(label: String) -> (w: Self)
        ensures
            w.model() == fresh_waiter(label@),
    {
        Self {
            label,
            pending: None,
            state: FocusState::new(),
            listener_registered: false,
        }
    }
}

/// The model of a waiter just created for a window.
pub open spec fn fresh_waiter(label: Seq<char>) -> WaiterM {
    WaiterM { label, pending: false, phase: FocusPhase::WaitingForLoss, listener: false }
}

/// The model of a waiter whose wait has just begun.
pub open spec fn begun_waiter(label: Seq<char>, listener: bool) -> WaiterM {
    WaiterM { label, pending: true, phase: FocusPhase::WaitingForLoss, listener }
}

/// The model of a waiter after its pending slot was cleared and its cycle
/// forced over.
pub open spec fn cleared_waiter(w: WaiterM) -> WaiterM {
    WaiterM { label: w.label, pending: false, phase: FocusPhase::Completed, listener: w.listener }
}

/// The model of a waiter after it reacted to an event: the phase advances
/// by the state machine, and a signalling event takes the pending sender.
pub open spec fn waiter_after(w: WaiterM, e: FocusEvent) -> WaiterM {
    WaiterM {
        label: w.label,
        pending: w.pending && !event_signals(w.phase, e),
        phase: phase_after(w.phase, e),
        listener: w.listener,
    }
}

/// Whether some waiter in the model carries this label.
pub open spec fn has_label(m: Seq<WaiterM>, label: Seq<char>) -> bool {
    exists|i: int| 0 <= i < m.len() && m[i].label == label
}

/// The index of the waiter with this label (unique in a well-formed model).
pub open spec fn label_index(m: Seq<WaiterM>, label: Seq<char>) -> int {
    choose|i: int| 0 <= i < m.len() && m[i].label == label
}

/// Whether a wait is pending on the window with this label.
pub open spec fn has_pending_wait(m: Seq<WaiterM>, label: Seq<char>) -> bool {
    exists|i: int| 0 <= i < m.len() && m[i].label == label && m[i].pending
}

/// Whether the window with this label already has its listener installed.
pub open spec fn listener_installed(m: Seq<WaiterM>, label: Seq<char>) -> bool {
    has_label(m, label) && m[label_index(m, label)].listener
}

/// A well-formed registry model: one waiter per label, and a pending wait
/// is never in a completed cycle.
pub open spec fn registry_wf(m: Seq<WaiterM>) -> bool {
    &&& forall|i: int, j: int| 0 <= i < j < m.len() ==> m[i].label != m[j].label
    &&& forall|i: int| 0 <= i < m.len() ==> (m[i].pending ==> !(m[i].phase is Completed))
}

/// The model after a wait begins on a window: its waiter (created if the
/// window had none) is pending, in a fresh cycle, with the listener flag
/// set.
pub open spec fn model_after_begin(m: Seq<WaiterM>, label: Seq<char>) -> Seq<WaiterM> {
    if has_label(m, label) {
        m.update(label_index(m, label), begun_waiter(label, true))
    } else {
        m.push(begun_waiter(label, true))
    }
}

/// The model after an event reaches a window: no waiter, no change; a
/// destroyed window's waiter is dropped; any other event advances it.
pub open spec fn model_after_event(m: Seq<WaiterM>, label: Seq<char>, e: FocusEvent) -> Seq<
    WaiterM,
> {
    if !has_label(m, label) {
        m
    } else {
        let i = label_index(m, label);
        if e is Destroyed {
            m.remove(i)
        } else {
            m.update(i, waiter_after(m[i], e))
        }
    }
}

/// The model after a window's pending slot is cleared: its waiter, if any,
/// holds nothing pending and a completed cycle.
pub open spec fn model_after_clear(m: Seq<WaiterM>, label: Seq<char>) -> Seq<WaiterM> {
    if !has_label(m, label) {
        m
    } else {
        let i = label_index(m, label);
        m.update(i, cleared_waiter(m[i]))
    }
}

/// In a well-formed model, a label's index is the only one carrying it.
proof fn lemma_label_index_is(m: Seq<WaiterM>, label: Seq<char>, i: int)
    requires
        registry_wf(m),
        0 <= i < m.len(),
        m[i].label == label,
    ensures
        has_label(m, label),
        label_index(m, label) == i,
{
    assert(has_label(m, label));
    let j = label_index(m, label);
    if j < i {
        assert(m[j].label != m[i].label);
    } else if i < j {
        assert(m[i].label != m[j].label);
    }
}

/// Clear the window's pending slot and force its cycle over. Safe to call
/// whether or not anything is pending: a later stray signal then finds an
/// empty slot and is a no-op.
pub fn clear_pending(w: &mut FocusWaiter)
    ensures
        final(w).model() == cleared_waiter(old(w).model()),
{
    w.pending = None;
    w.state.mark_completed();
}

/// Advance the waiter's cycle by a focus change; true when the pending
/// wait is to be completed.
pub fn should_complete_on_focus(w: &mut FocusWaiter, focused: bool) -> (signal: bool)
    ensures
        final(w).model() == (WaiterM {
            phase: phase_after(old(w).model().phase, FocusEvent::FocusChanged(focused)),
            ..old(w).model()
        }),
        signal == event_signals(old(w).model().phase, FocusEvent::FocusChanged(focused)),
{
    w.state.on_focus_change(focused)
}

/// Advance the waiter's cycle by the window's destruction; always asks for
/// completion (an empty pending slot makes that a no-op).
pub fn should_complete_on_destroy(w: &mut FocusWaiter) -> (signal: bool)
    ensures
        final(w).model() == (WaiterM {
            phase: phase_after(old(w).model().phase, FocusEvent::Destroyed),
            ..old(w).model()
        }),
        signal == event_signals(old(w).model().phase, FocusEvent::Destroyed),
{
    w.state.on_destroyed()
}

/// Mark the window's event listener installed, idempotently: true exactly
/// on the first call for this waiter, when the caller must still register
/// the actual listener with the window.
pub fn ensure_focus_listener(w: &mut FocusWaiter) -> (install: bool)
    ensures
        final(w).model() == (WaiterM { listener: true, ..old(w).model() }),
        install == !old(w).model().listener,
{
    let install = !w.listener_registered;
    w.listener_registered = true;
    install
}

/// Complete the pending wait: take the pending sender, signal it if there
/// was one, and force the cycle over.
pub fn complete_wait(w: &mut FocusWaiter)
    ensures
        final(w).model() == cleared_waiter(old(w).model()),
{
    let tx = w.pending.take();
    if let Some(tx) = tx {
        send_signal(tx);
    }
    w.state.mark_completed();
}

/// Mapping to models commutes with updating one waiter.
proof fn lemma_model_update(s: Seq<FocusWaiter>, i: int, w: FocusWaiter)
    requires
        0 <= i < s.len(),
    ensures
        s.update(i, w).map_values(|x: FocusWaiter| x.model()) == s.map_values(
            |x: FocusWaiter| x.model(),
        ).update(i, w.model()),
{
    assert(s.update(i, w).map_values(|x: FocusWaiter| x.model()) =~= s.map_values(
        |x: FocusWaiter| x.model(),
    ).update(i, w.model()));
}

/// Mapping to models commutes with removing one waiter.
proof fn lemma_model_remove(s: Seq<FocusWaiter>, i: int)
    requires
        0 <= i < s.len(),
    ensures
        s.remove(i).map_values(|x: FocusWaiter| x.model()) == s.map_values(
            |x: FocusWaiter| x.model(),
        ).remove(i),
{
    assert(s.remove(i).map_values(|x: FocusWaiter| x.model()) =~= s.map_values(
        |x: FocusWaiter| x.model(),
    ).remove(i));
}

/// The registry: one waiter per window label.
pub struct WaiterRegistry {
    pub entries: Vec<FocusWaiter>,
}

impl WaiterRegistry {
    /// The models of the registered waiters, in registration order.
    pub open spec fn model(&self) -> Seq<WaiterM> {
        self.entries@.map_values(|w: FocusWaiter| w.model())
    }

    /// Well-formedness of the whole registry.
    pub open spec fn wf(&self) -> bool {
        registry_wf(self.model())
    }

    /// An empty registry.
    pub fn new() -> (r: Self)
        ensures
            r.wf(),
            r.model() == Seq::<WaiterM>::empty(),
    {
        let r = Self { entries: Vec::new() };
        proof {
            assert(r.model() =~= Seq::<WaiterM>::empty());
        }
        r
    }

    /// The index of the window's waiter, if it has one.
    fn find_index(&self, label: &String) -> (r: Option<usize>)
        ensures
            match r {
                Some(i) => i < self.entries.len() && self.model()[i as int].label == label@,
                None => !has_label(self.model(), label@),
            },
    {
        let ghost m = self.model();
        let n = self.entries.len();
        for i in 0..n
            invariant
                n == self.entries.len(),
                m == self.model(),
                forall|k: int| 0 <= k < i ==> m[k].label != label@,
        {
            assert(m[i as int] == self.entries@[i as int].model());
            if self.entries[i].label == *label {
                return Some(i);
            }
        }
        assert(!has_label(m, label@));
        None
    }

    /// Look up the window's waiter, creating one if the window has none:
    /// a waiter is created at most once per window.
    pub fn get_focus_waiter(&mut self, label: &String) -> (i: usize)
        requires
            old(self).wf(),
        ensures
            final(self).wf(),
            i < final(self).entries.len(),
            final(self).model()[i as int].label == label@,
            has_label(old(self).model(), label@) ==> final(self).model() == old(self).model()
                && i == label_index(old(self).model(), label@),
            !has_label(old(self).model(), label@) ==> final(self).model() == old(self).model().push(
                fresh_waiter(label@),
            ),
    {
        let ghost m0 = self.model();
        match self.find_index(label) {
            Some(i) => {
                proof {
                    lemma_label_index_is(m0, label@, i as int);
                }
                i
            },
            None => {
                let w = FocusWaiter::new(label.clone());
                self.entries.push(w);
                proof {
                    assert(self.model() =~= m0.push(fresh_waiter(label@)));
                    assert forall|p: int, q: int|
                        0 <= p < q < self.model().len() implies self.model()[p].label
                        != self.model()[q].label by {
                        if q == self.model().len() - 1 {
                            assert(!has_label(m0, label@));
                            assert(m0[p].label != label@);
                        }
                    }
                }
                self.entries.len() - 1
            },
        }
    }

    /// React to a focus change of the window: its waiter's cycle advances,
    /// and a focus gain after a seen loss completes the pending wait.
    pub fn handle_focus_event(&mut self, label: &String, focused: bool)
        requires
            old(self).wf(),
        ensures
            final(self).wf(),
            final(self).model() == model_after_event(
                old(self).model(),
                label@,
                FocusEvent::FocusChanged(focused),
            ),
    {
        let ghost m0 = self.model();
        let ghost e = FocusEvent::FocusChanged(focused);
        match self.find_index(label) {
            None => {},
            Some(i) => {
                proof {
                    lemma_label_index_is(m0, label@, i as int);
                }
                let w = &mut self.entries[i];
                let signal = should_complete_on_focus(w, focused);
                if signal {
                    complete_wait(w);
                }
                proof {
                    lemma_model_update(old(self).entries@, i as int, self.entries@[i as int]);
                    assert(self.model() =~= m0.update(i as int, waiter_after(m0[i as int], e)));
                }
            },
        }
    }

    /// React to the window's destruction: whatever is pending is completed,
    /// and the window's waiter leaves the registry.
    pub fn handle_destroyed(&mut self, label: &String)
        requires
            old(self).wf(),
        ensures
            final(self).wf(),
            final(self).model() == model_after_event(
                old(self).model(),
                label@,
                FocusEvent::Destroyed,
            ),
            !has_label(final(self).model(), label@),
    {
        let ghost m0 = self.model();
        match self.find_index(label) {
            None => {},
            Some(i) => {
                proof {
                    lemma_label_index_is(m0, label@, i as int);
                }
                let w = &mut self.entries[i];
                let signal = should_complete_on_destroy(w);
                if signal {
                    complete_wait(w);
                }
                proof {
                    lemma_model_update(old(self).entries@, i as int, self.entries@[i as int]);
                }
                let _ = self.entries.remove(i);
                proof {
                    lemma_model_remove(
                        old(self).entries@.update(i as int, self.entries@[i as int]),
                        i as int,
                    );
                    assert(self.model() =~= m0.remove(i as int));
                }
            },
        }
        proof {
            if has_label(self.model(), label@) {
                let j = label_index(self.model(), label@);
                assert(0 <= j < self.model().len() && self.model()[j].label == label@);
                assert(false);
            }
        }
    }

    /// React to the grace timer of the window's current cycle: a cycle that
    /// never saw a focus loss is force-completed; any other is left alone.
    pub fn handle_grace_elapsed(&mut self, label: &String)
        requires
            old(self).wf(),
        ensures
            final(self).wf(),
            final(self).model() == model_after_event(
                old(self).model(),
                label@,
                FocusEvent::GraceElapsed,
            ),
    {
        let ghost m0 = self.model();
        match self.find_index(label) {
            None => {},
            Some(i) => {
                proof {
                    lemma_label_index_is(m0, label@, i as int);
                }
                let w = &mut self.entries[i];
                let signal = w.state.on_grace_elapsed();
                if signal {
                    complete_wait(w);
                }
                proof {
                    lemma_model_update(old(self).entries@, i as int, self.entries@[i as int]);
                    assert(self.model() =~= m0.update(
                        i as int,
                        waiter_after(m0[i as int], FocusEvent::GraceElapsed),
                    ));
                }
            },
        }
    }

    /// Clear the window's pending slot without blocking, forcing its cycle
    /// over; a later stray signal then finds nothing and is a no-op.
    pub fn finish_wait(&mut self, label: &String)
        requires
            old(self).wf(),
        ensures
            final(self).wf(),
            final(self).model() == model_after_clear(old(self).model(), label@),
            !has_pending_wait(final(self).model(), label@),
    {
        let ghost m0 = self.model();
        match self.find_index(label) {
            None => {},
            Some(i) => {
                proof {
                    lemma_label_index_is(m0, label@, i as int);
                }
                let w = &mut self.entries[i];
                clear_pending(w);
                proof {
                    lemma_model_update(old(self).entries@, i as int, self.entries@[i as int]);
                    assert(self.model() =~= m0.update(i as int, cleared_waiter(m0[i as int])));
                }
            },
        }
        proof {
            let m = self.model();
            if has_pending_wait(m, label@) {
                let j = choose|j: int| 0 <= j < m.len() && m[j].label == label@ && m[j].pending;
                lemma_label_index_is(m0, label@, j);
            }
        }
    }

    /// Drop the window's waiter from the registry without completing it.
    pub fn remove_focus_waiter(&mut self, label: &String)
        requires
            old(self).wf(),
        ensures
            final(self).wf(),
            !has_label(final(self).model(), label@),
            has_label(old(self).model(), label@) ==> final(self).model() == old(
                self,
            ).model().remove(label_index(old(self).model(), label@)),
            !has_label(old(self).model(), label@) ==> final(self).model() == old(self).model(),
    {
        let ghost m0 = self.model();
        match self.find_index(label) {
            None => {},
            Some(i) => {
                proof {
                    lemma_label_index_is(m0, label@, i as int);
                    lemma_model_remove(old(self).entries@, i as int);
                }
                let _ = self.entries.remove(i);
            },
        }
        proof {
            if has_label(self.model(), label@) {
                let j = label_index(self.model(), label@);
                assert(0 <= j < self.model().len() && self.model()[j].label == label@);
                assert(false);
            }
        }
    }
}

/// Begin a wait on the window: look up or create its waiter, refuse with
/// `Busy` while a wait is already pending, and otherwise install a fresh
/// one-shot channel as pending and reset the cycle. The returned handle
/// says whether the caller still has to install the window's event
/// listener (true exactly once per window).
pub fn begin_focus_wait(reg: &mut WaiterRegistry, label: &String) -> (r: Result<
    FocusWaitHandle,
    Error,
>)
    requires
        old(reg).wf(),
    ensures
        final(reg).wf(),
        r is Err <==> has_pending_wait(old(reg).model(), label@),
        r is Err ==> (r->Err_0 is Busy) && final(reg).model() == old(reg).model(),
        r is Ok ==> final(reg).model() == model_after_begin(old(reg).model(), label@),
        r is Ok ==> has_pending_wait(final(reg).model(), label@),
        r is Ok ==> (r->Ok_0).window@ == label@,
        r is Ok ==> ((r->Ok_0).install_listener <==> !listener_installed(old(reg).model(), label@)),
{
    let ghost m0 = reg.model();
    let i = reg.get_focus_waiter(label);
    let ghost m1 = reg.model();
    let ghost e1 = reg.entries@;
    proof {
        lemma_label_index_is(m1, label@, i as int);
        if has_pending_wait(m0, label@) {
            let j = choose|j: int| 0 <= j < m0.len() && m0[j].label == label@ && m0[j].pending;
            lemma_label_index_is(m0, label@, j);
        }
    }
    let w = &mut reg.entries[i];
    if w.pending.is_some() {
        proof {
            assert(reg.model() =~= m1);
        }
        return Err(Error::Busy);
    }
    let install = ensure_focus_listener(w);
    let (tx, rx) = signal_channel();
    w.pending = Some(tx);
    w.state.reset();
    proof {
        lemma_model_update(e1, i as int, reg.entries@[i as int]);
        assert(reg.model() =~= model_after_begin(m0, label@));
        assert(has_pending_wait(reg.model(), label@)) by {
            assert(reg.model()[i as int].label == label@ && reg.model()[i as int].pending);
        }
    }
    Ok(FocusWaitHandle { window: label.clone(), install_listener: install, rx })
}

/// A caller's handle on one pending wait.
pub struct FocusWaitHandle {
    /// The label of the window the wait is pending on.
    pub window: String,
    /// Whether the caller still has to install the window's event listener;
    /// true exactly once per window.
    pub install_listener: bool,
    /// The receiving side of the one-shot completion channel.
    pub rx: std::sync::mpsc::Receiver<()>,
}

impl FocusWaitHandle {
    /// Block until the completion signal arrives, every sender is gone, or
    /// at most the given milliseconds have elapsed; the three outcomes are
    /// treated alike, as "done waiting". Returns the window's label so the
    /// caller can clear the pending slot with `WaiterRegistry::finish_wait`;
    /// the registry is not touched here, so no lock need be held while
    /// blocked.
    pub fn wait_with_timeout_ms(self, ms: u64) -> (label: String)
        ensures
            label@ == self.window@,
    {
        let _ = recv_signal_with_timeout(&self.rx, ms);
        self.window
    }

    /// Block as `wait_with_timeout_ms`, under the fixed hard timeout: the
    /// caller is released after at most that long, signal or no signal.
    /// The mechanism is advisory: it bounds the wait, it does not prove
    /// the dialog's outcome, so a dialog still open when the timeout fires
    /// reads as finished.
    pub fn wait(self) -> (label: String)
        ensures
            label@ == self.window@,
    {
        self.wait_with_timeout_ms(FOCUS_WAIT_TIMEOUT_MS)
    }

    /// Give the wait up without blocking, for when the native invocation
    /// fails before the dialog is shown: clears the pending slot, so any
    /// later stray signal is a no-op.
    pub fn cancel(self, reg: &mut WaiterRegistry)
        requires
            old(reg).wf(),
        ensures
            final(reg).wf(),
            final(reg).model() == model_after_clear(old(reg).model(), self.window@),
            !has_pending_wait(final(reg).model(), self.window@),
    {
        reg.finish_wait(&self.window);
    }
}

/// At most one pending wait per window: beginning a wait leaves the window
/// pending, so a further begin on the same window, by `begin_focus_wait`'s
/// contract, is refused with `Busy` until the wait is completed or cleared.
pub proof fn lemma_second_begin_refused(m: Seq<WaiterM>, label: Seq<char>)
    requires
        registry_wf(m),
    ensures
        has_pending_wait(model_after_begin(m, label), label),
{
    let m1 = model_after_begin(m, label);
    if has_label(m, label) {
        let i = label_index(m, label);
        assert(0 <= i < m.len() && m[i].label == label);
        assert(m1[i].label == label && m1[i].pending);
    } else {
        assert(m1[m.len() as int].label == label && m1[m.len() as int].pending);
    }
}

} // verus!
