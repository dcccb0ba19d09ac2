//! Signals that the widget tree sends to its window.
//!
//! The widget tree appends signals to a buffer at any time, also while earlier
//! ones are being acted upon. The handler takes the whole buffer at once and acts
//! on the signals in the order in which they were sent.

use vstd::prelude::*;

verus! {

/// A signal of the widget tree, with what the handler needs of it: actions `A`,
/// widget identifiers `W`, new layers `L` and positions `P`.
pub enum RootSignal<A, W, L, P> {
    Action(A, W),
    NewLayer(L, P),
    RemoveLayer(W),
    RepositionLayer(W, P),
    RequestRedraw,
    RequestAnimFrame,
    SetCursor,
    SetSize,
    SetTitle,
    DragWindow,
    DragResizeWindow,
    ToggleMaximized,
    Minimize,
    ShowWindowMenu,
    StartIme,
    EndIme,
    ImeMoved,
    ClipboardStore,
    TakeFocus,
    Exit,
    WidgetSelectedInInspector,
}

/// What to do about a signal.
pub enum SignalStep<A, W, L, P> {
    /// Hand the action of a widget to the driver.
    HandleAction { widget: W, action: A },
    /// Add a layer to the widget tree.
    AddLayer { layer: L, position: P },
    /// Remove a layer from the widget tree.
    RemoveLayer { widget: W },
    /// Move a layer of the widget tree.
    RepositionLayer { widget: W, position: P },
}

/// What is to be done about one signal, if anything. A plugin's window is redrawn
/// by its frame cycle, and its size, title, cursor, focus and life belong to the
/// host, so the signals about those ask for nothing; neither do those about input
/// methods, the clipboard and the inspector.
pub open spec fn step_for<A, W, L, P>(signal: RootSignal<A, W, L, P>) -> Option<
    SignalStep<A, W, L, P>,
> {
    match signal {
        RootSignal::Action(action, widget) => Some(SignalStep::HandleAction { widget, action }),
        RootSignal::NewLayer(layer, position) => Some(SignalStep::AddLayer { layer, position }),
        RootSignal::RemoveLayer(widget) => Some(SignalStep::RemoveLayer { widget }),
        RootSignal::RepositionLayer(widget, position) => Some(
            SignalStep::RepositionLayer { widget, position },
        ),
        _ => None,
    }
}

/// What is to be done about a sequence of signals, in their order.
pub open spec fn steps_for<A, W, L, P>(signals: Seq<RootSignal<A, W, L, P>>) -> Seq<
    SignalStep<A, W, L, P>,
>
    decreases signals.len(),
{
    if signals.len() == 0 {
        Seq::empty()
    } else {
        let earlier = steps_for(signals.drop_last());
        match step_for(signals.last()) {
            Some(step) => earlier.push(step),
            None => earlier,
        }
    }
}

/// Decides what to do about one signal.
pub fn signal_step<A, W, L, P>(signal: RootSignal<A, W, L, P>) -> (step: Option<
    SignalStep<A, W, L, P>,
>)
    ensures
        signal matches RootSignal::Action(a, w) ==> step == Some(
            SignalStep::<A, W, L, P>::HandleAction { widget: w, action: a },
        ),
        signal matches RootSignal::NewLayer(l, p) ==> step == Some(
            SignalStep::<A, W, L, P>::AddLayer { layer: l, position: p },
        ),
        signal matches RootSignal::RemoveLayer(w) ==> step == Some(
            SignalStep::<A, W, L, P>::RemoveLayer { widget: w },
        ),
        signal matches RootSignal::RepositionLayer(w, p) ==> step == Some(
            SignalStep::<A, W, L, P>::RepositionLayer { widget: w, position: p },
        ),
        step is Some <==> signal is Action || signal is NewLayer || signal is RemoveLayer || signal
            is RepositionLayer,
        step == step_for(signal),
{
    match signal {
        RootSignal::Action(action, widget) => Some(SignalStep::HandleAction { widget, action }),
        RootSignal::NewLayer(layer, position) => Some(SignalStep::AddLayer { layer, position }),
        RootSignal::RemoveLayer(widget) => Some(SignalStep::RemoveLayer { widget }),
        RootSignal::RepositionLayer(widget, position) => Some(
            SignalStep::RepositionLayer { widget, position },
        ),
        // The frame cycle redraws anyway.
        RootSignal::RequestRedraw | RootSignal::RequestAnimFrame => None,
        // The cursor cannot be changed inside a plugin window.
        RootSignal::SetCursor => None,
        // The host manages the window.
        RootSignal::SetSize
        | RootSignal::SetTitle
        | RootSignal::DragWindow
        | RootSignal::DragResizeWindow
        | RootSignal::ToggleMaximized
        | RootSignal::Minimize
        | RootSignal::ShowWindowMenu => None,
        // Input methods and the clipboard are not supported.
        RootSignal::StartIme | RootSignal::EndIme | RootSignal::ImeMoved => None,
        RootSignal::ClipboardStore => None,
        // The host decides about focus and about the window's end.
        RootSignal::TakeFocus | RootSignal::Exit => None,
        RootSignal::WidgetSelectedInInspector => None,
    }
}

/// Decides what to do about a batch of signals, in their order.
pub fn process_signals<A, W, L, P>(signals: Vec<RootSignal<A, W, L, P>>) -> (steps: Vec<
    SignalStep<A, W, L, P>,
>)
    ensures
        steps@ == steps_for(signals@),
{
    let mut steps: Vec<SignalStep<A, W, L, P>> = Vec::new();
    let ghost all = signals@;
    for signal in it: signals
        invariant
            it.seq() == all,
            steps@ == steps_for(all.take(it.index() as int)),
    {
        proof {
            let i = it.index() as int;
            assert(all.take(i + 1).drop_last() =~= all.take(i));
        }
        if let Some(step) = signal_step(signal) {
            steps.push(step);
        }
    }
    assert(all.take(all.len() as int) =~= all);
    steps
}

/// The signals sent since the buffer was last taken, in the order of sending.
pub struct PendingSignals<S> {
    pending: Vec<S>,
}

impl<S> View for PendingSignals<S> {
    type V = Seq<S>;

    closed spec fn view(&self) -> Seq<S> {
        self.pending@
    }
}

impl<S> PendingSignals<S> {
    /// An empty buffer.
    pub fn new() -> (signals: PendingSignals<S>)
        ensures
            signals@ == Seq::<S>::empty(),
    {
        PendingSignals { pending: Vec::new() }
    }

    /// Appends a signal.
    pub fn push(&mut self, signal: S)
        ensures
            final(self)@ == old(self)@.push(signal),
    {
        self.pending.push(signal);
    }

    /// Takes all signals and leaves the buffer empty.
    pub fn take(&mut self) -> (signals: Vec<S>)
        ensures
            signals@ == old(self)@,
            final(self)@ == Seq::<S>::empty(),
    {
        let mut taken: Vec<S> = Vec::new();
        std::mem::swap(&mut taken, &mut self.pending);
        taken
    }
}

/// A use of the buffer: a signal is sent, or all are taken.
pub enum BufferUse<S> {
    Push(S),
    Take,
}

/// The signals taken so far and those still pending, after a sequence of uses of
/// a buffer that was empty at first.
pub open spec fn taken_and_pending<S>(uses: Seq<BufferUse<S>>) -> (Seq<S>, Seq<S>)
    decreases uses.len(),
{
    if uses.len() == 0 {
        (Seq::empty(), Seq::empty())
    } else {
        let (taken, pending) = taken_and_pending(uses.drop_last());
        match uses.last() {
            BufferUse::Push(signal) => (taken, pending.push(signal)),
            BufferUse::Take => (taken + pending, Seq::empty()),
        }
    }
}

/// The signals sent in a sequence of uses.
pub open spec fn sent<S>(uses: Seq<BufferUse<S>>) -> Seq<S>
    decreases uses.len(),
{
    if uses.len() == 0 {
        Seq::empty()
    } else {
        match uses.last() {
            BufferUse::Push(signal) => sent(uses.drop_last()).push(signal),
            BufferUse::Take => sent(uses.drop_last()),
        }
    }
}

/// No signal is lost, taken twice or taken out of order, however sending and
/// taking interleave: what was taken, followed by what is pending, is what was
/// sent.
pub proof fn law_every_signal_is_taken_once<S>(uses: Seq<BufferUse<S>>)
    ensures
        taken_and_pending(uses).0 + taken_and_pending(uses).1 == sent(uses),
    decreases uses.len(),
{
    if uses.len() > 0 {
        law_every_signal_is_taken_once(uses.drop_last());
    }
    assert(taken_and_pending(uses).0 + taken_and_pending(uses).1 =~= sent(uses));
}

/// Signals are acted upon in the order in which they were sent: what is done
/// about one batch and then about another is what is done about both at once.
pub proof fn law_steps_keep_order<A, W, L, P>(
    first: Seq<RootSignal<A, W, L, P>>,
    second: Seq<RootSignal<A, W, L, P>>,
)
    ensures
        steps_for(first + second) == steps_for(first) + steps_for(second),
    decreases second.len(),
{
    if second.len() == 0 {
        assert(first + second =~= first);
        assert(steps_for(first) + steps_for(second) =~= steps_for(first));
    } else {
        law_steps_keep_order(first, second.drop_last());
        assert((first + second).drop_last() =~= first + second.drop_last());
        assert((first + second).last() == second.last());
        assert(steps_for(first + second) =~= steps_for(first) + steps_for(second));
    }
}

/// A batch asks for at most one step per signal, and for none if every signal in
/// it is one that asks for nothing.
pub proof fn law_steps_come_from_signals<A, W, L, P>(signals: Seq<RootSignal<A, W, L, P>>)
    ensures
        steps_for(signals).len() <= signals.len(),
        (forall|i: int| 0 <= i < signals.len() ==> step_for(#[trigger] signals[i]) is None)
            ==> steps_for(signals).len() == 0,
        forall|j: int|
            0 <= j < steps_for(signals).len() ==> exists|i: int|
                0 <= i < signals.len() && step_for(#[trigger] signals[i]) == Some(
                    #[trigger] steps_for(signals)[j],
                ),
    decreases signals.len(),
{
    if signals.len() > 0 {
        let before = signals.drop_last();
        law_steps_come_from_signals(before);
        assert forall|i: int| 0 <= i < before.len() implies before[i] == #[trigger] signals[i] by {}
        let last = signals.len() - 1;
        assert(signals[last] == signals.last());
        assert forall|j: int| 0 <= j < steps_for(signals).len() implies exists|i: int|
            0 <= i < signals.len() && step_for(#[trigger] signals[i]) == Some(
                #[trigger] steps_for(signals)[j],
            ) by {
            if j < steps_for(before).len() {
                assert(steps_for(signals)[j] == steps_for(before)[j]);
                let i = choose|i: int|
                    0 <= i < before.len() && step_for(#[trigger] before[i]) == Some(
                        steps_for(before)[j],
                    );
                assert(step_for(signals[i]) == Some(steps_for(signals)[j]));
            } else {
                assert(step_for(signals[last]) == Some(steps_for(signals)[j]));
            }
        }
    }
}

/// A signal that comes after others adds its own step at the end, with what it
/// carries, and leaves the steps for the others as they are: an action goes to the
/// driver with its widget, a layer is added, removed or moved.
pub proof fn law_asking_signals_add_their_step<A, W, L, P>(
    before: Seq<RootSignal<A, W, L, P>>,
    action: A,
    widget: W,
    layer: L,
    position: P,
)
    ensures
        steps_for(before.push(RootSignal::Action(action, widget))) == steps_for(before).push(
            SignalStep::HandleAction { widget, action },
        ),
        steps_for(before.push(RootSignal::NewLayer(layer, position))) == steps_for(before).push(
            SignalStep::AddLayer { layer, position },
        ),
        steps_for(before.push(RootSignal::RemoveLayer(widget))) == steps_for(before).push(
            SignalStep::RemoveLayer { widget },
        ),
        steps_for(before.push(RootSignal::RepositionLayer(widget, position))) == steps_for(
            before,
        ).push(SignalStep::RepositionLayer { widget, position }),
{
    assert(before.push(RootSignal::Action(action, widget)).drop_last() =~= before);
    assert(before.push(RootSignal::NewLayer(layer, position)).drop_last() =~= before);
    assert(before.push(RootSignal::RemoveLayer(widget)).drop_last() =~= before);
    assert(before.push(RootSignal::RepositionLayer(widget, position)).drop_last() =~= before);
}

/// A signal that is neither an action nor about a layer changes nothing in what is
/// done about the signals before it.
pub proof fn law_quiet_signals_add_nothing<A, W, L, P>(
    before: Seq<RootSignal<A, W, L, P>>,
    signal: RootSignal<A, W, L, P>,
)
    requires
        signal !is Action,
        signal !is NewLayer,
        signal !is RemoveLayer,
        signal !is RepositionLayer,
    ensures
        steps_for(before.push(signal)) == steps_for(before),
        steps_for(Seq::<RootSignal<A, W, L, P>>::empty()).len() == 0,
{
    assert(before.push(signal).drop_last() =~= before);
}

} // verus!
