use xilem_baseview::signal::{process_signals, signal_step, PendingSignals, RootSignal, SignalStep};

type Signal = RootSignal<&'static str, u32, &'static str, (i32, i32)>;

fn describe(steps: Vec<SignalStep<&'static str, u32, &'static str, (i32, i32)>>) -> Vec<String> {
    steps
        .into_iter()
        .map(|step| match step {
            SignalStep::HandleAction { widget, action } => format!("act {widget} {action}"),
            SignalStep::AddLayer { layer, position } => format!("add {layer} {position:?}"),
            SignalStep::RemoveLayer { widget } => format!("remove {widget}"),
            SignalStep::RepositionLayer { widget, position } => format!("move {widget} {position:?}"),
        })
        .collect()
}

fn quiet() -> Vec<Signal> {
    vec![
        RootSignal::RequestRedraw,
        RootSignal::RequestAnimFrame,
        RootSignal::SetCursor,
        RootSignal::SetSize,
        RootSignal::SetTitle,
        RootSignal::DragWindow,
        RootSignal::DragResizeWindow,
        RootSignal::ToggleMaximized,
        RootSignal::Minimize,
        RootSignal::ShowWindowMenu,
        RootSignal::StartIme,
        RootSignal::EndIme,
        RootSignal::ImeMoved,
        RootSignal::ClipboardStore,
        RootSignal::TakeFocus,
        RootSignal::Exit,
        RootSignal::WidgetSelectedInInspector,
    ]
}

#[test]
fn window_signals_ask_for_nothing() {
    for signal in quiet() {
        assert!(signal_step(signal).is_none());
    }
    assert!(process_signals(quiet()).is_empty());
}

#[test]
fn steps_keep_the_order_of_the_signals() {
    let mut signals: Vec<Signal> = vec![RootSignal::Action("click", 7)];
    signals.extend(quiet());
    signals.push(RootSignal::NewLayer("menu", (1, 2)));
    signals.push(RootSignal::RepositionLayer(8, (3, 4)));
    signals.extend(quiet());
    signals.push(RootSignal::RemoveLayer(8));
    assert_eq!(
        describe(process_signals(signals)),
        vec!["act 7 click", "add menu (1, 2)", "move 8 (3, 4)", "remove 8"]
    );
}

#[test]
fn two_batches_are_one_after_the_other() {
    let first: Vec<Signal> = vec![RootSignal::RemoveLayer(1), RootSignal::Exit];
    let second: Vec<Signal> = vec![RootSignal::StartIme, RootSignal::RemoveLayer(2)];
    let both: Vec<Signal> = vec![
        RootSignal::RemoveLayer(1),
        RootSignal::Exit,
        RootSignal::StartIme,
        RootSignal::RemoveLayer(2),
    ];
    let mut apart = describe(process_signals(first));
    apart.extend(describe(process_signals(second)));
    assert_eq!(apart, describe(process_signals(both)));
}

#[test]
fn signals_sent_after_a_take_wait_for_the_next() {
    let mut pending: PendingSignals<u32> = PendingSignals::new();
    assert!(pending.take().is_empty());
    pending.push(1);
    pending.push(2);
    assert_eq!(pending.take(), vec![1, 2]);
    pending.push(3);
    assert_eq!(pending.take(), vec![3]);
    assert!(pending.take().is_empty());
}
