use keyboard_types::Modifiers;
use xilem_baseview::event::{Event, MouseEvent, PointerEvent, WindowEvent};
use xilem_baseview::geometry::{LogicalSize, PhysicalSize, Point, WindowSize};
use xilem_baseview::handler::{
    base_color, event_steps, plan_resize, render_root_options, route, EventAction, EventStatus,
    EventStep, FrameAction, FrameEvent, ResizeStep, RootLayer, WindowSizePolicy, WindowState,
};
use xilem_baseview::input::MouseButton;
use xilem_baseview::render::PaintSettings;

fn size(width: u32, height: u32) -> PhysicalSize {
    PhysicalSize { width, height }
}

fn window_size(scale_factor: f64) -> WindowSize<f64> {
    WindowSize {
        physical: size(600, 400),
        logical: LogicalSize { width: 300.0, height: 200.0 },
        scale_factor,
    }
}

fn describe(steps: Vec<ResizeStep<f64>>) -> Vec<String> {
    steps
        .into_iter()
        .map(|step| match step {
            ResizeStep::ResizeSurface(s) => format!("surface {}x{}", s.width, s.height),
            ResizeStep::Rescale(scale) => format!("scale {scale}"),
            ResizeStep::Resize(s) => format!("size {}x{}", s.width, s.height),
        })
        .collect()
}

#[test]
fn a_resize_tells_the_new_scale_before_the_new_size() {
    let mut state = WindowState::<f64>::new(500.0, 400.0, 1.0);
    let steps = state.handle_resize(window_size(2.0));
    assert_eq!(describe(steps), vec!["scale 2", "size 600x400"]);
    assert_eq!((state.width, state.height, state.scale), (300.0, 200.0, 2.0));
    assert_eq!(state.translator.scale_factor(), 2.0);
}

#[test]
fn an_unchanged_scale_is_not_told() {
    let mut state = WindowState::<f64>::new(500.0, 400.0, 2.0);
    assert_eq!(describe(state.handle_resize(window_size(2.0))), vec!["size 600x400"]);
}

#[test]
fn an_existing_surface_is_resized_first() {
    let mut state = WindowState::<f64>::new(500.0, 400.0, 1.0);
    state.frame_step_at(FrameEvent::ContextCreated, 0);
    let steps = state.handle_resize(window_size(2.0));
    assert_eq!(describe(steps), vec!["surface 600x400", "scale 2", "size 600x400"]);
    let steps = state.handle_resize(window_size(2.0));
    assert_eq!(describe(steps), vec!["surface 600x400", "size 600x400"]);
}

#[test]
fn resize_plans_follow_their_arguments() {
    assert_eq!(describe(plan_resize(false, false, window_size(1.0))).len(), 1);
    assert_eq!(describe(plan_resize(true, true, window_size(1.0))).len(), 3);
}

#[test]
fn the_render_context_is_created_in_the_first_frame() {
    let mut state = WindowState::<f64>::new(500.0, 400.0, 1.0);
    assert!(!state.has_render_context);
    assert_eq!(
        state.frame_step_at(FrameEvent::Draw(size(500, 400)), 10),
        FrameAction::CreateContext(size(500, 400))
    );
    assert_eq!(state.frame_step_at(FrameEvent::ContextCreated, 20), FrameAction::Animate(20));
    assert_eq!(
        state.frame_step_at(FrameEvent::Redrawn(RootLayer::Scene), 30),
        FrameAction::Paint(PaintSettings { base_color: (30, 30, 35, 255), scale: 1.0 })
    );
    assert_eq!(state.frame_step_at(FrameEvent::Painted, 40), FrameAction::RequestRedraw);
    assert_eq!(
        state.frame_step_at(FrameEvent::Draw(size(500, 400)), 120),
        FrameAction::Animate(100)
    );
}

#[test]
fn a_failed_render_context_is_tried_again() {
    let mut state = WindowState::<f64>::new(500.0, 400.0, 1.0);
    for n in 0..3u128 {
        assert_eq!(
            state.frame_step_at(FrameEvent::Draw(size(0, 400)), n),
            FrameAction::CreateContext(size(1, 400))
        );
        assert_eq!(
            state.frame_step_at(FrameEvent::ContextFailed, n),
            FrameAction::RequestRedraw
        );
        assert!(!state.has_render_context);
        assert_eq!(state.last_frame, 0);
    }
}

#[test]
fn nothing_is_painted_without_a_root_scene() {
    let mut state = WindowState::<f64>::new(500.0, 400.0, 1.0);
    state.frame_step_at(FrameEvent::ContextCreated, 0);
    for root in [RootLayer::Missing, RootLayer::NotAScene] {
        assert_eq!(
            state.frame_step_at(FrameEvent::Redrawn(root), 0),
            FrameAction::RequestRedraw
        );
    }
}

#[test]
fn a_frame_is_painted_with_the_scale_of_the_latest_resize() {
    let mut state = WindowState::<f64>::new(500.0, 400.0, 1.0);
    state.frame_step_at(FrameEvent::ContextCreated, 0);
    state.handle_resize(window_size(2.5));
    assert_eq!(
        state.frame_step_at(FrameEvent::Redrawn(RootLayer::Scene), 0),
        FrameAction::Paint(PaintSettings { base_color: base_color(), scale: 2.5 })
    );
}

#[test]
fn the_clock_drives_frames() {
    let mut state = WindowState::<f64>::new(500.0, 400.0, 1.0);
    let before = state.last_frame;
    assert!(matches!(state.frame_step(FrameEvent::ContextCreated), FrameAction::Animate(_)));
    assert!(state.last_frame >= before);
}

#[test]
fn translated_events_are_captured() {
    let mut state = WindowState::<f64>::new(500.0, 400.0, 1.0);
    let (status, action) = state.on_event(Event::Mouse(MouseEvent::ButtonPressed {
        button: MouseButton::Left,
        modifiers: Modifiers::empty(),
        near_last_press: false,
    }));
    assert_eq!(status, EventStatus::Captured);
    assert!(matches!(action, Some(EventAction::HandlePointer(PointerEvent::Down(_)))));
    let (status, action) = state.on_event(Event::Mouse(MouseEvent::CursorMoved {
        position: Point { x: 1.0, y: 2.0 },
        modifiers: Modifiers::empty(),
    }));
    assert_eq!(status, EventStatus::Captured);
    assert!(matches!(action, Some(EventAction::HandlePointer(PointerEvent::Move(_)))));
}

#[test]
fn window_events_are_captured_and_leave_the_tree_alone() {
    let mut state = WindowState::<f64>::new(500.0, 400.0, 1.0);
    for event in [
        WindowEvent::Focused,
        WindowEvent::Unfocused,
        WindowEvent::WillClose,
        WindowEvent::Resized { physical_size: size(1, 1), scale: 1.0 },
    ] {
        let (status, action) = state.on_event(Event::Window(event));
        assert_eq!(status, EventStatus::Captured);
        assert!(matches!(action, Some(EventAction::Nothing)));
    }
}

#[test]
fn other_events_are_passed_on() {
    let mut state = WindowState::<f64>::new(500.0, 400.0, 1.0);
    let (status, action) = state.on_event(Event::Mouse(MouseEvent::Other));
    assert_eq!(status, EventStatus::Ignored);
    assert!(action.is_none());
    assert_eq!(route::<f64>(None).0, EventStatus::Ignored);
}

#[test]
fn signals_are_processed_after_captured_events_only() {
    let mut state = WindowState::<f64>::new(500.0, 400.0, 1.0);
    let (_, action) = state.on_event(Event::Mouse(MouseEvent::CursorEntered));
    let steps = event_steps(action);
    assert_eq!(steps.len(), 2);
    assert!(matches!(steps[0], EventStep::HandlePointer(PointerEvent::Enter(_))));
    assert!(matches!(steps[1], EventStep::ProcessSignals));

    let key = keyboard_types::KeyboardEvent::default();
    let (_, action) = state.on_event(Event::Keyboard(key.clone()));
    let steps = event_steps(action);
    assert_eq!(steps.len(), 2);
    assert!(matches!(&steps[0], EventStep::HandleText(text) if *text == key));
    assert!(matches!(steps[1], EventStep::ProcessSignals));

    let (_, action) = state.on_event(Event::Window(WindowEvent::Focused));
    let steps = event_steps(action);
    assert_eq!(steps.len(), 1);
    assert!(matches!(steps[0], EventStep::ProcessSignals));

    let (_, action) = state.on_event(Event::Mouse(MouseEvent::Other));
    assert!(event_steps(action).is_empty());
}

#[test]
fn a_widget_tree_gets_the_real_scale() {
    let options = render_root_options(size(0, 7), 2.0);
    assert!(options.use_system_fonts);
    assert_eq!(options.size_policy, WindowSizePolicy::User);
    assert_eq!(options.size, size(1, 7));
    assert_eq!(options.scale_factor, 2.0);
    assert!(options.test_font.is_none());
}

#[test]
fn the_background_is_dark() {
    assert_eq!(base_color(), (30, 30, 35, 255));
}
