use keyboard_types::{Code, Key, KeyState, Location, Modifiers, NamedKey};
use masonry::ui_events::pointer::PointerButton as HeldButton;
use xilem_baseview::event::{
    click_count_after, Event, EventTranslator, MasonryEvent, MouseEvent, PointerEvent,
    PointerInfo, PointerScrollDelta, PointerState, PointerType, ScrollDelta, WindowEvent,
    DOUBLE_CLICK_DISTANCE, DOUBLE_CLICK_TIME_MS, PRIMARY_POINTER,
};
use xilem_baseview::geometry::{PhysicalSize, Point};
use xilem_baseview::input::{MouseButton, PointerButton};

const MS: u128 = 1_000_000;

fn mouse() -> PointerInfo {
    PointerInfo {
        pointer_id: Some(1),
        persistent_device_id: None,
        pointer_type: PointerType::Mouse,
    }
}

fn press(button: MouseButton, near_last_press: bool) -> Event<f64> {
    Event::Mouse(MouseEvent::ButtonPressed {
        button,
        modifiers: Modifiers::empty(),
        near_last_press,
    })
}

fn release(button: MouseButton) -> Event<f64> {
    Event::Mouse(MouseEvent::ButtonReleased { button, modifiers: Modifiers::empty() })
}

fn move_to(x: f64, y: f64) -> Event<f64> {
    Event::Mouse(MouseEvent::CursorMoved {
        position: Point { x, y },
        modifiers: Modifiers::empty(),
    })
}

fn down_state(event: Option<MasonryEvent<f64>>) -> PointerState<f64> {
    match event {
        Some(MasonryEvent::Pointer(PointerEvent::Down(down))) => {
            assert_eq!(down.pointer, mouse());
            down.state
        }
        _ => panic!("not a press"),
    }
}

fn up_state(event: Option<MasonryEvent<f64>>) -> PointerState<f64> {
    match event {
        Some(MasonryEvent::Pointer(PointerEvent::Up(up))) => {
            assert_eq!(up.pointer, mouse());
            up.state
        }
        _ => panic!("not a release"),
    }
}

#[test]
fn limits_have_their_values() {
    assert_eq!(DOUBLE_CLICK_TIME_MS, 500);
    assert_eq!(DOUBLE_CLICK_DISTANCE, 5);
    assert_eq!(PRIMARY_POINTER, 1);
}

#[test]
fn a_new_translator_is_at_the_origin() {
    let translator = EventTranslator::<f64>::new(2.0);
    assert_eq!(translator.scale_factor(), 2.0);
    assert_eq!(translator.pointer_position().x, 0.0);
    assert_eq!(translator.pointer_position().y, 0.0);
    assert_eq!(translator.last_press_position().x, 0.0);
    assert_eq!(translator.last_press_position().y, 0.0);
}

#[test]
fn a_movement_is_told_with_its_position() {
    let mut translator = EventTranslator::<f64>::new(2.0);
    let told = translator.translate_at(
        Event::Mouse(MouseEvent::CursorMoved {
            position: Point { x: 10.5, y: 20.25 },
            modifiers: Modifiers::SHIFT | Modifiers::NUM_LOCK,
        }),
        7,
    );
    match told {
        Some(MasonryEvent::Pointer(PointerEvent::Move(update))) => {
            assert_eq!(update.pointer, mouse());
            assert_eq!(update.current.time, 7);
            assert_eq!(update.current.position.x, 10.5);
            assert_eq!(update.current.position.y, 20.25);
            assert!(update.current.buttons.is_empty());
            assert_eq!(update.current.modifiers, Modifiers::SHIFT);
            assert_eq!(update.current.count, 1);
            assert_eq!(update.current.contact_geometry, PhysicalSize { width: 1, height: 1 });
            assert_eq!(update.current.pressure, 0);
            assert_eq!(update.current.tangential_pressure, 0);
            assert_eq!(update.current.scale_factor, 2.0);
            assert!(update.coalesced.is_empty());
            assert!(update.predicted.is_empty());
        }
        _ => panic!("not a movement"),
    }
    assert_eq!(translator.pointer_position().x, 10.5);
    assert_eq!(translator.pointer_position().y, 20.25);
}

#[test]
fn held_buttons_follow_presses_and_releases() {
    let mut translator = EventTranslator::<f64>::new(1.0);
    let state = down_state(translator.translate_at(press(MouseButton::Left, false), 0));
    assert!(state.buttons.contains(HeldButton::Primary));
    assert_eq!(state.buttons.count(), 1);
    let state = down_state(translator.translate_at(press(MouseButton::Middle, false), 0));
    assert!(state.buttons.contains(HeldButton::Primary));
    assert!(state.buttons.contains(HeldButton::Auxiliary));
    assert_eq!(state.buttons.count(), 2);
    let state = up_state(translator.translate_at(release(MouseButton::Left), 0));
    assert!(!state.buttons.contains(HeldButton::Primary));
    assert!(state.buttons.contains(HeldButton::Auxiliary));
    let state = up_state(translator.translate_at(release(MouseButton::Middle), 0));
    assert!(state.buttons.is_empty());
}

#[test]
fn every_button_is_held_under_its_own_name() {
    for (button, held) in [
        (MouseButton::Left, HeldButton::Primary),
        (MouseButton::Right, HeldButton::Secondary),
        (MouseButton::Middle, HeldButton::Auxiliary),
        (MouseButton::Back, HeldButton::X1),
        (MouseButton::Forward, HeldButton::X2),
        (MouseButton::Other(9), HeldButton::Primary),
    ] {
        let mut translator = EventTranslator::<f64>::new(1.0);
        let state = down_state(translator.translate_at(press(button, false), 0));
        assert!(state.buttons.contains(held));
        assert_eq!(state.buttons.count(), 1);
        let state = up_state(translator.translate_at(release(button), 0));
        assert!(state.buttons.is_empty());
    }
}

#[test]
fn presses_are_told_with_their_button() {
    let mut translator = EventTranslator::<f64>::new(1.0);
    match translator.translate_at(press(MouseButton::Back, false), 3) {
        Some(MasonryEvent::Pointer(PointerEvent::Down(down))) => {
            assert_eq!(down.button, Some(PointerButton::X1));
            assert_eq!(down.state.time, 3);
        }
        _ => panic!("not a press"),
    }
    match translator.translate_at(release(MouseButton::Back), 4) {
        Some(MasonryEvent::Pointer(PointerEvent::Up(up))) => {
            assert_eq!(up.button, Some(PointerButton::X1));
            assert_eq!(up.state.time, 4);
        }
        _ => panic!("not a release"),
    }
}

#[test]
fn the_first_press_counts_one() {
    let mut translator = EventTranslator::<f64>::new(1.0);
    assert_eq!(down_state(translator.translate_at(press(MouseButton::Left, true), 0)).count, 1);
}

#[test]
fn quick_presses_make_a_multi_click() {
    let mut translator = EventTranslator::<f64>::new(1.0);
    for n in 1..=4u8 {
        let at = u128::from(n) * 100 * MS;
        let state = down_state(translator.translate_at(press(MouseButton::Left, n > 1), at));
        assert_eq!(state.count, n);
        let state = up_state(translator.translate_at(release(MouseButton::Left), at + 50 * MS));
        assert_eq!(state.count, n);
    }
}

#[test]
fn a_press_at_the_time_limit_still_counts() {
    let mut translator = EventTranslator::<f64>::new(1.0);
    translator.translate_at(press(MouseButton::Left, false), 1_000 * MS);
    let state = down_state(translator.translate_at(press(MouseButton::Left, true), 1_500 * MS - 1));
    assert_eq!(state.count, 2);
    let state = down_state(translator.translate_at(press(MouseButton::Left, true), 2_000 * MS - 1));
    assert_eq!(state.count, 3);
    let state = down_state(translator.translate_at(press(MouseButton::Left, true), 2_501 * MS - 1));
    assert_eq!(state.count, 1);
}

#[test]
fn a_press_a_fraction_of_a_millisecond_too_late_starts_anew() {
    let mut translator = EventTranslator::<f64>::new(1.0);
    translator.translate_at(press(MouseButton::Left, false), 0);
    let state = down_state(translator.translate_at(press(MouseButton::Left, true), 500_900_000));
    assert_eq!(state.count, 1);
}

#[test]
fn a_button_is_held_exactly_when_it_was_pressed_last() {
    let mut translator = EventTranslator::<f64>::new(1.0);
    let state = down_state(translator.translate_at(press(MouseButton::Right, false), 0));
    assert!(!state.buttons.contains(HeldButton::Primary));
    let steps = [(true, true), (false, false), (true, true), (true, true), (false, false)];
    for (pressed, held) in steps {
        let event = if pressed { press(MouseButton::Left, false) } else { release(MouseButton::Left) };
        translator.translate_at(event, 0);
        let state = up_state(translator.translate_at(release(MouseButton::Back), 0));
        assert_eq!(state.buttons.contains(HeldButton::Primary), held);
        assert!(state.buttons.contains(HeldButton::Secondary));
    }
}

#[test]
fn told_times_follow_the_readings() {
    let mut translator = EventTranslator::<f64>::new(1.0);
    let first = down_state(translator.translate_at(press(MouseButton::Left, false), 3));
    let second = up_state(translator.translate_at(release(MouseButton::Left), u128::from(u64::MAX)));
    assert_eq!((first.time, second.time), (3, u64::MAX));
}

#[test]
fn a_distant_press_starts_anew() {
    let mut translator = EventTranslator::<f64>::new(1.0);
    translator.translate_at(press(MouseButton::Left, false), 0);
    translator.translate_at(press(MouseButton::Left, true), MS);
    let state = down_state(translator.translate_at(press(MouseButton::Left, false), 2 * MS));
    assert_eq!(state.count, 1);
}

#[test]
fn a_clock_that_steps_back_counts_as_no_time() {
    let mut translator = EventTranslator::<f64>::new(1.0);
    translator.translate_at(press(MouseButton::Left, false), 900 * MS);
    let state = down_state(translator.translate_at(press(MouseButton::Left, true), 0));
    assert_eq!(state.count, 2);
}

#[test]
fn the_click_count_saturates() {
    let mut translator = EventTranslator::<f64>::new(1.0);
    for _ in 0..300 {
        translator.translate_at(press(MouseButton::Left, true), 0);
    }
    let state = down_state(translator.translate_at(press(MouseButton::Left, true), 0));
    assert_eq!(state.count, 255);
}

#[test]
fn click_counts_follow_the_rule() {
    assert_eq!(click_count_after(0, 0, true), 1);
    assert_eq!(click_count_after(1, 499 * MS, true), 2);
    assert_eq!(click_count_after(1, 500 * MS, true), 2);
    assert_eq!(click_count_after(1, 500 * MS + 1, true), 1);
    assert_eq!(click_count_after(1, 501 * MS, true), 1);
    assert_eq!(click_count_after(1, 500 * MS, false), 1);
    assert_eq!(click_count_after(1, 499 * MS, false), 1);
    assert_eq!(click_count_after(254, 0, true), 255);
    assert_eq!(click_count_after(255, 0, true), 255);
    assert_eq!(click_count_after(255, u128::MAX, true), 1);
}

#[test]
fn the_latest_press_leaves_its_position() {
    let mut translator = EventTranslator::<f64>::new(1.0);
    translator.translate_at(move_to(3.0, 4.0), 0);
    translator.translate_at(press(MouseButton::Left, true), 0);
    translator.translate_at(move_to(8.0, 9.0), 0);
    assert_eq!(translator.last_press_position().x, 3.0);
    assert_eq!(translator.last_press_position().y, 4.0);
    assert_eq!(translator.pointer_position().x, 8.0);
    assert_eq!(translator.pointer_position().y, 9.0);
}

#[test]
fn scrolling_keeps_its_unit() {
    let mut translator = EventTranslator::<f64>::new(1.0);
    let told = translator.translate_at(
        Event::Mouse(MouseEvent::WheelScrolled {
            delta: ScrollDelta::Lines { x: 1.0, y: -2.0 },
            modifiers: Modifiers::CONTROL,
        }),
        5,
    );
    match told {
        Some(MasonryEvent::Pointer(PointerEvent::Scroll(scroll))) => {
            assert_eq!(scroll.pointer, mouse());
            assert_eq!(scroll.state.modifiers, Modifiers::CONTROL);
            assert_eq!(scroll.state.count, 1);
            assert!(matches!(scroll.delta, PointerScrollDelta::LineDelta(x, y) if x == 1.0 && y == -2.0));
        }
        _ => panic!("not a scroll"),
    }
    let told = translator.translate_at(
        Event::Mouse(MouseEvent::WheelScrolled {
            delta: ScrollDelta::Pixels { x: 30.0, y: 40.0 },
            modifiers: Modifiers::empty(),
        }),
        6,
    );
    match told {
        Some(MasonryEvent::Pointer(PointerEvent::Scroll(scroll))) => {
            assert!(matches!(scroll.delta, PointerScrollDelta::PixelDelta(p) if p.x == 30.0 && p.y == 40.0));
        }
        _ => panic!("not a scroll"),
    }
}

#[test]
fn entering_and_leaving_are_told() {
    let mut translator = EventTranslator::<f64>::new(1.0);
    let entered = translator.translate_at(Event::Mouse(MouseEvent::CursorEntered), 0);
    assert!(matches!(
        entered,
        Some(MasonryEvent::Pointer(PointerEvent::Enter(pointer))) if pointer == mouse()
    ));
    let left = translator.translate_at(Event::Mouse(MouseEvent::CursorLeft), 0);
    assert!(matches!(
        left,
        Some(MasonryEvent::Pointer(PointerEvent::Leave(pointer))) if pointer == mouse()
    ));
}

#[test]
fn drags_are_not_told() {
    let mut translator = EventTranslator::<f64>::new(1.0);
    assert!(translator.translate_at(Event::Mouse(MouseEvent::Other), 0).is_none());
}

#[test]
fn keys_pass_through_and_set_the_modifiers() {
    let key = keyboard_types::KeyboardEvent {
        state: KeyState::Down,
        key: Key::Named(NamedKey::Enter),
        code: Code::Enter,
        location: Location::Standard,
        modifiers: Modifiers::ALT | Modifiers::CAPS_LOCK,
        repeat: true,
        is_composing: false,
    };
    let mut translator = EventTranslator::<f64>::new(1.0);
    match translator.translate_at(Event::Keyboard(key.clone()), 0) {
        Some(MasonryEvent::Keyboard(told)) => assert_eq!(told, key),
        _ => panic!("not a key"),
    }
    let told = translator.modifiers();
    assert_eq!(told, Modifiers::ALT);
    let told = translator.translate_at(
        Event::Mouse(MouseEvent::ButtonPressed {
            button: MouseButton::Left,
            modifiers: Modifiers::ALT,
            near_last_press: false,
        }),
        0,
    );
    assert_eq!(down_state(told).modifiers, Modifiers::ALT);
}

#[test]
fn window_events_are_told() {
    let mut translator = EventTranslator::<f64>::new(1.0);
    assert!(matches!(
        translator.translate_at(Event::Window(WindowEvent::Focused), 0),
        Some(MasonryEvent::Focus(true))
    ));
    assert!(matches!(
        translator.translate_at(Event::Window(WindowEvent::Unfocused), 0),
        Some(MasonryEvent::Focus(false))
    ));
    assert!(matches!(
        translator.translate_at(Event::Window(WindowEvent::WillClose), 0),
        Some(MasonryEvent::Close)
    ));
    let told = translator.translate_at(
        Event::Window(WindowEvent::Resized {
            physical_size: PhysicalSize { width: 640, height: 480 },
            scale: 1.5,
        }),
        0,
    );
    match told {
        Some(MasonryEvent::Resize { width, height, scale }) => {
            assert_eq!((width, height), (640, 480));
            assert_eq!(scale, 1.5);
        }
        _ => panic!("not a resize"),
    }
    assert_eq!(translator.scale_factor(), 1.5);
}

#[test]
fn the_scale_factor_can_be_set() {
    let mut translator = EventTranslator::<f64>::new(1.0);
    translator.set_scale_factor(3.0);
    assert_eq!(translator.scale_factor(), 3.0);
    let state = down_state(translator.translate_at(press(MouseButton::Left, false), 0));
    assert_eq!(state.scale_factor, 3.0);
}

#[test]
fn times_are_cut_to_sixty_four_bits() {
    let mut translator = EventTranslator::<f64>::new(1.0);
    let at = (1u128 << 64) + 5;
    assert_eq!(down_state(translator.translate_at(press(MouseButton::Left, false), at)).time, 5);
}

#[test]
fn the_clock_drives_translation() {
    let mut translator = EventTranslator::<f64>::new(1.0);
    let first = down_state(translator.translate(press(MouseButton::Left, false)));
    let second = down_state(translator.translate(press(MouseButton::Left, true)));
    assert!(first.time <= second.time);
    assert_eq!(first.count, 1);
    assert_eq!(second.count, 2);
}
