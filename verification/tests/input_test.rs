use keyboard_types::Modifiers;
use xilem_baseview::input::{
    translate_modifiers, translate_mouse_button, MouseButton, PointerButton,
};

#[test]
fn mouse_buttons_get_their_pointer_names() {
    assert_eq!(translate_mouse_button(MouseButton::Left), PointerButton::Primary);
    assert_eq!(translate_mouse_button(MouseButton::Right), PointerButton::Secondary);
    assert_eq!(translate_mouse_button(MouseButton::Middle), PointerButton::Auxiliary);
    assert_eq!(translate_mouse_button(MouseButton::Back), PointerButton::X1);
    assert_eq!(translate_mouse_button(MouseButton::Forward), PointerButton::X2);
}

#[test]
fn unnamed_mouse_buttons_count_as_primary() {
    for code in 0..=255u8 {
        assert_eq!(translate_mouse_button(MouseButton::Other(code)), PointerButton::Primary);
    }
}

#[test]
fn each_reported_modifier_is_kept() {
    for key in [Modifiers::SHIFT, Modifiers::CONTROL, Modifiers::ALT, Modifiers::META] {
        assert_eq!(translate_modifiers(key), key);
    }
}

#[test]
fn reported_modifiers_have_their_bits() {
    assert_eq!(Modifiers::SHIFT.bits(), 0x200);
    assert_eq!(Modifiers::CONTROL.bits(), 0x8);
    assert_eq!(Modifiers::ALT.bits(), 0x1);
    assert_eq!(Modifiers::META.bits(), 0x40);
}

#[test]
fn other_modifiers_are_dropped() {
    assert_eq!(translate_modifiers(Modifiers::empty()), Modifiers::empty());
    assert_eq!(translate_modifiers(Modifiers::CAPS_LOCK), Modifiers::empty());
    assert_eq!(translate_modifiers(Modifiers::ALT_GRAPH | Modifiers::FN), Modifiers::empty());
    assert_eq!(
        translate_modifiers(Modifiers::SHIFT | Modifiers::CAPS_LOCK | Modifiers::META),
        Modifiers::SHIFT | Modifiers::META
    );
    assert_eq!(translate_modifiers(Modifiers::from_bits_retain(u32::MAX)).bits(), 0x249);
}

#[test]
fn translating_modifiers_twice_changes_nothing() {
    for bits in 0..0x4000u32 {
        let once = translate_modifiers(Modifiers::from_bits_retain(bits));
        assert_eq!(once.bits(), bits & 0x249);
        assert_eq!(translate_modifiers(once), once);
    }
}

#[test]
fn translating_modifiers_keeps_unions_and_nothing() {
    let a = Modifiers::SHIFT | Modifiers::CAPS_LOCK;
    let b = Modifiers::META | Modifiers::SHIFT;
    assert_eq!(translate_modifiers(a | b), translate_modifiers(a) | translate_modifiers(b));
    assert_eq!(translate_modifiers(a | b), Modifiers::SHIFT | Modifiers::META);
    assert_eq!(translate_modifiers(Modifiers::empty()), Modifiers::empty());
}
