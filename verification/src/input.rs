//! Mouse buttons, modifier keys, and the sets of them that are held down.

use vstd::prelude::*;

use keyboard_types::Modifiers;
use masonry::ui_events::pointer::PointerButtons;

verus! {

/// A mouse button as the window system names it.
#[derive(Clone, Copy, Debug, PartialEq, Eq, Structural)]
pub enum MouseButton {
    Left,
    Middle,
    Right,
    Back,
    Forward,
    Other(u8),
}

/// A pointer button as the widget tree names it.
#[derive(Clone, Copy, Debug, PartialEq, Eq, Structural)]
pub enum PointerButton {
    Primary,
    Secondary,
    Auxiliary,
    X1,
    X2,
}

impl PointerButton {
    /// The bit that stands for this button in a set of buttons.
    pub open spec fn mask(self) -> u32 {
        match self {
            PointerButton::Primary => 1,
            PointerButton::Secondary => 2,
            PointerButton::Auxiliary => 4,
            PointerButton::X1 => 8,
            PointerButton::X2 => 16,
        }
    }
}

/// A modifier key that the widget tree is told about.
#[derive(Clone, Copy, Debug, PartialEq, Eq, Structural)]
pub enum ModifierKey {
    Shift,
    Control,
    Alt,
    Meta,
}

impl ModifierKey {
    /// The bit that stands for this key in a set of modifiers.
    pub open spec fn mask(self) -> u32 {
        match self {
            ModifierKey::Shift => 0x200,
            ModifierKey::Control => 0x8,
            ModifierKey::Alt => 0x1,
            ModifierKey::Meta => 0x40,
        }
    }
}

/// The bits of the modifier keys that the widget tree is told about.
pub open spec fn reported_masks() -> Set<u32> {
    set![
        ModifierKey::Shift.mask(),
        ModifierKey::Control.mask(),
        ModifierKey::Alt.mask(),
        ModifierKey::Meta.mask(),
    ]
}

/// What the widget tree calls a mouse button. A button without a name of its
/// own counts as the primary one.
pub open spec fn pointer_button(button: MouseButton) -> PointerButton {
    match button {
        MouseButton::Left => PointerButton::Primary,
        MouseButton::Right => PointerButton::Secondary,
        MouseButton::Middle => PointerButton::Auxiliary,
        MouseButton::Back => PointerButton::X1,
        MouseButton::Forward => PointerButton::X2,
        MouseButton::Other(_) => PointerButton::Primary,
    }
}

/// Translates a mouse button to a pointer button.
pub fn translate_mouse_button(button: MouseButton) -> (translated: PointerButton)
    ensures
        button is Left ==> translated is Primary,
        button is Right ==> translated is Secondary,
        button is Middle ==> translated is Auxiliary,
        button is Back ==> translated is X1,
        button is Forward ==> translated is X2,
        button is Other ==> translated is Primary,
        translated == pointer_button(button),
{
    match button {
        MouseButton::Left => PointerButton::Primary,
        MouseButton::Right => PointerButton::Secondary,
        MouseButton::Middle => PointerButton::Auxiliary,
        MouseButton::Back => PointerButton::X1,
        MouseButton::Forward => PointerButton::X2,
        MouseButton::Other(_) => PointerButton::Primary,
    }
}

/// A set of pointer buttons, as `ui-events` defines it.
#[verifier::external_type_specification]
#[verifier::external_body]
pub struct ExPointerButtons(masonry::ui_events::pointer::PointerButtons);

/// A set of modifier keys, as `keyboard-types` defines it.
#[verifier::external_type_specification]
#[verifier::external_body]
pub struct ExModifiers(keyboard_types::Modifiers);

/// The bits of the buttons in a set of pointer buttons.
pub uninterp spec fn held_buttons(buttons: PointerButtons) -> Set<u32>;

/// The bits that are set in a set of modifiers.
pub uninterp spec fn held_modifiers(modifiers: Modifiers) -> Set<u32>;

/// `PointerButtons::new` returns the set of no buttons.
#[verifier::external_body]
pub(crate) fn no_buttons() -> (buttons: PointerButtons)
    ensures
        held_buttons(buttons) == Set::<u32>::empty(),
{
    PointerButtons::new()
}

/// `PointerButtons::insert` adds the button to the set and changes nothing else
/// in it.
#[verifier::external_body]
pub(crate) fn insert_button(buttons: &mut PointerButtons, button: PointerButton)
    ensures
        held_buttons(*final(buttons)) == held_buttons(*old(buttons)).insert(button.mask()),
{
    buttons.insert(match button {
        PointerButton::Primary => masonry::ui_events::pointer::PointerButton::Primary,
        PointerButton::Secondary => masonry::ui_events::pointer::PointerButton::Secondary,
        PointerButton::Auxiliary => masonry::ui_events::pointer::PointerButton::Auxiliary,
        PointerButton::X1 => masonry::ui_events::pointer::PointerButton::X1,
        PointerButton::X2 => masonry::ui_events::pointer::PointerButton::X2,
    });
}

/// `PointerButtons::remove` takes the button out of the set and changes nothing
/// else in it.
#[verifier::external_body]
pub(crate) fn remove_button(buttons: &mut PointerButtons, button: PointerButton)
    ensures
        held_buttons(*final(buttons)) == held_buttons(*old(buttons)).remove(button.mask()),
{
    buttons.remove(match button {
        PointerButton::Primary => masonry::ui_events::pointer::PointerButton::Primary,
        PointerButton::Secondary => masonry::ui_events::pointer::PointerButton::Secondary,
        PointerButton::Auxiliary => masonry::ui_events::pointer::PointerButton::Auxiliary,
        PointerButton::X1 => masonry::ui_events::pointer::PointerButton::X1,
        PointerButton::X2 => masonry::ui_events::pointer::PointerButton::X2,
    });
}

/// `Modifiers::empty` returns the set with no bit set.
#[verifier::external_body]
pub(crate) fn no_modifiers() -> (modifiers: Modifiers)
    ensures
        held_modifiers(modifiers) == Set::<u32>::empty(),
{
    Modifiers::empty()
}

/// `Modifiers::contains` tells whether the key's bit is set.
#[verifier::external_body]
pub(crate) fn holds_modifier(modifiers: Modifiers, key: ModifierKey) -> (held: bool)
    ensures
        held == held_modifiers(modifiers).contains(key.mask()),
{
    modifiers.contains(match key {
        ModifierKey::Shift => Modifiers::SHIFT,
        ModifierKey::Control => Modifiers::CONTROL,
        ModifierKey::Alt => Modifiers::ALT,
        ModifierKey::Meta => Modifiers::META,
    })
}

/// `Modifiers::insert` sets the key's bit and changes no other.
#[verifier::external_body]
pub(crate) fn insert_modifier(modifiers: &mut Modifiers, key: ModifierKey)
    ensures
        held_modifiers(*final(modifiers)) == held_modifiers(*old(modifiers)).insert(key.mask()),
{
    modifiers.insert(match key {
        ModifierKey::Shift => Modifiers::SHIFT,
        ModifierKey::Control => Modifiers::CONTROL,
        ModifierKey::Alt => Modifiers::ALT,
        ModifierKey::Meta => Modifiers::META,
    });
}

/// Keeps the modifiers that the widget tree is told about: shift, control, alt
/// and meta. Locks, function keys and the other bits are dropped.
pub fn translate_modifiers(mods: Modifiers) -> (translated: Modifiers)
    ensures
        forall|bit: u32| #[trigger]
            held_modifiers(translated).contains(bit) <==> held_modifiers(mods).contains(bit) && (bit
                == 0x200 || bit == 0x8 || bit == 0x1 || bit == 0x40),
        held_modifiers(translated) == held_modifiers(mods).intersect(reported_masks()),
{
    let mut result = no_modifiers();
    if holds_modifier(mods, ModifierKey::Shift) {
        insert_modifier(&mut result, ModifierKey::Shift);
    }
    if holds_modifier(mods, ModifierKey::Control) {
        insert_modifier(&mut result, ModifierKey::Control);
    }
    if holds_modifier(mods, ModifierKey::Alt) {
        insert_modifier(&mut result, ModifierKey::Alt);
    }
    if holds_modifier(mods, ModifierKey::Meta) {
        insert_modifier(&mut result, ModifierKey::Meta);
    }
    assert(held_modifiers(result) =~= held_modifiers(mods).intersect(reported_masks()));
    result
}

/// Distinct pointer buttons stand for distinct bits, so a set of bits tells
/// which buttons it holds.
pub proof fn law_masks_tell_buttons_apart(a: PointerButton, b: PointerButton)
    ensures
        a.mask() == b.mask() <==> a == b,
{
}

/// Translating modifiers a second time changes nothing: whatever is kept once
/// is kept for good.
pub proof fn law_reported_modifiers_are_stable(held: Set<u32>)
    ensures
        held.intersect(reported_masks()).intersect(reported_masks()) == held.intersect(
            reported_masks(),
        ),
{
    assert(held.intersect(reported_masks()).intersect(reported_masks()) =~= held.intersect(
        reported_masks(),
    ));
}

/// The five buttons of a mouse that have names get five different names, the left
/// one the primary, the right one the secondary, the middle one the auxiliary; and
/// every button without a name of its own is told as the left one is.
pub proof fn law_named_buttons_keep_apart(a: MouseButton, b: MouseButton, code: u8)
    ensures
        a !is Other && b !is Other ==> (pointer_button(a) == pointer_button(b) <==> a == b),
        pointer_button(MouseButton::Other(code)) == pointer_button(MouseButton::Left),
        pointer_button(a) is Primary <==> a is Left || a is Other,
        pointer_button(a) is Secondary <==> a is Right,
        pointer_button(a) is Auxiliary <==> a is Middle,
        pointer_button(a) is X1 <==> a is Back,
        pointer_button(a) is X2 <==> a is Forward,
{
}

/// The widget tree is told of a bit exactly when it is that of shift, control, alt
/// or meta.
pub proof fn law_four_modifiers_are_reported(bit: u32)
    ensures
        reported_masks().contains(bit) <==> bit == 0x200 || bit == 0x8 || bit == 0x1 || bit == 0x40,
{
}

} // verus!
