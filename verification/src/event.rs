//! Translation of window-system events into the events the widget tree takes.
//!
//! The translator keeps what a single window-system event does not carry: where
//! the pointer is, which buttons and modifiers are held, and how many presses in
//! quick succession the latest press belongs to.

use vstd::prelude::*;

use std::time::Instant;

use keyboard_types::{KeyboardEvent, Modifiers};
use masonry::ui_events::pointer::PointerButtons;

use crate::clock;
use crate::clock::{nanos_between, Clock};
use crate::geometry::{PhysicalSize, Point};
use crate::input;
use crate::input::{
    insert_button, no_buttons, no_modifiers, remove_button, translate_modifiers,
    translate_mouse_button, MouseButton, PointerButton,
};

verus! {

/// The maximum time between two presses of one multi-click, in milliseconds.
pub const DOUBLE_CLICK_TIME_MS: u128 = 500;

/// The nanoseconds in a millisecond.
pub const NANOS_PER_MS: u128 = 1_000_000;

/// The maximum distance between two presses of one multi-click, in logical points.
pub const DOUBLE_CLICK_DISTANCE: u32 = 5;

/// The identifier that is reserved for the primary pointer.
pub const PRIMARY_POINTER: u64 = 1;

/// A keyboard event, as `keyboard-types` defines it.
#[verifier::external_type_specification]
#[verifier::external_body]
pub struct ExKeyboardEvent(keyboard_types::KeyboardEvent);

/// The bits of the modifiers that a keyboard event says were held.
pub uninterp spec fn key_event_modifiers(event: KeyboardEvent) -> Set<u32>;

/// `KeyboardEvent::modifiers`, a field, holds the modifiers of the event.
#[verifier::external_body]
pub(crate) fn modifiers_of(event: &KeyboardEvent) -> (modifiers: Modifiers)
    ensures
        input::held_modifiers(modifiers) == key_event_modifiers(*event),
{
    event.modifiers
}

/// How far the wheel was turned.
pub enum ScrollDelta<C> {
    Lines { x: C, y: C },
    Pixels { x: C, y: C },
}

/// A mouse event of the window system.
pub enum MouseEvent<C> {
    /// The cursor moved to `position`, in logical points.
    CursorMoved { position: Point<C>, modifiers: Modifiers },
    /// A button went down. `near_last_press` tells whether the pointer is
    /// within the multi-click distance of the previous press.
    ButtonPressed { button: MouseButton, modifiers: Modifiers, near_last_press: bool },
    /// A button went up.
    ButtonReleased { button: MouseButton, modifiers: Modifiers },
    /// The wheel was turned.
    WheelScrolled { delta: ScrollDelta<C>, modifiers: Modifiers },
    /// The cursor entered the window.
    CursorEntered,
    /// The cursor left the window.
    CursorLeft,
    /// Anything else, such as a drag from another window.
    Other,
}

/// A window event of the window system.
pub enum WindowEvent<C> {
    Resized { physical_size: PhysicalSize, scale: C },
    Focused,
    Unfocused,
    WillClose,
}

/// An event of the window system.
pub enum Event<C> {
    Mouse(MouseEvent<C>),
    Keyboard(KeyboardEvent),
    Window(WindowEvent<C>),
}

/// The kind of device behind a pointer.
#[derive(Clone, Copy, Debug, PartialEq, Eq, Structural)]
pub enum PointerType {
    Unknown,
    Mouse,
    Pen,
    Touch,
}

/// Which pointer an event belongs to.
#[derive(Clone, Copy, Debug, PartialEq, Eq)]
pub struct PointerInfo {
    pub pointer_id: Option<u64>,
    pub persistent_device_id: Option<u64>,
    pub pointer_type: PointerType,
}

/// The state of the pointer when an event came.
pub struct PointerState<C> {
    /// Nanoseconds since the translator was made.
    pub time: u64,
    /// The position in logical points; the physical position is this times
    /// `scale_factor`.
    pub position: Point<C>,
    pub buttons: PointerButtons,
    pub modifiers: Modifiers,
    /// How many presses in quick succession the event belongs to.
    pub count: u8,
    /// The size of the contact in physical pixels.
    pub contact_geometry: PhysicalSize,
    pub pressure: u32,
    pub tangential_pressure: u32,
    pub scale_factor: C,
}

/// A pointer that moved.
pub struct PointerUpdate<C> {
    pub pointer: PointerInfo,
    pub current: PointerState<C>,
    /// Earlier states that were merged into this update.
    pub coalesced: Vec<PointerState<C>>,
    /// States that are expected to follow.
    pub predicted: Vec<PointerState<C>>,
}

/// A pointer button that went down or up.
pub struct PointerButtonEvent<C> {
    pub button: Option<PointerButton>,
    pub pointer: PointerInfo,
    pub state: PointerState<C>,
}

/// How far to scroll.
pub enum PointerScrollDelta<C> {
    LineDelta(C, C),
    PixelDelta(Point<C>),
}

/// A scroll at the pointer's position.
pub struct PointerScrollEvent<C> {
    pub pointer: PointerInfo,
    pub delta: PointerScrollDelta<C>,
    pub state: PointerState<C>,
}

/// A pointer event of the widget tree.
pub enum PointerEvent<C> {
    Down(PointerButtonEvent<C>),
    Up(PointerButtonEvent<C>),
    Move(PointerUpdate<C>),
    Enter(PointerInfo),
    Leave(PointerInfo),
    Scroll(PointerScrollEvent<C>),
}

/// An event for the widget tree or its window.
pub enum MasonryEvent<C> {
    Pointer(PointerEvent<C>),
    Keyboard(KeyboardEvent),
    Resize { width: u32, height: u32, scale: C },
    Focus(bool),
    Close,
}

/// What the translator knows between two events: the pointer's position in
/// logical points, the bits of the held buttons and modifiers, the scale factor,
/// and the latest press with the number of quick presses up to it.
pub struct PointerModel<C> {
    pub pointer: Point<C>,
    pub buttons: Set<u32>,
    pub modifiers: Set<u32>,
    pub scale_factor: C,
    pub last_press_time: u128,
    pub last_press_position: Point<C>,
    pub click_count: u8,
}

/// A value that the coordinate type's `default` may return.
pub open spec fn is_default<C: Default>(value: C) -> bool {
    call_ensures(C::default, (), value)
}

/// The modifiers out of `modifiers` that the widget tree is told about.
pub open spec fn reported(modifiers: Modifiers) -> Set<u32> {
    input::held_modifiers(modifiers).intersect(input::reported_masks())
}

/// The mouse, as the primary pointer.
pub open spec fn mouse_pointer() -> PointerInfo {
    PointerInfo {
        pointer_id: Some(PRIMARY_POINTER),
        persistent_device_id: None,
        pointer_type: PointerType::Mouse,
    }
}

/// The length of the run of quick presses that a new press ends, when the run up
/// to the previous press was `count` long: one more, up to the largest count, or
/// a new run.
pub open spec fn spec_click_count_after(count: u8, elapsed_nanos: int, near: bool) -> u8 {
    if elapsed_nanos <= DOUBLE_CLICK_TIME_MS * NANOS_PER_MS && near {
        if count == u8::MAX {
            count
        } else {
            (count + 1) as u8
        }
    } else {
        1
    }
}

impl<C> PointerModel<C> {
    /// The model after `event`, received at `now`.
    pub open spec fn after(self, event: Event<C>, now: u128) -> PointerModel<C> {
        match event {
            Event::Mouse(MouseEvent::CursorMoved { position, modifiers }) => PointerModel {
                pointer: position,
                modifiers: reported(modifiers),
                ..self
            },
            Event::Mouse(MouseEvent::ButtonPressed { button, modifiers, near_last_press }) =>
                PointerModel {
                    modifiers: reported(modifiers),
                    buttons: self.buttons.insert(input::pointer_button(button).mask()),
                    last_press_time: now,
                    last_press_position: self.pointer,
                    click_count: spec_click_count_after(
                        self.click_count,
                        clock::spec_nanos_between(self.last_press_time, now),
                        near_last_press,
                    ),
                    ..self
                },
            Event::Mouse(MouseEvent::ButtonReleased { button, modifiers }) => PointerModel {
                modifiers: reported(modifiers),
                buttons: self.buttons.remove(input::pointer_button(button).mask()),
                ..self
            },
            Event::Mouse(MouseEvent::WheelScrolled { delta, modifiers }) => PointerModel {
                modifiers: reported(modifiers),
                ..self
            },
            Event::Keyboard(key) => PointerModel {
                modifiers: key_event_modifiers(key).intersect(input::reported_masks()),
                ..self
            },
            Event::Window(WindowEvent::Resized { physical_size, scale }) => PointerModel {
                scale_factor: scale,
                ..self
            },
            _ => self,
        }
    }

    /// `state` is the pointer's state in this model, at `now`, with `count`
    /// presses.
    pub open spec fn shown_by(self, state: PointerState<C>, count: u8, now: u128) -> bool {
        &&& state.time == now as u64
        &&& state.position == self.pointer
        &&& input::held_buttons(state.buttons) == self.buttons
        &&& input::held_modifiers(state.modifiers) == self.modifiers
        &&& state.count == count
        &&& state.contact_geometry == (PhysicalSize { width: 1, height: 1 })
        &&& state.pressure == 0
        &&& state.tangential_pressure == 0
        &&& state.scale_factor == self.scale_factor
    }

    /// `translated` is what the widget tree is told of `event`, received at
    /// `now`, when this is the model after the event.
    pub open spec fn tells(
        self,
        event: Event<C>,
        now: u128,
        translated: Option<MasonryEvent<C>>,
    ) -> bool {
        match event {
            Event::Mouse(MouseEvent::CursorMoved { .. }) => {
                &&& translated matches Some(MasonryEvent::Pointer(PointerEvent::Move(update)))
                &&& update.pointer == mouse_pointer()
                &&& self.shown_by(update.current, 1, now)
                &&& update.coalesced@ == Seq::<PointerState<C>>::empty()
                &&& update.predicted@ == Seq::<PointerState<C>>::empty()
            },
            Event::Mouse(MouseEvent::ButtonPressed { button, .. }) => {
                &&& translated matches Some(MasonryEvent::Pointer(PointerEvent::Down(down)))
                &&& down.button == Some(input::pointer_button(button))
                &&& down.pointer == mouse_pointer()
                &&& self.shown_by(down.state, self.click_count, now)
            },
            Event::Mouse(MouseEvent::ButtonReleased { button, .. }) => {
                &&& translated matches Some(MasonryEvent::Pointer(PointerEvent::Up(up)))
                &&& up.button == Some(input::pointer_button(button))
                &&& up.pointer == mouse_pointer()
                &&& self.shown_by(up.state, self.click_count, now)
            },
            Event::Mouse(MouseEvent::WheelScrolled { delta, .. }) => {
                &&& translated matches Some(MasonryEvent::Pointer(PointerEvent::Scroll(scroll)))
                &&& scroll.pointer == mouse_pointer()
                &&& self.shown_by(scroll.state, 1, now)
                &&& scroll.delta == scrolled(delta)
            },
            Event::Mouse(MouseEvent::CursorEntered) => translated == Some(
                MasonryEvent::<C>::Pointer(PointerEvent::Enter(mouse_pointer())),
            ),
            Event::Mouse(MouseEvent::CursorLeft) => translated == Some(
                MasonryEvent::<C>::Pointer(PointerEvent::Leave(mouse_pointer())),
            ),
            Event::Mouse(MouseEvent::Other) => translated is None,
            Event::Keyboard(key) => translated == Some(MasonryEvent::<C>::Keyboard(key)),
            Event::Window(WindowEvent::Resized { physical_size, scale }) => translated == Some(
                MasonryEvent::Resize {
                    width: physical_size.width,
                    height: physical_size.height,
                    scale,
                },
            ),
            Event::Window(WindowEvent::Focused) => translated == Some(
                MasonryEvent::<C>::Focus(true),
            ),
            Event::Window(WindowEvent::Unfocused) => translated == Some(
                MasonryEvent::<C>::Focus(false),
            ),
            Event::Window(WindowEvent::WillClose) => translated == Some(MasonryEvent::<C>::Close),
        }
    }
}

/// The scroll that a turn of the wheel asks for: lines stay lines, pixels stay
/// pixels.
pub open spec fn scrolled<C>(delta: ScrollDelta<C>) -> PointerScrollDelta<C> {
    match delta {
        ScrollDelta::Lines { x, y } => PointerScrollDelta::LineDelta(x, y),
        ScrollDelta::Pixels { x, y } => PointerScrollDelta::PixelDelta(Point { x, y }),
    }
}

/// Counts a press that comes `elapsed_nanos` nanoseconds after the previous one.
pub fn click_count_after(count: u8, elapsed_nanos: u128, near: bool) -> (new_count: u8)
    ensures
        near && elapsed_nanos <= 500_000_000 && count < 255 ==> new_count == count + 1,
        near && elapsed_nanos <= 500_000_000 && count == 255 ==> new_count == 255,
        !near || elapsed_nanos > 500_000_000 ==> new_count == 1,
        new_count == spec_click_count_after(count, elapsed_nanos as int, near),
{
    if elapsed_nanos <= DOUBLE_CLICK_TIME_MS * NANOS_PER_MS && near {
        count.saturating_add(1)
    } else {
        1
    }
}

/// Event translator that maintains pointer state between events.
pub struct EventTranslator<C> {
    pointer: Point<C>,
    buttons: PointerButtons,
    modifiers: Modifiers,
    scale_factor: C,
    clock: Clock,
    last_press_time: u128,
    last_press_position: Point<C>,
    click_count: u8,
}

impl<C> View for EventTranslator<C> {
    type V = PointerModel<C>;

    closed spec fn view(&self) -> PointerModel<C> {
        PointerModel {
            pointer: self.pointer,
            buttons: input::held_buttons(self.buttons),
            modifiers: input::held_modifiers(self.modifiers),
            scale_factor: self.scale_factor,
            last_press_time: self.last_press_time,
            last_press_position: self.last_press_position,
            click_count: self.click_count,
        }
    }
}

impl<C> EventTranslator<C> {
    /// The reading that the translator's clock was started with.
    pub closed spec fn clock_started(self) -> Instant {
        self.clock.started()
    }
}

impl<C: Copy> EventTranslator<C> {
    /// A translator for a window with the given scale factor, with the pointer
    /// at the origin and nothing held down.
    pub fn new(scale_factor: C) -> (translator: EventTranslator<C>) where C: Default
        ensures
            translator@.scale_factor == scale_factor,
            call_ensures(C::default, (), translator@.pointer.x),
            call_ensures(C::default, (), translator@.pointer.y),
            call_ensures(C::default, (), translator@.last_press_position.x),
            call_ensures(C::default, (), translator@.last_press_position.y),
            is_default(translator@.pointer.x),
            is_default(translator@.pointer.y),
            is_default(translator@.last_press_position.x),
            is_default(translator@.last_press_position.y),
            translator@.buttons == Set::<u32>::empty(),
            translator@.modifiers == Set::<u32>::empty(),
            translator@.last_press_time == 0,
            translator@.click_count == 0,
            call_ensures(Instant::now, (), translator.clock_started()),
    {
        EventTranslator {
            pointer: Point { x: C::default(), y: C::default() },
            buttons: no_buttons(),
            modifiers: no_modifiers(),
            scale_factor,
            clock: Clock::start(),
            last_press_time: 0,
            last_press_position: Point { x: C::default(), y: C::default() },
            click_count: 0,
        }
    }

    /// Sets the scale factor and leaves the rest as it is.
    pub fn set_scale_factor(&mut self, scale: C)
        ensures
            final(self)@ == (PointerModel { scale_factor: scale, ..old(self)@ }),
            final(self).clock_started() == old(self).clock_started(),
    {
        self.scale_factor = scale;
    }

    /// The scale factor in force.
    pub fn scale_factor(&self) -> (scale: C)
        ensures
            scale == self@.scale_factor,
    {
        self.scale_factor
    }

    /// The pointer's position in logical points.
    pub fn pointer_position(&self) -> (position: Point<C>)
        ensures
            position == self@.pointer,
    {
        self.pointer
    }

    /// The modifiers that were held at the latest event that tells of them.
    pub fn modifiers(&self) -> (modifiers: Modifiers)
        ensures
            input::held_modifiers(modifiers) == self@.modifiers,
    {
        self.modifiers
    }

    /// Where the pointer was at the latest press.
    pub fn last_press_position(&self) -> (position: Point<C>)
        ensures
            position == self@.last_press_position,
    {
        self.last_press_position
    }

    /// Translates an event as of the moment of the call. Returns `None` if the
    /// event means nothing to the widget tree.
    pub fn translate(&mut self, event: Event<C>) -> (translated: Option<MasonryEvent<C>>)
        ensures
            exists|now: u128|
                {
                    &&& clock::reads(old(self).clock_started(), now)
                    &&& #[trigger] old(self)@.after(event, now) == final(self)@
                    &&& final(self)@.tells(event, now, translated)
                },
            final(self).clock_started() == old(self).clock_started(),
    {
        let now: u128 = self.clock.nanos();
        self.translate_at(event, now)
    }

    /// Translates an event received `now` nanoseconds after the translator was
    /// made. Returns `None` if the event means nothing to the widget tree.
    pub fn translate_at(&mut self, event: Event<C>, now: u128) -> (translated: Option<
        MasonryEvent<C>,
    >)
        ensures
            final(self)@ == old(self)@.after(event, now),
            final(self)@.tells(event, now, translated),
            final(self).clock_started() == old(self).clock_started(),
    {
        match event {
            Event::Mouse(mouse) => self.translate_mouse(mouse, now),
            Event::Keyboard(key) => self.translate_keyboard(key, now),
            Event::Window(window) => self.translate_window(window, now),
        }
    }

    fn make_pointer_info(&self) -> (info: PointerInfo)
        ensures
            info == mouse_pointer(),
    {
        PointerInfo {
            pointer_id: Some(PRIMARY_POINTER),
            persistent_device_id: None,
            pointer_type: PointerType::Mouse,
        }
    }

    fn make_pointer_state(&self, count: u8, now: u128) -> (state: PointerState<C>)
        ensures
            self@.shown_by(state, count, now),
    {
        PointerState {
            time: #[verifier::truncate] (now as u64),
            position: self.pointer,
            buttons: self.buttons,
            modifiers: self.modifiers,
            count,
            contact_geometry: PhysicalSize { width: 1, height: 1 },
            pressure: 0,
            tangential_pressure: 0,
            scale_factor: self.scale_factor,
        }
    }

    fn update_click_count(&mut self, near: bool, now: u128) -> (count: u8)
        ensures
            count == final(self)@.click_count,
            final(self)@ == (PointerModel {
                last_press_time: now,
                last_press_position: old(self)@.pointer,
                click_count: spec_click_count_after(
                    old(self)@.click_count,
                    clock::spec_nanos_between(old(self)@.last_press_time, now),
                    near,
                ),
                ..old(self)@
            }),
            final(self).clock_started() == old(self).clock_started(),
    {
        let elapsed: u128 = nanos_between(self.last_press_time, now);
        self.click_count = click_count_after(self.click_count, elapsed, near);
        self.last_press_time = now;
        self.last_press_position = self.pointer;
        self.click_count
    }

    fn translate_mouse(&mut self, event: MouseEvent<C>, now: u128) -> (translated: Option<
        MasonryEvent<C>,
    >)
        ensures
            final(self)@ == old(self)@.after(Event::Mouse(event), now),
            final(self)@.tells(Event::Mouse(event), now, translated),
            final(self).clock_started() == old(self).clock_started(),
    {
        match event {
            MouseEvent::CursorMoved { position, modifiers } => {
                self.pointer = position;
                self.modifiers = translate_modifiers(modifiers);
                Some(
                    MasonryEvent::Pointer(
                        PointerEvent::Move(
                            PointerUpdate {
                                pointer: self.make_pointer_info(),
                                current: self.make_pointer_state(1, now),
                                coalesced: Vec::new(),
                                predicted: Vec::new(),
                            },
                        ),
                    ),
                )
            },
            MouseEvent::ButtonPressed { button, modifiers, near_last_press } => {
                self.modifiers = translate_modifiers(modifiers);
                let pressed = translate_mouse_button(button);
                insert_button(&mut self.buttons, pressed);
                let count: u8 = self.update_click_count(near_last_press, now);
                Some(
                    MasonryEvent::Pointer(
                        PointerEvent::Down(
                            PointerButtonEvent {
                                button: Some(pressed),
                                pointer: self.make_pointer_info(),
                                state: self.make_pointer_state(count, now),
                            },
                        ),
                    ),
                )
            },
            MouseEvent::ButtonReleased { button, modifiers } => {
                self.modifiers = translate_modifiers(modifiers);
                let released = translate_mouse_button(button);
                remove_button(&mut self.buttons, released);
                Some(
                    MasonryEvent::Pointer(
                        PointerEvent::Up(
                            PointerButtonEvent {
                                button: Some(released),
                                pointer: self.make_pointer_info(),
                                state: self.make_pointer_state(self.click_count, now),
                            },
                        ),
                    ),
                )
            },
            MouseEvent::WheelScrolled { delta, modifiers } => {
                self.modifiers = translate_modifiers(modifiers);
                let scroll_delta = match delta {
                    ScrollDelta::Lines { x, y } => PointerScrollDelta::LineDelta(x, y),
                    ScrollDelta::Pixels { x, y } => PointerScrollDelta::PixelDelta(Point { x, y }),
                };
                Some(
                    MasonryEvent::Pointer(
                        PointerEvent::Scroll(
                            PointerScrollEvent {
                                pointer: self.make_pointer_info(),
                                delta: scroll_delta,
                                state: self.make_pointer_state(1, now),
                            },
                        ),
                    ),
                )
            },
            MouseEvent::CursorEntered => Some(
                MasonryEvent::Pointer(PointerEvent::Enter(self.make_pointer_info())),
            ),
            MouseEvent::CursorLeft => Some(
                MasonryEvent::Pointer(PointerEvent::Leave(self.make_pointer_info())),
            ),
            MouseEvent::Other => None,
        }
    }

    fn translate_keyboard(&mut self, event: KeyboardEvent, now: u128) -> (translated: Option<
        MasonryEvent<C>,
    >)
        ensures
            final(self)@ == old(self)@.after(Event::Keyboard(event), now),
            final(self)@.tells(Event::Keyboard(event), now, translated),
            final(self).clock_started() == old(self).clock_started(),
    {
        self.modifiers = translate_modifiers(modifiers_of(&event));
        Some(MasonryEvent::Keyboard(event))
    }

    fn translate_window(&mut self, event: WindowEvent<C>, now: u128) -> (translated: Option<
        MasonryEvent<C>,
    >)
        ensures
            final(self)@ == old(self)@.after(Event::Window(event), now),
            final(self)@.tells(Event::Window(event), now, translated),
            final(self).clock_started() == old(self).clock_started(),
    {
        match event {
            WindowEvent::Resized { physical_size, scale } => {
                self.scale_factor = scale;
                Some(
                    MasonryEvent::Resize {
                        width: physical_size.width,
                        height: physical_size.height,
                        scale,
                    },
                )
            },
            WindowEvent::Focused => Some(MasonryEvent::Focus(true)),
            WindowEvent::Unfocused => Some(MasonryEvent::Focus(false)),
            WindowEvent::WillClose => Some(MasonryEvent::Close),
        }
    }
}

impl<C> PointerModel<C> {
    /// The model after a sequence of events, each with the time it came.
    pub open spec fn after_all(self, events: Seq<(Event<C>, u128)>) -> PointerModel<C>
        decreases events.len(),
    {
        if events.len() == 0 {
            self
        } else {
            let (event, now) = events.last();
            self.after_all(events.drop_last()).after(event, now)
        }
    }
}

/// The event presses a button that the widget tree calls `button`.
pub open spec fn presses<C>(event: Event<C>, button: PointerButton) -> bool {
    event matches Event::Mouse(MouseEvent::ButtonPressed { button: b, .. })
        && input::pointer_button(b) == button
}

/// The event releases a button that the widget tree calls `button`.
pub open spec fn releases<C>(event: Event<C>, button: PointerButton) -> bool {
    event matches Event::Mouse(MouseEvent::ButtonReleased { button: b, .. })
        && input::pointer_button(b) == button
}

/// The event presses some button.
pub open spec fn is_press<C>(event: Event<C>) -> bool {
    event matches Event::Mouse(MouseEvent::ButtonPressed { .. })
}

/// At `now`, a press at the place of the latest press continues its run.
pub open spec fn quick_after(earlier: u128, now: u128) -> bool {
    clock::spec_nanos_between(earlier, now) <= DOUBLE_CLICK_TIME_MS * NANOS_PER_MS
}

/// The events are presses, each near the press before it and at most the
/// multi-click time after it; the first follows a press at `start`.
pub open spec fn quick_presses<C>(start: u128, events: Seq<(Event<C>, u128)>) -> bool {
    forall|i: int|
        0 <= i < events.len() ==> {
            &&& (#[trigger] events[i]).0 matches Event::Mouse(
                MouseEvent::ButtonPressed { near_last_press, .. },
            )
            &&& near_last_press
            &&& quick_after(
                if i == 0 {
                    start
                } else {
                    events[i - 1].1
                },
                events[i].1,
            )
        }
}

/// Multi-clicks: the last of `n` quick presses after a press that counted `c`
/// counts `c + n`, up to the largest count.
pub proof fn law_quick_presses_add_up<C>(model: PointerModel<C>, events: Seq<(Event<C>, u128)>)
    requires
        quick_presses(model.last_press_time, events),
    ensures
        model.after_all(events).click_count == if model.click_count + events.len() <= u8::MAX {
            model.click_count + events.len()
        } else {
            u8::MAX as int
        },
    decreases events.len(),
{
    if events.len() > 0 {
        let before = events.drop_last();
        assert forall|i: int| 0 <= i < before.len() implies (#[trigger] before[i]) == events[i] by {}
        assert(quick_presses(model.last_press_time, before)) by {
            assert forall|i: int| 0 <= i < before.len() implies {
                &&& (#[trigger] before[i]).0 matches Event::Mouse(
                    MouseEvent::ButtonPressed { near_last_press, .. },
                )
                &&& near_last_press
                &&& quick_after(
                    if i == 0 {
                        model.last_press_time
                    } else {
                        before[i - 1].1
                    },
                    before[i].1,
                )
            } by {
                assert(before[i] == events[i]);
            }
        }
        law_quick_presses_add_up(model, before);
        assert(events[events.len() - 1].0 is Mouse);
        if before.len() > 0 {
            assert(before.last() == events[events.len() - 2]);
            assert(events[events.len() - 2].0 is Mouse);
        }
    }
}

/// A press that is too late or too far from the one before it starts a new run.
pub proof fn law_slow_or_distant_press_counts_one<C>(
    model: PointerModel<C>,
    button: MouseButton,
    modifiers: Modifiers,
    near_last_press: bool,
    now: u128,
)
    requires
        !near_last_press || !quick_after(model.last_press_time, now),
    ensures
        model.after(
            Event::Mouse(MouseEvent::ButtonPressed { button, modifiers, near_last_press }),
            now,
        ).click_count == 1,
{
}

/// The first press of a window counts one, however soon it comes.
pub proof fn law_first_press_counts_one<C>(
    model: PointerModel<C>,
    button: MouseButton,
    modifiers: Modifiers,
    near_last_press: bool,
    now: u128,
)
    requires
        model.click_count == 0,
    ensures
        model.after(
            Event::Mouse(MouseEvent::ButtonPressed { button, modifiers, near_last_press }),
            now,
        ).click_count == 1,
{
}

/// Between two presses the count stays, so a release is told with the count of
/// the press before it, whatever came in between.
pub proof fn law_count_stays_between_presses<C>(
    model: PointerModel<C>,
    events: Seq<(Event<C>, u128)>,
)
    requires
        forall|i: int| 0 <= i < events.len() ==> !is_press((#[trigger] events[i]).0),
    ensures
        model.after_all(events).click_count == model.click_count,
        model.after_all(events).last_press_time == model.last_press_time,
        model.after_all(events).last_press_position == model.last_press_position,
    decreases events.len(),
{
    if events.len() > 0 {
        let before = events.drop_last();
        assert forall|i: int| 0 <= i < before.len() implies !is_press((#[trigger] before[i]).0) by {
            assert(before[i] == events[i]);
        }
        law_count_stays_between_presses(model, before);
        assert(!is_press(events[events.len() - 1].0));
    }
}

/// A button that is pressed is held until it is released, whatever comes in
/// between.
pub proof fn law_button_is_held_until_released<C>(
    model: PointerModel<C>,
    button: PointerButton,
    press: (Event<C>, u128),
    events: Seq<(Event<C>, u128)>,
)
    requires
        presses(press.0, button),
        forall|i: int| 0 <= i < events.len() ==> !releases((#[trigger] events[i]).0, button),
    ensures
        model.after(press.0, press.1).after_all(events).buttons.contains(button.mask()),
    decreases events.len(),
{
    if events.len() > 0 {
        let before = events.drop_last();
        assert forall|i: int| 0 <= i < before.len() implies !releases(
            (#[trigger] before[i]).0,
            button,
        ) by {
            assert(before[i] == events[i]);
        }
        law_button_is_held_until_released(model, button, press, before);
        assert(!releases(events[events.len() - 1].0, button));
    }
}

/// A button that is released is not held until it is pressed again, whatever
/// comes in between.
pub proof fn law_button_is_free_until_pressed<C>(
    model: PointerModel<C>,
    button: PointerButton,
    release: (Event<C>, u128),
    events: Seq<(Event<C>, u128)>,
)
    requires
        releases(release.0, button),
        forall|i: int| 0 <= i < events.len() ==> !presses((#[trigger] events[i]).0, button),
    ensures
        !model.after(release.0, release.1).after_all(events).buttons.contains(button.mask()),
    decreases events.len(),
{
    if events.len() > 0 {
        let before = events.drop_last();
        assert forall|i: int| 0 <= i < before.len() implies !presses(
            (#[trigger] before[i]).0,
            button,
        ) by {
            assert(before[i] == events[i]);
        }
        law_button_is_free_until_pressed(model, button, release, before);
        assert(!presses(events[events.len() - 1].0, button));
    }
}

/// No event presses or releases a button that the widget tree calls `button`.
pub open spec fn never_named<C>(events: Seq<(Event<C>, u128)>, button: PointerButton) -> bool {
    forall|i: int|
        0 <= i < events.len() ==> !presses((#[trigger] events[i]).0, button) && !releases(
            events[i].0,
            button,
        )
}

/// The latest event that presses or releases a button that the widget tree calls
/// `button` presses it.
pub open spec fn latest_is_press<C>(events: Seq<(Event<C>, u128)>, button: PointerButton) -> bool {
    exists|i: int|
        {
            &&& 0 <= i < events.len()
            &&& presses((#[trigger] events[i]).0, button)
            &&& never_named(events.skip(i + 1), button)
        }
}

/// A button is held exactly when the latest event that presses or releases it is
/// a press; while there is no such event, it stays as it was at first.
pub proof fn law_button_is_held_iff_latest_is_press<C>(
    model: PointerModel<C>,
    button: PointerButton,
    events: Seq<(Event<C>, u128)>,
)
    ensures
        model.after_all(events).buttons.contains(button.mask()) <==> if never_named(
            events,
            button,
        ) {
            model.buttons.contains(button.mask())
        } else {
            latest_is_press(events, button)
        },
    decreases events.len(),
{
    if events.len() > 0 {
        let before = events.drop_last();
        let end = events.last();
        law_button_is_held_iff_latest_is_press(model, button, before);
        assert(before.push(end) =~= events);
        if presses(end.0, button) {
            lemma_press_at_the_end(before, end, button);
        } else if releases(end.0, button) {
            lemma_release_at_the_end(before, end, button);
        } else {
            lemma_neutral_end(before, end, button);
            lemma_neutral_end_keeps_latest(before, end, button);
            lemma_neutral_end_keeps_buttons(model.after_all(before), end, button);
        }
    }
}

/// An event that neither presses nor releases the button leaves it as it is.
proof fn lemma_neutral_end_keeps_buttons<C>(
    model: PointerModel<C>,
    end: (Event<C>, u128),
    button: PointerButton,
)
    requires
        !presses(end.0, button),
        !releases(end.0, button),
    ensures
        model.after(end.0, end.1).buttons.contains(button.mask()) == model.buttons.contains(
            button.mask(),
        ),
{
    match end.0 {
        Event::Mouse(MouseEvent::ButtonPressed { button: other, .. }) => {
            input::law_masks_tell_buttons_apart(input::pointer_button(other), button);
        },
        Event::Mouse(MouseEvent::ButtonReleased { button: other, .. }) => {
            input::law_masks_tell_buttons_apart(input::pointer_button(other), button);
        },
        _ => {},
    }
}

/// With a press at the end, the latest event that names the button is a press.
proof fn lemma_press_at_the_end<C>(
    events: Seq<(Event<C>, u128)>,
    end: (Event<C>, u128),
    button: PointerButton,
)
    requires
        presses(end.0, button),
    ensures
        latest_is_press(events.push(end), button),
        !never_named(events.push(end), button),
{
    let longer = events.push(end);
    let last = events.len() as int;
    assert(longer[last] == end);
    assert(longer.skip(last + 1).len() == 0);
    assert(never_named(longer.skip(last + 1), button));
}

/// With a release at the end, the latest event that names the button is no press.
proof fn lemma_release_at_the_end<C>(
    events: Seq<(Event<C>, u128)>,
    end: (Event<C>, u128),
    button: PointerButton,
)
    requires
        releases(end.0, button),
    ensures
        !latest_is_press(events.push(end), button),
        !never_named(events.push(end), button),
{
    let longer = events.push(end);
    let last = events.len() as int;
    assert(longer[last] == end);
    if latest_is_press(longer, button) {
        let i = choose|i: int|
            {
                &&& 0 <= i < longer.len()
                &&& presses((#[trigger] longer[i]).0, button)
                &&& never_named(longer.skip(i + 1), button)
            };
        assert(i < last);
        let rest = longer.skip(i + 1);
        assert(rest[last - i - 1] == end);
        assert(!releases(rest[last - i - 1].0, button));
    }
}

/// An event at the end that neither presses nor releases the button does not change
/// which event names it last.
proof fn lemma_neutral_end_keeps_latest<C>(
    events: Seq<(Event<C>, u128)>,
    end: (Event<C>, u128),
    button: PointerButton,
)
    requires
        !presses(end.0, button),
        !releases(end.0, button),
    ensures
        latest_is_press(events.push(end), button) == latest_is_press(events, button),
{
    let longer = events.push(end);
    if latest_is_press(events, button) {
        let i = choose|i: int|
            {
                &&& 0 <= i < events.len()
                &&& presses((#[trigger] events[i]).0, button)
                &&& never_named(events.skip(i + 1), button)
            };
        lemma_neutral_end(events.skip(i + 1), end, button);
        assert(events.skip(i + 1).push(end) =~= longer.skip(i + 1));
        assert(longer[i] == events[i]);
        assert(presses(longer[i].0, button));
    }
    if latest_is_press(longer, button) {
        let i = choose|i: int|
            {
                &&& 0 <= i < longer.len()
                &&& presses((#[trigger] longer[i]).0, button)
                &&& never_named(longer.skip(i + 1), button)
            };
        assert(longer[events.len() as int] == end);
        assert(i < events.len());
        lemma_neutral_end(events.skip(i + 1), end, button);
        assert(events.skip(i + 1).push(end) =~= longer.skip(i + 1));
        assert(events[i] == longer[i]);
        assert(presses(events[i].0, button));
    }
}

/// An event at the end that neither presses nor releases the button does not
/// change whether it is named.
proof fn lemma_neutral_end<C>(
    events: Seq<(Event<C>, u128)>,
    end: (Event<C>, u128),
    button: PointerButton,
)
    requires
        !presses(end.0, button),
        !releases(end.0, button),
    ensures
        never_named(events.push(end), button) == never_named(events, button),
{
    let longer = events.push(end);
    if never_named(longer, button) {
        assert forall|i: int| 0 <= i < events.len() implies !presses(
            (#[trigger] events[i]).0,
            button,
        ) && !releases(events[i].0, button) by {
            assert(longer[i] == events[i]);
        }
    }
    if never_named(events, button) {
        assert forall|i: int| 0 <= i < longer.len() implies !presses(
            (#[trigger] longer[i]).0,
            button,
        ) && !releases(longer[i].0, button) by {
            if i < events.len() {
                assert(longer[i] == events[i]);
            } else {
                assert(longer[i] == end);
            }
        }
    }
}

/// Pressing a button and releasing it again leaves every other button as it was,
/// and all of them if the button was free before.
pub proof fn law_release_undoes_press<C>(
    model: PointerModel<C>,
    button: PointerButton,
    press: (Event<C>, u128),
    release: (Event<C>, u128),
)
    requires
        presses(press.0, button),
        releases(release.0, button),
    ensures
        model.after(press.0, press.1).after(release.0, release.1).buttons == model.buttons.remove(
            button.mask(),
        ),
        !model.buttons.contains(button.mask()) ==> model.after(press.0, press.1).after(
            release.0,
            release.1,
        ).buttons == model.buttons,
{
    let both = model.after(press.0, press.1).after(release.0, release.1).buttons;
    assert(both =~= model.buttons.remove(button.mask()));
    if !model.buttons.contains(button.mask()) {
        assert(both =~= model.buttons);
    }
}

/// The translator never reports a modifier other than shift, control, alt and
/// meta, whatever events come.
pub proof fn law_only_known_modifiers_are_reported<C>(
    model: PointerModel<C>,
    events: Seq<(Event<C>, u128)>,
)
    requires
        model.modifiers.subset_of(input::reported_masks()),
    ensures
        model.after_all(events).modifiers.subset_of(input::reported_masks()),
    decreases events.len(),
{
    if events.len() > 0 {
        law_only_known_modifiers_are_reported(model, events.drop_last());
    }
}

/// Translating the modifiers of two sets together gives the modifiers that
/// translating each of them gives.
pub proof fn law_translation_keeps_unions(a: Modifiers, b: Modifiers, both: Modifiers)
    requires
        input::held_modifiers(both) == input::held_modifiers(a).union(input::held_modifiers(b)),
    ensures
        reported(both) == reported(a).union(reported(b)),
{
    assert(reported(both) =~= reported(a).union(reported(b)));
}

/// Translating no modifiers gives none.
pub proof fn law_translation_keeps_nothing(none: Modifiers)
    requires
        input::held_modifiers(none) == Set::<u32>::empty(),
    ensures
        reported(none) == Set::<u32>::empty(),
{
    assert(reported(none) =~= Set::<u32>::empty());
}

/// As long as the clock's readings fit into sixty-four bits, the times that are
/// told are those readings, so they do not go back if the readings do not.
pub proof fn law_told_times_do_not_go_back<C>(
    earlier: PointerModel<C>,
    earlier_state: PointerState<C>,
    earlier_count: u8,
    earlier_now: u128,
    later: PointerModel<C>,
    later_state: PointerState<C>,
    later_count: u8,
    later_now: u128,
)
    requires
        earlier.shown_by(earlier_state, earlier_count, earlier_now),
        later.shown_by(later_state, later_count, later_now),
        earlier_now <= later_now <= u64::MAX,
    ensures
        earlier_state.time == earlier_now,
        later_state.time == later_now,
        earlier_state.time <= later_state.time,
{
}

/// Only a cursor movement moves the pointer, and only a resize changes the scale
/// factor.
pub proof fn law_position_and_scale_stay<C>(model: PointerModel<C>, event: Event<C>, now: u128)
    ensures
        !(event matches Event::Mouse(MouseEvent::CursorMoved { .. })) ==> model.after(
            event,
            now,
        ).pointer == model.pointer,
        !(event matches Event::Window(WindowEvent::Resized { .. })) ==> model.after(
            event,
            now,
        ).scale_factor == model.scale_factor,
{
}

/// Every event is told to the widget tree except those that mean nothing to it,
/// and those change nothing.
pub proof fn law_untold_events_change_nothing<C>(
    model: PointerModel<C>,
    event: Event<C>,
    now: u128,
    translated: Option<MasonryEvent<C>>,
)
    requires
        model.after(event, now).tells(event, now, translated),
    ensures
        translated is None <==> event == Event::<C>::Mouse(MouseEvent::Other),
        translated is None ==> model.after(event, now) == model,
{
}

/// The state of the pointer that an event tells the widget tree, if it tells one.
pub open spec fn told_state<C>(translated: Option<MasonryEvent<C>>) -> Option<PointerState<C>> {
    match translated {
        Some(MasonryEvent::Pointer(PointerEvent::Move(update))) => Some(update.current),
        Some(MasonryEvent::Pointer(PointerEvent::Down(down))) => Some(down.state),
        Some(MasonryEvent::Pointer(PointerEvent::Up(up))) => Some(up.state),
        Some(MasonryEvent::Pointer(PointerEvent::Scroll(scroll))) => Some(scroll.state),
        _ => None,
    }
}

/// The bits of the modifiers that come with an event, if any come with it.
pub open spec fn modifiers_with<C>(event: Event<C>) -> Option<Set<u32>> {
    match event {
        Event::Mouse(MouseEvent::CursorMoved { modifiers, .. }) => Some(
            input::held_modifiers(modifiers),
        ),
        Event::Mouse(MouseEvent::ButtonPressed { modifiers, .. }) => Some(
            input::held_modifiers(modifiers),
        ),
        Event::Mouse(MouseEvent::ButtonReleased { modifiers, .. }) => Some(
            input::held_modifiers(modifiers),
        ),
        Event::Mouse(MouseEvent::WheelScrolled { modifiers, .. }) => Some(
            input::held_modifiers(modifiers),
        ),
        Event::Keyboard(key) => Some(key_event_modifiers(key)),
        _ => None,
    }
}

/// The bits that a set of buttons can hold after events of the window system.
proof fn lemma_only_known_buttons<C>(model: PointerModel<C>, events: Seq<(Event<C>, u128)>)
    requires
        model.buttons.subset_of(set![1u32, 2u32, 4u32, 8u32, 16u32]),
    ensures
        model.after_all(events).buttons.subset_of(set![1u32, 2u32, 4u32, 8u32, 16u32]),
    decreases events.len(),
{
    if events.len() > 0 {
        lemma_only_known_buttons(model, events.drop_last());
    }
}

/// Whatever came before, the buttons that a movement, a press, a release or a
/// scroll is told with are exactly those whose latest press or release, this event
/// included, was a press. So a drag is told with the button that is dragged with.
pub proof fn law_told_buttons_are_those_pressed_last<C>(
    start: PointerModel<C>,
    events: Seq<(Event<C>, u128)>,
    event: Event<C>,
    now: u128,
    translated: Option<MasonryEvent<C>>,
    state: PointerState<C>,
    button: PointerButton,
)
    requires
        start.buttons == Set::<u32>::empty(),
        start.after_all(events).after(event, now).tells(event, now, translated),
        told_state(translated) == Some(state),
    ensures
        input::held_buttons(state.buttons).contains(button.mask()) <==> latest_is_press(
            events.push((event, now)),
            button,
        ),
        input::held_buttons(state.buttons).subset_of(set![1u32, 2u32, 4u32, 8u32, 16u32]),
{
    let all = events.push((event, now));
    assert(all.drop_last() =~= events);
    law_button_is_held_iff_latest_is_press(start, button, all);
    lemma_only_known_buttons(start, all);
    if never_named(all, button) && latest_is_press(all, button) {
        let i = choose|i: int|
            {
                &&& 0 <= i < all.len()
                &&& presses((#[trigger] all[i]).0, button)
                &&& never_named(all.skip(i + 1), button)
            };
        assert(!presses(all[i].0, button));
    }
}

/// The state that a movement, a press, a release or a scroll is told with is that
/// of its moment: the position is the one moved to or else the one before, the
/// button is added or taken away or else the buttons are those before, the
/// modifiers are those of shift, control, alt and meta that come with the event,
/// the scale factor is the one in force, and the time is the one at which it came.
pub proof fn law_told_state_is_that_of_the_moment<C>(
    model: PointerModel<C>,
    event: Event<C>,
    now: u128,
    translated: Option<MasonryEvent<C>>,
    state: PointerState<C>,
    bit: u32,
)
    requires
        model.after(event, now).tells(event, now, translated),
        told_state(translated) == Some(state),
    ensures
        event matches Event::Mouse(MouseEvent::CursorMoved { position, .. }) ==> state.position
            == position,
        !(event matches Event::Mouse(MouseEvent::CursorMoved { .. })) ==> state.position
            == model.pointer,
        event matches Event::Mouse(MouseEvent::ButtonPressed { button, .. }) ==> (
        input::held_buttons(state.buttons).contains(bit) <==> model.buttons.contains(bit) || bit
            == input::pointer_button(button).mask()),
        event matches Event::Mouse(MouseEvent::ButtonReleased { button, .. }) ==> (
        input::held_buttons(state.buttons).contains(bit) <==> model.buttons.contains(bit) && bit
            != input::pointer_button(button).mask()),
        event matches Event::Mouse(MouseEvent::CursorMoved { .. }) ==> input::held_buttons(
            state.buttons,
        ) == model.buttons,
        event matches Event::Mouse(MouseEvent::WheelScrolled { .. }) ==> input::held_buttons(
            state.buttons,
        ) == model.buttons,
        modifiers_with(event) is Some,
        input::held_modifiers(state.modifiers).contains(bit) <==> modifiers_with(event)->0.contains(
            bit,
        ) && (bit == 0x200 || bit == 0x8 || bit == 0x1 || bit == 0x40),
        state.scale_factor == model.scale_factor,
        now <= u64::MAX ==> state.time == now,
        now > u64::MAX ==> state.time == now as u64,
        state.contact_geometry.width == 1 && state.contact_geometry.height == 1,
        state.pressure == 0 && state.tangential_pressure == 0,
{
}

/// What the widget tree was told last is what the translator goes on from; an event
/// that tells no state leaves the pointer and the buttons alone, and changes the
/// modifiers only if some come with it and the scale factor only if it is a resize.
pub proof fn law_translator_goes_on_from_what_it_told<C>(
    model: PointerModel<C>,
    event: Event<C>,
    now: u128,
    translated: Option<MasonryEvent<C>>,
    bit: u32,
)
    requires
        model.after(event, now).tells(event, now, translated),
    ensures
        ({
            let after = model.after(event, now);
            &&& told_state(translated) matches Some(state) ==> {
                &&& after.pointer == state.position
                &&& after.buttons == input::held_buttons(state.buttons)
                &&& after.modifiers == input::held_modifiers(state.modifiers)
                &&& after.scale_factor == state.scale_factor
            }
            &&& told_state(translated) is None ==> {
                &&& after.pointer == model.pointer
                &&& after.buttons == model.buttons
            }
            &&& modifiers_with(event) matches Some(held) ==> (after.modifiers.contains(bit)
                <==> held.contains(bit) && (bit == 0x200 || bit == 0x8 || bit == 0x1 || bit
                == 0x40))
            &&& modifiers_with(event) is None ==> after.modifiers == model.modifiers
            &&& event matches Event::Window(WindowEvent::Resized { scale, .. })
                ==> after.scale_factor == scale
            &&& !(event matches Event::Window(WindowEvent::Resized { .. }))
                ==> after.scale_factor == model.scale_factor
        }),
{
}

/// Every event is told as what it is: movements as movements, presses and releases
/// with the button concerned, scrolls in their unit and by their distance, the
/// cursor's coming and going, keys unchanged, and the window's size, focus and end.
pub proof fn law_events_are_told_as_what_they_are<C>(
    model: PointerModel<C>,
    event: Event<C>,
    now: u128,
    translated: Option<MasonryEvent<C>>,
)
    requires
        model.after(event, now).tells(event, now, translated),
    ensures
        event matches Event::Mouse(MouseEvent::CursorMoved { .. }) <==> translated matches Some(
            MasonryEvent::Pointer(PointerEvent::Move(_)),
        ),
        event matches Event::Mouse(MouseEvent::ButtonPressed { .. }) <==> translated matches Some(
            MasonryEvent::Pointer(PointerEvent::Down(_)),
        ),
        event matches Event::Mouse(MouseEvent::ButtonReleased { .. }) <==> translated matches Some(
            MasonryEvent::Pointer(PointerEvent::Up(_)),
        ),
        event matches Event::Mouse(MouseEvent::WheelScrolled { .. }) <==> translated matches Some(
            MasonryEvent::Pointer(PointerEvent::Scroll(_)),
        ),
        event matches Event::Mouse(MouseEvent::CursorEntered) <==> translated matches Some(
            MasonryEvent::Pointer(PointerEvent::Enter(_)),
        ),
        event matches Event::Mouse(MouseEvent::CursorLeft) <==> translated matches Some(
            MasonryEvent::Pointer(PointerEvent::Leave(_)),
        ),
        event matches Event::Mouse(MouseEvent::Other) <==> translated is None,
        event matches Event::Keyboard(key) ==> translated == Some(MasonryEvent::<C>::Keyboard(key)),
        translated matches Some(MasonryEvent::Keyboard(key)) ==> event == Event::<C>::Keyboard(key),
        event matches Event::Window(WindowEvent::Resized { physical_size, scale }) ==> {
            &&& translated matches Some(MasonryEvent::Resize { width, height, scale: told })
            &&& width == physical_size.width
            &&& height == physical_size.height
            &&& told == scale
        },
        event matches Event::Window(WindowEvent::Focused) ==> translated == Some(
            MasonryEvent::<C>::Focus(true),
        ),
        event matches Event::Window(WindowEvent::Unfocused) ==> translated == Some(
            MasonryEvent::<C>::Focus(false),
        ),
        event matches Event::Window(WindowEvent::WillClose) ==> translated == Some(
            MasonryEvent::<C>::Close,
        ),
{
}

/// The pointer behind an event that the widget tree is told of.
pub open spec fn told_pointer<C>(translated: Option<MasonryEvent<C>>) -> Option<PointerInfo> {
    match translated {
        Some(MasonryEvent::Pointer(PointerEvent::Move(update))) => Some(update.pointer),
        Some(MasonryEvent::Pointer(PointerEvent::Down(down))) => Some(down.pointer),
        Some(MasonryEvent::Pointer(PointerEvent::Up(up))) => Some(up.pointer),
        Some(MasonryEvent::Pointer(PointerEvent::Scroll(scroll))) => Some(scroll.pointer),
        Some(MasonryEvent::Pointer(PointerEvent::Enter(info))) => Some(info),
        Some(MasonryEvent::Pointer(PointerEvent::Leave(info))) => Some(info),
        _ => None,
    }
}

/// Every mouse event that is told comes from one and the same pointer, the mouse as
/// the primary one.
pub proof fn law_mouse_is_the_primary_pointer<C>(
    model: PointerModel<C>,
    event: Event<C>,
    now: u128,
    translated: Option<MasonryEvent<C>>,
)
    requires
        model.after(event, now).tells(event, now, translated),
    ensures
        told_pointer(translated) is Some <==> event is Mouse && translated is Some,
        told_pointer(translated) matches Some(info) ==> {
            &&& info.pointer_id == Some(1u64)
            &&& info.persistent_device_id is None
            &&& info.pointer_type is Mouse
        },
{
}

/// `told` is the name of the mouse button `button`: the left one is the primary, the
/// right one the secondary, the middle one the auxiliary, those for going back and
/// forward have names of their own, and any other counts as the left one.
pub open spec fn names(told: Option<PointerButton>, button: MouseButton) -> bool {
    &&& told matches Some(name)
    &&& name is Primary <==> button is Left || button is Other
    &&& name is Secondary <==> button is Right
    &&& name is Auxiliary <==> button is Middle
    &&& name is X1 <==> button is Back
    &&& name is X2 <==> button is Forward
}

/// A press is told with the button that was pressed, a release with the one that
/// was released.
pub proof fn law_presses_and_releases_name_their_button<C>(
    model: PointerModel<C>,
    button: MouseButton,
    modifiers: Modifiers,
    near_last_press: bool,
    now: u128,
    pressed: Option<MasonryEvent<C>>,
    released: Option<MasonryEvent<C>>,
)
    requires
        ({
            let press = Event::Mouse(
                MouseEvent::ButtonPressed { button, modifiers, near_last_press },
            );
            model.after(press, now).tells(press, now, pressed)
        }),
        ({
            let release = Event::Mouse(MouseEvent::ButtonReleased { button, modifiers });
            model.after(release, now).tells(release, now, released)
        }),
    ensures
        pressed matches Some(MasonryEvent::Pointer(PointerEvent::Down(down))) && names(
            down.button,
            button,
        ),
        released matches Some(MasonryEvent::Pointer(PointerEvent::Up(up))) && names(
            up.button,
            button,
        ),
{
}

/// A scroll goes as far as the wheel was turned, in lines if it was turned by lines
/// and in pixels if it was turned by pixels.
pub proof fn law_scrolls_keep_distance_and_unit<C>(
    model: PointerModel<C>,
    x: C,
    y: C,
    modifiers: Modifiers,
    now: u128,
    by_lines: Option<MasonryEvent<C>>,
    by_pixels: Option<MasonryEvent<C>>,
)
    requires
        ({
            let turn = Event::Mouse(
                MouseEvent::WheelScrolled { delta: ScrollDelta::Lines { x, y }, modifiers },
            );
            model.after(turn, now).tells(turn, now, by_lines)
        }),
        ({
            let turn = Event::Mouse(
                MouseEvent::WheelScrolled { delta: ScrollDelta::Pixels { x, y }, modifiers },
            );
            model.after(turn, now).tells(turn, now, by_pixels)
        }),
    ensures
        by_lines matches Some(MasonryEvent::Pointer(PointerEvent::Scroll(scroll))) && (scroll.delta
            matches PointerScrollDelta::LineDelta(dx, dy) && dx == x && dy == y),
        by_pixels matches Some(MasonryEvent::Pointer(PointerEvent::Scroll(scroll))) && (scroll.delta
            matches PointerScrollDelta::PixelDelta(by) && by.x == x && by.y == y),
{
}

/// Movements and scrolls are told with a count of one, and a movement comes alone,
/// without coalesced or predicted states.
pub proof fn law_movements_and_scrolls_count_one<C>(
    model: PointerModel<C>,
    event: Event<C>,
    now: u128,
    translated: Option<MasonryEvent<C>>,
)
    requires
        model.after(event, now).tells(event, now, translated),
    ensures
        translated matches Some(MasonryEvent::Pointer(PointerEvent::Move(update))) ==> {
            &&& update.current.count == 1
            &&& update.coalesced@.len() == 0
            &&& update.predicted@.len() == 0
        },
        translated matches Some(MasonryEvent::Pointer(PointerEvent::Scroll(scroll)))
            ==> scroll.state.count == 1,
{
}

/// Two presses at any times, with anything but presses in between: the second is
/// told with one more than the first, up to the largest count, if it is near the
/// first and comes at most half a second later; if it is not near or comes later
/// than that, it is told with one. A clock that went back counts as no time.
pub proof fn law_second_press_counts_by_time_and_place<C>(
    model: PointerModel<C>,
    first: Event<C>,
    first_time: u128,
    first_told: Option<MasonryEvent<C>>,
    first_state: PointerState<C>,
    between: Seq<(Event<C>, u128)>,
    button: MouseButton,
    modifiers: Modifiers,
    near_last_press: bool,
    second_time: u128,
    second_told: Option<MasonryEvent<C>>,
    second_state: PointerState<C>,
)
    requires
        first matches Event::Mouse(MouseEvent::ButtonPressed { .. }),
        model.after(first, first_time).tells(first, first_time, first_told),
        told_state(first_told) == Some(first_state),
        forall|i: int|
            0 <= i < between.len() ==> !((#[trigger] between[i]).0 matches Event::Mouse(
                MouseEvent::ButtonPressed { .. },
            )),
        ({
            let second = Event::Mouse(
                MouseEvent::ButtonPressed { button, modifiers, near_last_press },
            );
            model.after(first, first_time).after_all(between).after(second, second_time).tells(
                second,
                second_time,
                second_told,
            )
        }),
        told_state(second_told) == Some(second_state),
    ensures
        near_last_press && second_time - first_time <= 500_000_000 && first_state.count < 255
            ==> second_state.count == first_state.count + 1,
        near_last_press && second_time - first_time <= 500_000_000 && first_state.count == 255
            ==> second_state.count == 255,
        second_time - first_time > 500_000_000 ==> second_state.count == 1,
        !near_last_press ==> second_state.count == 1,
{
    let after_first = model.after(first, first_time);
    assert forall|i: int| 0 <= i < between.len() implies !is_press((#[trigger] between[i]).0) by {}
    law_count_stays_between_presses(after_first, between);
}

/// A release is told with the count of the latest press, whatever came in between.
pub proof fn law_release_counts_as_its_press<C>(
    model: PointerModel<C>,
    press: Event<C>,
    press_time: u128,
    press_told: Option<MasonryEvent<C>>,
    press_state: PointerState<C>,
    between: Seq<(Event<C>, u128)>,
    release: Event<C>,
    release_time: u128,
    release_told: Option<MasonryEvent<C>>,
    release_state: PointerState<C>,
)
    requires
        press matches Event::Mouse(MouseEvent::ButtonPressed { .. }),
        model.after(press, press_time).tells(press, press_time, press_told),
        told_state(press_told) == Some(press_state),
        forall|i: int|
            0 <= i < between.len() ==> !((#[trigger] between[i]).0 matches Event::Mouse(
                MouseEvent::ButtonPressed { .. },
            )),
        release matches Event::Mouse(MouseEvent::ButtonReleased { .. }),
        model.after(press, press_time).after_all(between).after(release, release_time).tells(
            release,
            release_time,
            release_told,
        ),
        told_state(release_told) == Some(release_state),
    ensures
        release_state.count == press_state.count,
{
    let after_press = model.after(press, press_time);
    assert forall|i: int| 0 <= i < between.len() implies !is_press((#[trigger] between[i]).0) by {}
    law_count_stays_between_presses(after_press, between);
}

/// The place and time of the latest press are those with which it was told, and stay
/// until the next press.
pub proof fn law_latest_press_is_remembered<C>(
    model: PointerModel<C>,
    press: Event<C>,
    press_time: u128,
    told: Option<MasonryEvent<C>>,
    state: PointerState<C>,
    later: Seq<(Event<C>, u128)>,
)
    requires
        press matches Event::Mouse(MouseEvent::ButtonPressed { .. }),
        model.after(press, press_time).tells(press, press_time, told),
        told_state(told) == Some(state),
        forall|i: int|
            0 <= i < later.len() ==> !((#[trigger] later[i]).0 matches Event::Mouse(
                MouseEvent::ButtonPressed { .. },
            )),
    ensures
        model.after(press, press_time).after_all(later).last_press_position == state.position,
        model.after(press, press_time).after_all(later).last_press_position == model.pointer,
        model.after(press, press_time).after_all(later).last_press_time == press_time,
{
    let after_press = model.after(press, press_time);
    assert forall|i: int| 0 <= i < later.len() implies !is_press((#[trigger] later[i]).0) by {}
    law_count_stays_between_presses(after_press, later);
}

/// The first press of a window is told with a count of one, whenever and wherever
/// it comes and whatever came before it.
pub proof fn law_first_press_is_told_with_one<C>(
    start: PointerModel<C>,
    earlier: Seq<(Event<C>, u128)>,
    press: Event<C>,
    now: u128,
    told: Option<MasonryEvent<C>>,
    state: PointerState<C>,
)
    requires
        start.click_count == 0,
        forall|i: int|
            0 <= i < earlier.len() ==> !((#[trigger] earlier[i]).0 matches Event::Mouse(
                MouseEvent::ButtonPressed { .. },
            )),
        press matches Event::Mouse(MouseEvent::ButtonPressed { .. }),
        start.after_all(earlier).after(press, now).tells(press, now, told),
        told_state(told) == Some(state),
    ensures
        state.count == 1,
{
    assert forall|i: int| 0 <= i < earlier.len() implies !is_press((#[trigger] earlier[i]).0) by {}
    law_count_stays_between_presses(start, earlier);
}

/// A release that no press came before is told with a count of zero.
pub proof fn law_release_without_press_counts_zero<C>(
    start: PointerModel<C>,
    earlier: Seq<(Event<C>, u128)>,
    release: Event<C>,
    now: u128,
    told: Option<MasonryEvent<C>>,
    state: PointerState<C>,
)
    requires
        start.click_count == 0,
        forall|i: int|
            0 <= i < earlier.len() ==> !((#[trigger] earlier[i]).0 matches Event::Mouse(
                MouseEvent::ButtonPressed { .. },
            )),
        release matches Event::Mouse(MouseEvent::ButtonReleased { .. }),
        start.after_all(earlier).after(release, now).tells(release, now, told),
        told_state(told) == Some(state),
    ensures
        state.count == 0,
{
    assert forall|i: int| 0 <= i < earlier.len() implies !is_press((#[trigger] earlier[i]).0) by {}
    law_count_stays_between_presses(start, earlier);
}

} // verus!
