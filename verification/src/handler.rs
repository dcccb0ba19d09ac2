//! The state of a window and what its callbacks decide.
//!
//! The window's callbacks are performed outside; this module says what they do.
//! An event is translated and routed, a resize becomes a list of steps, and a
//! frame is a conversation: each [`FrameAction`] is performed, and its outcome
//! comes back as the next [`FrameEvent`].

use vstd::prelude::*;

use std::time::Instant;

use keyboard_types::KeyboardEvent;

use crate::clock;
use crate::clock::{nanos_between, Clock};
use crate::event::{Event, EventTranslator, MasonryEvent, PointerEvent, PointerModel};
use crate::geometry::{PhysicalSize, WindowSize};
use crate::render::PaintSettings;

verus! {

/// Whether the window made use of an event or the host should see it.
#[derive(Clone, Copy, Debug, PartialEq, Eq, Structural)]
pub enum EventStatus {
    Captured,
    Ignored,
}

/// What to do about an event.
pub enum EventAction<C> {
    /// Hand a pointer event to the widget tree.
    HandlePointer(PointerEvent<C>),
    /// Hand a keyboard event to the widget tree, as a text event.
    HandleText(KeyboardEvent),
    /// Leave the widget tree alone.
    Nothing,
}

/// What the widget tree is handed of a translated event. Focus and closing
/// belong to the host, and sizes come through the resize callback.
pub open spec fn action_for<C>(event: MasonryEvent<C>) -> EventAction<C> {
    match event {
        MasonryEvent::Pointer(pointer) => EventAction::HandlePointer(pointer),
        MasonryEvent::Keyboard(key) => EventAction::HandleText(key),
        MasonryEvent::Resize { .. } | MasonryEvent::Focus(_) | MasonryEvent::Close =>
            EventAction::Nothing,
    }
}

/// What to do about a translated event, and what to tell the host: an event that
/// was not translated is passed on.
pub open spec fn routed<C>(translated: Option<MasonryEvent<C>>) -> (
    EventStatus,
    Option<EventAction<C>>,
) {
    match translated {
        Some(event) => (EventStatus::Captured, Some(action_for(event))),
        None => (EventStatus::Ignored, None),
    }
}

/// Decides what the widget tree is handed of a translated event.
pub fn handle_masonry_event<C>(event: MasonryEvent<C>) -> (action: EventAction<C>)
    ensures
        event matches MasonryEvent::Pointer(p) ==> action == EventAction::HandlePointer(p),
        event matches MasonryEvent::Keyboard(k) ==> action == EventAction::<C>::HandleText(k),
        action is HandlePointer <==> event is Pointer,
        action is HandleText <==> event is Keyboard,
        action == action_for(event),
{
    match event {
        MasonryEvent::Pointer(pointer) => EventAction::HandlePointer(pointer),
        MasonryEvent::Keyboard(key) => EventAction::HandleText(key),
        MasonryEvent::Resize { .. } => EventAction::Nothing,
        MasonryEvent::Focus(_) => EventAction::Nothing,
        MasonryEvent::Close => EventAction::Nothing,
    }
}

/// Decides what to do about a translated event and what to tell the host.
pub fn route<C>(translated: Option<MasonryEvent<C>>) -> (result: (
    EventStatus,
    Option<EventAction<C>>,
))
    ensures
        translated is Some <==> result.0 is Captured,
        translated is Some <==> result.1 is Some,
        translated matches Some(MasonryEvent::Pointer(p)) ==> result.1 == Some(
            EventAction::HandlePointer(p),
        ),
        translated matches Some(MasonryEvent::Keyboard(k)) ==> result.1 == Some(
            EventAction::<C>::HandleText(k),
        ),
        result == routed(translated),
{
    match translated {
        Some(event) => (EventStatus::Captured, Some(handle_masonry_event(event))),
        None => (EventStatus::Ignored, None),
    }
}

/// A step that follows from an event.
pub enum EventStep<C> {
    /// Hand a pointer event to the widget tree.
    HandlePointer(PointerEvent<C>),
    /// Hand a keyboard event to the widget tree, as a text event.
    HandleText(KeyboardEvent),
    /// Process the pending signals of the widget tree.
    ProcessSignals,
}

/// The steps that follow from what is to be done about an event. If the event is
/// passed on, there are none; otherwise the widget tree is handed what it is to be
/// handed, if anything, and then the pending signals are processed.
pub open spec fn steps_after<C>(action: Option<EventAction<C>>) -> Seq<EventStep<C>> {
    match action {
        Some(EventAction::HandlePointer(pointer)) => seq![
            EventStep::HandlePointer(pointer),
            EventStep::ProcessSignals,
        ],
        Some(EventAction::HandleText(key)) => seq![
            EventStep::HandleText(key),
            EventStep::ProcessSignals,
        ],
        Some(EventAction::Nothing) => seq![EventStep::ProcessSignals],
        None => Seq::empty(),
    }
}

/// Lists the steps that follow from what is to be done about an event.
pub fn event_steps<C>(action: Option<EventAction<C>>) -> (steps: Vec<EventStep<C>>)
    ensures
        action is None <==> steps@.len() == 0,
        action is Some ==> steps@.last() is ProcessSignals,
        action matches Some(EventAction::HandlePointer(p)) ==> steps@.len() == 2 && steps@[0]
            == EventStep::HandlePointer(p),
        action matches Some(EventAction::HandleText(k)) ==> steps@.len() == 2 && steps@[0]
            == EventStep::<C>::HandleText(k),
        action matches Some(EventAction::Nothing) ==> steps@.len() == 1,
        steps@ == steps_after(action),
{
    let ghost wanted = steps_after(action);
    let mut steps: Vec<EventStep<C>> = Vec::new();
    if let Some(action) = action {
        match action {
            EventAction::HandlePointer(pointer) => {
                steps.push(EventStep::HandlePointer(pointer));
            },
            EventAction::HandleText(key) => {
                steps.push(EventStep::HandleText(key));
            },
            EventAction::Nothing => {},
        }
        steps.push(EventStep::ProcessSignals);
    }
    assert(steps@ =~= wanted);
    steps
}

/// Who decides about the size of a widget tree.
#[derive(Clone, Copy, Debug, PartialEq, Eq, Structural)]
pub enum WindowSizePolicy {
    /// The size is set from outside, by the user or the host.
    User,
    /// The size follows the content.
    Content,
}

/// How a widget tree is set up.
pub struct RenderRootOptions<C> {
    pub use_system_fonts: bool,
    pub size_policy: WindowSizePolicy,
    /// The size in physical pixels. The widget tree derives its logical size from
    /// it by way of the scale factor.
    pub size: PhysicalSize,
    pub scale_factor: C,
    /// The data of a font to use in place of all others, for tests.
    pub test_font: Option<Vec<u8>>,
}

/// The options of a widget tree for a window whose physical size rounds to
/// `rounded`, with the window's real scale factor: pointer positions are
/// physical, and with any other scale clicks would land in the wrong place.
pub fn render_root_options<C>(rounded: PhysicalSize, scale: C) -> (options: RenderRootOptions<C>)
    ensures
        options.scale_factor == scale,
        options.size.width >= 1 && options.size.height >= 1,
        rounded.width >= 1 ==> options.size.width == rounded.width,
        rounded.height >= 1 ==> options.size.height == rounded.height,
        rounded.width == 0 ==> options.size.width == 1,
        rounded.height == 0 ==> options.size.height == 1,
        options == (RenderRootOptions {
            use_system_fonts: true,
            size_policy: WindowSizePolicy::User,
            size: rounded.spec_at_least_one(),
            scale_factor: scale,
            test_font: None,
        }),
{
    RenderRootOptions {
        use_system_fonts: true,
        size_policy: WindowSizePolicy::User,
        size: rounded.at_least_one(),
        scale_factor: scale,
        test_font: None,
    }
}

/// The colour behind the widgets: red, green, blue and opacity.
pub open spec fn spec_base_color() -> (u8, u8, u8, u8) {
    (30, 30, 35, 255)
}

/// The colour behind the widgets: red, green, blue and opacity.
pub fn base_color() -> (color: (u8, u8, u8, u8))
    ensures
        color == (30u8, 30u8, 35u8, 255u8),
        color == spec_base_color(),
{
    (30, 30, 35, 255)
}

/// A step of a resize.
pub enum ResizeStep<C> {
    /// Resize the GPU surface and its target texture.
    ResizeSurface(PhysicalSize),
    /// Tell the widget tree the new scale factor.
    Rescale(C),
    /// Tell the widget tree the new physical size.
    Resize(PhysicalSize),
}

/// The steps of a resize to `new_size`: the surface, if there is one, then the
/// scale factor, if it changed, then the size of the widget tree.
pub open spec fn resize_steps<C>(
    has_render_context: bool,
    scale_changed: bool,
    new_size: WindowSize<C>,
) -> Seq<ResizeStep<C>> {
    let surface = if has_render_context {
        seq![ResizeStep::<C>::ResizeSurface(new_size.physical)]
    } else {
        Seq::empty()
    };
    let scale = if scale_changed {
        seq![ResizeStep::Rescale(new_size.scale_factor)]
    } else {
        Seq::empty()
    };
    surface + scale + seq![ResizeStep::<C>::Resize(new_size.physical)]
}

/// Lists the steps of a resize.
pub fn plan_resize<C: Copy>(
    has_render_context: bool,
    scale_changed: bool,
    new_size: WindowSize<C>,
) -> (steps: Vec<ResizeStep<C>>)
    ensures
        steps@ == resize_steps(has_render_context, scale_changed, new_size),
{
    let mut steps: Vec<ResizeStep<C>> = Vec::new();
    if has_render_context {
        steps.push(ResizeStep::ResizeSurface(new_size.physical));
    }
    if scale_changed {
        steps.push(ResizeStep::Rescale(new_size.scale_factor));
    }
    steps.push(ResizeStep::Resize(new_size.physical));
    assert(steps@ =~= resize_steps(has_render_context, scale_changed, new_size));
    steps
}

/// The root layer of a redrawn widget tree.
#[derive(Clone, Copy, Debug, PartialEq, Eq, Structural)]
pub enum RootLayer {
    /// There is none.
    Missing,
    /// A scene that can be painted.
    Scene,
    /// A layer of another kind.
    NotAScene,
}

/// What happened in a frame.
#[derive(Clone, Copy, Debug, PartialEq, Eq, Structural)]
pub enum FrameEvent {
    /// A frame is to be drawn on a surface of the given size.
    Draw(PhysicalSize),
    /// The render context was created.
    ContextCreated,
    /// The render context could not be created.
    ContextFailed,
    /// The widget tree was animated and redrawn.
    Redrawn(RootLayer),
    /// The frame was painted, or could not be.
    Painted,
}

/// What to do next in a frame.
#[derive(Debug, PartialEq)]
pub enum FrameAction<C> {
    /// Create the render context for a surface of the given size.
    CreateContext(PhysicalSize),
    /// Let the widget tree run its animations for that many nanoseconds, and
    /// redraw it.
    Animate(u128),
    /// Paint the root scene and the overlays with the given settings.
    Paint(PaintSettings<C>),
    /// Ask for the next frame; this one is over.
    RequestRedraw,
}

/// What the frame cycle knows between two steps: whether the render context
/// exists, when the widget tree was last animated, and the scale factor.
pub struct FrameModel<C> {
    pub has_render_context: bool,
    pub last_frame: u128,
    pub scale: C,
}

impl<C> FrameModel<C> {
    /// What a frame is painted with.
    pub open spec fn settings(self) -> PaintSettings<C> {
        PaintSettings { base_color: spec_base_color(), scale: self.scale }
    }

    /// The model and the action after `event` at `now`.
    pub open spec fn step(self, event: FrameEvent, now: u128) -> (FrameModel<C>, FrameAction<C>) {
        match event {
            FrameEvent::Draw(size) => if self.has_render_context {
                self.animate(now)
            } else {
                (self, FrameAction::CreateContext(size.spec_at_least_one()))
            },
            FrameEvent::ContextCreated => FrameModel { has_render_context: true, ..self }.animate(
                now,
            ),
            FrameEvent::ContextFailed => (self, FrameAction::RequestRedraw),
            FrameEvent::Redrawn(RootLayer::Scene) => (self, FrameAction::Paint(self.settings())),
            FrameEvent::Redrawn(_) => (self, FrameAction::RequestRedraw),
            FrameEvent::Painted => (self, FrameAction::RequestRedraw),
        }
    }

    /// The model and the action when the widget tree is to be animated up to
    /// `now`.
    pub open spec fn animate(self, now: u128) -> (FrameModel<C>, FrameAction<C>) {
        (
            FrameModel { last_frame: now, ..self },
            FrameAction::Animate(clock::spec_nanos_between(self.last_frame, now) as u128),
        )
    }
}

/// The state of a window: its logical size and scale factor, the event
/// translator, and the frame cycle.
pub struct WindowState<C> {
    pub width: C,
    pub height: C,
    pub scale: C,
    pub translator: EventTranslator<C>,
    pub has_render_context: bool,
    pub last_frame: u128,
    pub clock: Clock,
}

impl<C> WindowState<C> {
    /// What the frame cycle knows.
    pub open spec fn frame(self) -> FrameModel<C> {
        FrameModel {
            has_render_context: self.has_render_context,
            last_frame: self.last_frame,
            scale: self.scale,
        }
    }
}

impl<C: Copy> WindowState<C> {
    /// The state of a window that has just been created. The render context does
    /// not exist yet: it can only be created once the window is mapped, which
    /// the first frame shows.
    pub fn new(width: C, height: C, scale: C) -> (state: WindowState<C>) where C: Default
        ensures
            state.width == width,
            state.height == height,
            state.scale == scale,
            state.translator@.scale_factor == scale,
            crate::event::is_default(state.translator@.pointer.x),
            crate::event::is_default(state.translator@.pointer.y),
            crate::event::is_default(state.translator@.last_press_position.x),
            crate::event::is_default(state.translator@.last_press_position.y),
            state.translator@.buttons == Set::<u32>::empty(),
            state.translator@.modifiers == Set::<u32>::empty(),
            state.translator@.last_press_time == 0,
            state.translator@.click_count == 0,
            call_ensures(Instant::now, (), state.translator.clock_started()),
            call_ensures(C::default, (), state.translator@.pointer.x),
            call_ensures(C::default, (), state.translator@.pointer.y),
            call_ensures(C::default, (), state.translator@.last_press_position.x),
            call_ensures(C::default, (), state.translator@.last_press_position.y),
            !state.has_render_context,
            state.last_frame == 0,
            state.frame() == (FrameModel { has_render_context: false, last_frame: 0, scale }),
            call_ensures(Instant::now, (), state.clock.started()),
    {
        WindowState {
            width,
            height,
            scale,
            translator: EventTranslator::new(scale),
            has_render_context: false,
            last_frame: 0,
            clock: Clock::start(),
        }
    }

    /// Takes note of the window's new size and lists what has to follow from it.
    /// The scale factor counts as changed when the coordinate type's `!=` says
    /// so.
    pub fn handle_resize(&mut self, new_size: WindowSize<C>) -> (steps: Vec<
        ResizeStep<C>,
    >) where C: PartialEq
        ensures
            final(self).width == new_size.logical.width,
            final(self).height == new_size.logical.height,
            final(self).scale == new_size.scale_factor,
            final(self).translator@ == (PointerModel {
                scale_factor: new_size.scale_factor,
                ..old(self).translator@
            }),
            final(self).translator.clock_started() == old(self).translator.clock_started(),
            final(self).has_render_context == old(self).has_render_context,
            final(self).last_frame == old(self).last_frame,
            final(self).frame() == (FrameModel {
                scale: new_size.scale_factor,
                ..old(self).frame()
            }),
            final(self).clock.started() == old(self).clock.started(),
            exists|scale_changed: bool| #[trigger]
                call_ensures(C::ne, (&old(self).scale, &new_size.scale_factor), scale_changed)
                    && steps@ == resize_steps(
                    old(self).has_render_context,
                    scale_changed,
                    new_size,
                ),
    {
        let scale_changed: bool = self.scale != new_size.scale_factor;
        self.width = new_size.logical.width;
        self.height = new_size.logical.height;
        self.scale = new_size.scale_factor;
        self.translator.set_scale_factor(new_size.scale_factor);
        plan_resize(self.has_render_context, scale_changed, new_size)
    }

    /// Translates an event as of the moment of the call and decides what to do
    /// about it.
    pub fn on_event(&mut self, event: Event<C>) -> (result: (EventStatus, Option<EventAction<C>>))
        ensures
            exists|now: u128, translated: Option<MasonryEvent<C>>|
                {
                    &&& clock::reads(old(self).translator.clock_started(), now)
                    &&& #[trigger] old(self).translator@.after(event, now)
                        == final(self).translator@
                    &&& #[trigger] final(self).translator@.tells(event, now, translated)
                    &&& result == routed(translated)
                },
            final(self).translator.clock_started() == old(self).translator.clock_started(),
            final(self).width == old(self).width,
            final(self).height == old(self).height,
            final(self).scale == old(self).scale,
            final(self).has_render_context == old(self).has_render_context,
            final(self).last_frame == old(self).last_frame,
            final(self).frame() == old(self).frame(),
            final(self).clock.started() == old(self).clock.started(),
    {
        let ghost before = self.translator@;
        let ghost started = self.translator.clock_started();
        let translated = self.translator.translate(event);
        proof {
            let now = choose|now: u128|
                {
                    &&& clock::reads(started, now)
                    &&& #[trigger] before.after(event, now) == self.translator@
                    &&& self.translator@.tells(event, now, translated)
                };
            assert(before.after(event, now) == self.translator@);
            assert(self.translator@.tells(event, now, translated));
        }
        route(translated)
    }

    /// Goes on with a frame as of the moment of the call.
    pub fn frame_step(&mut self, event: FrameEvent) -> (action: FrameAction<C>)
        ensures
            exists|now: u128|
                {
                    &&& clock::reads(old(self).clock.started(), now)
                    &&& #[trigger] old(self).frame().step(event, now) == (
                        final(self).frame(),
                        action,
                    )
                },
            final(self).width == old(self).width,
            final(self).height == old(self).height,
            final(self).scale == old(self).scale,
            final(self).translator@ == old(self).translator@,
            final(self).translator.clock_started() == old(self).translator.clock_started(),
            final(self).clock.started() == old(self).clock.started(),
    {
        let now: u128 = self.clock.nanos();
        self.frame_step_at(event, now)
    }

    /// Goes on with a frame, `now` nanoseconds after the window was created.
    pub fn frame_step_at(&mut self, event: FrameEvent, now: u128) -> (action: FrameAction<C>)
        ensures
            final(self).has_render_context <==> old(self).has_render_context || event
                is ContextCreated,
            action is Animate <==> (event is Draw && old(self).has_render_context) || event
                is ContextCreated,
            action is CreateContext <==> event is Draw && !old(self).has_render_context,
            action is Paint <==> event == FrameEvent::Redrawn(RootLayer::Scene),
            action matches FrameAction::Animate(nanos) ==> {
                &&& final(self).last_frame == now
                &&& old(self).last_frame <= now ==> old(self).last_frame + nanos == now
                &&& now < old(self).last_frame ==> nanos == 0
            },
            action !is Animate ==> final(self).last_frame == old(self).last_frame,
            action matches FrameAction::Paint(settings) ==> {
                &&& settings.scale == old(self).scale
                &&& settings.base_color == (30u8, 30u8, 35u8, 255u8)
            },
            (final(self).frame(), action) == old(self).frame().step(event, now),
            final(self).width == old(self).width,
            final(self).height == old(self).height,
            final(self).scale == old(self).scale,
            final(self).translator@ == old(self).translator@,
            final(self).translator.clock_started() == old(self).translator.clock_started(),
            final(self).clock.started() == old(self).clock.started(),
    {
        match event {
            FrameEvent::Draw(size) => if self.has_render_context {
                self.advance_frame(now)
            } else {
                FrameAction::CreateContext(size.at_least_one())
            },
            FrameEvent::ContextCreated => {
                self.has_render_context = true;
                self.advance_frame(now)
            },
            FrameEvent::ContextFailed => FrameAction::RequestRedraw,
            FrameEvent::Redrawn(RootLayer::Scene) => FrameAction::Paint(
                PaintSettings { base_color: base_color(), scale: self.scale },
            ),
            FrameEvent::Redrawn(_) => FrameAction::RequestRedraw,
            FrameEvent::Painted => FrameAction::RequestRedraw,
        }
    }

    fn advance_frame(&mut self, now: u128) -> (action: FrameAction<C>)
        ensures
            (final(self).frame(), action) == old(self).frame().animate(now),
            final(self).width == old(self).width,
            final(self).height == old(self).height,
            final(self).scale == old(self).scale,
            final(self).translator@ == old(self).translator@,
            final(self).translator.clock_started() == old(self).translator.clock_started(),
            final(self).clock.started() == old(self).clock.started(),
    {
        let elapsed: u128 = nanos_between(self.last_frame, now);
        self.last_frame = now;
        FrameAction::Animate(elapsed)
    }
}

/// How the outside answers in a frame: whether the render context can be created,
/// and what the redrawn widget tree has for a root layer.
pub struct FrameReplies {
    pub created: bool,
    pub root: RootLayer,
}

impl FrameReplies {
    /// The outcome of an action; asking for the next frame has none.
    pub open spec fn to<C>(self, action: FrameAction<C>) -> Option<FrameEvent> {
        match action {
            FrameAction::CreateContext(_) => if self.created {
                Some(FrameEvent::ContextCreated)
            } else {
                Some(FrameEvent::ContextFailed)
            },
            FrameAction::Animate(_) => Some(FrameEvent::Redrawn(self.root)),
            FrameAction::Paint(_) => Some(FrameEvent::Painted),
            FrameAction::RequestRedraw => None,
        }
    }
}

impl<C> FrameModel<C> {
    /// The model after a frame that starts with `event`, and the actions of the
    /// frame. Each step takes place at the next of the given times.
    pub open spec fn run(
        self,
        event: FrameEvent,
        replies: FrameReplies,
        times: Seq<u128>,
    ) -> (FrameModel<C>, Seq<FrameAction<C>>)
        decreases times.len(),
    {
        if times.len() == 0 {
            (self, Seq::empty())
        } else {
            let (model, action) = self.step(event, times[0]);
            match replies.to(action) {
                Some(outcome) => {
                    let (end, rest) = model.run(outcome, replies, times.drop_first());
                    (end, seq![action] + rest)
                },
                None => (model, seq![action]),
            }
        }
    }

    /// The model after a sequence of frame events, each with its time.
    pub open spec fn after_all(self, events: Seq<(FrameEvent, u128)>) -> FrameModel<C>
        decreases events.len(),
    {
        if events.len() == 0 {
            self
        } else {
            self.after_all(events.drop_last()).step(events.last().0, events.last().1).0
        }
    }
}

/// Every frame ends, after at most four steps, with a request for the next one,
/// and makes that request once.
pub proof fn law_every_frame_requests_the_next<C>(
    model: FrameModel<C>,
    size: PhysicalSize,
    replies: FrameReplies,
    times: Seq<u128>,
)
    requires
        times.len() >= 4,
    ensures
        ({
            let actions = model.run(FrameEvent::Draw(size), replies, times).1;
            &&& 1 <= actions.len() <= 4
            &&& actions.last() is RequestRedraw
            &&& forall|i: int|
                0 <= i < actions.len() - 1 ==> !((#[trigger] actions[i]) is RequestRedraw)
        }),
{
    reveal_with_fuel(FrameModel::run, 5);
}

/// A frame is painted exactly when there is a render context, old or new, and
/// the widget tree has a scene at its root, and then with the window's scale factor
/// and the base colour; and its animations run exactly when there is a render
/// context.
pub proof fn law_painting_needs_context_and_scene<C>(
    model: FrameModel<C>,
    size: PhysicalSize,
    replies: FrameReplies,
    times: Seq<u128>,
)
    requires
        times.len() >= 4,
    ensures
        ({
            let (end, actions) = model.run(FrameEvent::Draw(size), replies, times);
            let available = model.has_render_context || replies.created;
            &&& end.has_render_context == available
            &&& actions.contains(FrameAction::Paint(model.settings())) <==> available
                && replies.root == RootLayer::Scene
            &&& forall|i: int|
                0 <= i < actions.len() ==> ((#[trigger] actions[i]) is Paint ==> actions[i]
                    == FrameAction::Paint(model.settings()))
            &&& available <==> exists|i: int|
                0 <= i < actions.len() && (#[trigger] actions[i]) is Animate
            &&& !available ==> end.last_frame == model.last_frame
        }),
{
    reveal_with_fuel(FrameModel::run, 5);
    let (end, actions) = model.run(FrameEvent::Draw(size), replies, times);
    if model.has_render_context {
        assert(actions[0] is Animate);
        if replies.root == RootLayer::Scene {
            assert(actions[1] == FrameAction::Paint(model.settings()));
        }
    } else if replies.created {
        assert(actions[1] is Animate);
        if replies.root == RootLayer::Scene {
            assert(actions[2] == FrameAction::Paint(model.settings()));
        }
    }
}

/// Deferred initialization: the render context is asked for in the first frame
/// and in each further one until it exists, always with a surface of at least
/// one pixel, and never again after that.
pub proof fn law_context_is_created_once<C>(
    model: FrameModel<C>,
    size: PhysicalSize,
    events: Seq<(FrameEvent, u128)>,
    now: u128,
)
    ensures
        model.after_all(events).step(FrameEvent::Draw(size), now).1 is CreateContext
            <==> !model.after_all(events).has_render_context,
        model.after_all(events).step(FrameEvent::Draw(size), now).1 matches
            FrameAction::CreateContext(surface) ==> surface.width >= 1 && surface.height >= 1,
        model.has_render_context ==> model.after_all(events).has_render_context,
    decreases events.len(),
{
    if events.len() > 0 {
        law_context_is_created_once(model, size, events.drop_last(), now);
    }
}

/// A resize ends with the widget tree's new size. The surface comes first, if
/// there is one, and the scale factor, if it changed, comes before the size, so
/// that the widget tree derives its logical size from the new scale.
pub proof fn law_resize_steps_are_ordered<C>(
    has_render_context: bool,
    scale_changed: bool,
    new_size: WindowSize<C>,
)
    ensures
        ({
            let steps = resize_steps(has_render_context, scale_changed, new_size);
            &&& steps.last() == ResizeStep::<C>::Resize(new_size.physical)
            &&& has_render_context ==> steps[0] == ResizeStep::<C>::ResizeSurface(
                new_size.physical,
            )
            &&& scale_changed ==> steps[steps.len() - 2] == ResizeStep::Rescale(
                new_size.scale_factor,
            )
            &&& !scale_changed ==> forall|i: int|
                0 <= i < steps.len() ==> !((#[trigger] steps[i]) is Rescale)
        }),
{
}

/// The host is told that an event was captured exactly when the event means
/// something to the widget tree.
pub proof fn law_captured_iff_translated<C>(
    model: PointerModel<C>,
    event: Event<C>,
    now: u128,
    translated: Option<MasonryEvent<C>>,
)
    requires
        model.after(event, now).tells(event, now, translated),
    ensures
        routed(translated).0 == EventStatus::Captured <==> event != Event::<C>::Mouse(
            crate::event::MouseEvent::Other,
        ),
{
}

/// After a captured event the pending signals are processed, once and last; after
/// an event that is passed on nothing is done.
pub proof fn law_signals_follow_captured_events<C>(translated: Option<MasonryEvent<C>>)
    ensures
        ({
            let (status, action) = routed(translated);
            let steps = steps_after(action);
            &&& status == EventStatus::Captured ==> steps.len() > 0 && steps.last()
                == EventStep::<C>::ProcessSignals
            &&& status == EventStatus::Ignored ==> steps.len() == 0
            &&& forall|i: int|
                0 <= i < steps.len() - 1 ==> #[trigger] steps[i] != EventStep::<C>::ProcessSignals
        }),
{
}

/// Every pointer event and every keyboard event that is translated reaches the
/// widget tree as it is, and the pending signals are processed right after it; the
/// window's own events only have the signals processed; and only what was not
/// translated is passed on to the host.
pub proof fn law_translated_events_reach_the_widget_tree<C>(
    pointer: PointerEvent<C>,
    key: KeyboardEvent,
    width: u32,
    height: u32,
    scale: C,
    focused: bool,
)
    ensures
        ({
            let (status, action) = routed(Some(MasonryEvent::Pointer(pointer)));
            &&& status is Captured
            &&& action == Some(EventAction::HandlePointer(pointer))
            &&& steps_after(action) == seq![
                EventStep::HandlePointer(pointer),
                EventStep::ProcessSignals,
            ]
        }),
        ({
            let (status, action) = routed(Some(MasonryEvent::<C>::Keyboard(key)));
            &&& status is Captured
            &&& action == Some(EventAction::<C>::HandleText(key))
            &&& steps_after(action) == seq![
                EventStep::<C>::HandleText(key),
                EventStep::ProcessSignals,
            ]
        }),
        ({
            let (status, action) = routed(Some(MasonryEvent::Resize { width, height, scale }));
            status is Captured && steps_after(action) == seq![EventStep::<C>::ProcessSignals]
        }),
        ({
            let (status, action) = routed(Some(MasonryEvent::<C>::Focus(focused)));
            status is Captured && steps_after(action) == seq![EventStep::<C>::ProcessSignals]
        }),
        ({
            let (status, action) = routed(Some(MasonryEvent::<C>::Close));
            status is Captured && steps_after(action) == seq![EventStep::<C>::ProcessSignals]
        }),
        ({
            let (status, action) = routed(None::<MasonryEvent<C>>);
            status is Ignored && action is None && steps_after(action).len() == 0
        }),
{
}

/// From the window system to the widget tree: every mouse event that is translated
/// is handed to the widget tree as the very pointer event it was translated to, and
/// every key as the very event that came; then the pending signals are processed.
pub proof fn law_input_reaches_the_widget_tree<C>(
    model: PointerModel<C>,
    event: Event<C>,
    now: u128,
    translated: Option<MasonryEvent<C>>,
)
    requires
        model.after(event, now).tells(event, now, translated),
    ensures
        ({
            let steps = steps_after(routed(translated).1);
            &&& event matches Event::Mouse(mouse) ==> (mouse !is Other ==> {
                &&& steps.len() == 2
                &&& steps[0] matches EventStep::HandlePointer(pointer)
                &&& translated == Some(MasonryEvent::Pointer(pointer))
                &&& steps[1] is ProcessSignals
                &&& mouse is ButtonPressed <==> pointer is Down
                &&& mouse is ButtonReleased <==> pointer is Up
                &&& mouse is CursorMoved <==> pointer is Move
                &&& mouse is WheelScrolled <==> pointer is Scroll
                &&& mouse is CursorEntered <==> pointer is Enter
                &&& mouse is CursorLeft <==> pointer is Leave
            })
            &&& event matches Event::Keyboard(key) ==> {
                &&& steps.len() == 2
                &&& steps[0] == EventStep::<C>::HandleText(key)
                &&& steps[1] is ProcessSignals
            }
            &&& event is Window ==> steps.len() == 1 && steps[0] is ProcessSignals
            &&& event == Event::<C>::Mouse(crate::event::MouseEvent::Other) ==> steps.len() == 0
        }),
{
}

/// A resize has one step for the widget tree's size, one more for the surface if
/// there is one, and one more for the scale factor if it changed, each with the new
/// value.
pub proof fn law_resize_has_each_step_once<C>(
    has_render_context: bool,
    scale_changed: bool,
    new_size: WindowSize<C>,
)
    ensures
        ({
            let steps = resize_steps(has_render_context, scale_changed, new_size);
            &&& steps.len() == 1 + (if has_render_context {
                1int
            } else {
                0
            }) + (if scale_changed {
                1int
            } else {
                0
            })
            &&& has_render_context <==> exists|i: int|
                0 <= i < steps.len() && (#[trigger] steps[i]) is ResizeSurface
            &&& forall|i: int|
                0 <= i < steps.len() ==> match #[trigger] steps[i] {
                    ResizeStep::ResizeSurface(size) => size.width == new_size.physical.width
                        && size.height == new_size.physical.height,
                    ResizeStep::Rescale(scale) => scale == new_size.scale_factor,
                    ResizeStep::Resize(size) => size.width == new_size.physical.width && size.height
                        == new_size.physical.height,
                }
        }),
{
    let steps = resize_steps(has_render_context, scale_changed, new_size);
    if has_render_context {
        assert(steps[0] is ResizeSurface);
    }
}

/// One step of a frame: a frame that is to be drawn asks for the render context
/// while there is none, with a size of at least one pixel, and animates otherwise;
/// a context that was created is there from then on; only a root scene is painted,
/// in the window's scale and on the dark background; and all else ends the frame.
/// The scale factor stays.
pub proof fn law_frame_step_follows_from_its_event<C>(
    model: FrameModel<C>,
    event: FrameEvent,
    now: u128,
)
    ensures
        ({
            let (after, action) = model.step(event, now);
            &&& after.scale == model.scale
            &&& after.has_render_context <==> model.has_render_context || event is ContextCreated
            &&& action is CreateContext <==> event is Draw && !model.has_render_context
            &&& action is Animate <==> (event is Draw && model.has_render_context) || event
                is ContextCreated
            &&& action is Paint <==> event == FrameEvent::Redrawn(RootLayer::Scene)
            &&& action matches FrameAction::Paint(settings) ==> settings.scale == model.scale
                && settings.base_color == (30u8, 30u8, 35u8, 255u8)
            &&& event matches FrameEvent::Draw(size) ==> (action matches FrameAction::CreateContext(
                surface,
            ) ==> {
                &&& surface.width >= 1 && surface.height >= 1
                &&& size.width >= 1 ==> surface.width == size.width
                &&& size.height >= 1 ==> surface.height == size.height
                &&& size.width == 0 ==> surface.width == 1
                &&& size.height == 0 ==> surface.height == 1
            })
        }),
{
}

impl<C> FrameModel<C> {
    /// The actions that follow from a sequence of frame events, each with its time.
    pub open spec fn actions_of(self, events: Seq<(FrameEvent, u128)>) -> Seq<FrameAction<C>>
        decreases events.len(),
    {
        if events.len() == 0 {
            Seq::empty()
        } else {
            self.actions_of(events.drop_last()).push(
                self.after_all(events.drop_last()).step(events.last().0, events.last().1).1,
            )
        }
    }
}

/// For how many nanoseconds a sequence of actions lets the animations run.
pub open spec fn animated<C>(actions: Seq<FrameAction<C>>) -> int
    decreases actions.len(),
{
    if actions.len() == 0 {
        0
    } else {
        animated(actions.drop_last()) + match actions.last() {
            FrameAction::Animate(nanos) => nanos as int,
            _ => 0,
        }
    }
}

/// An animation runs for the time since the one before it, and the next one counts
/// from this one on; a step that animates nothing leaves that time alone.
pub proof fn law_animation_covers_the_time_since_the_last<C>(
    model: FrameModel<C>,
    event: FrameEvent,
    now: u128,
)
    ensures
        ({
            let (after, action) = model.step(event, now);
            &&& action matches FrameAction::Animate(nanos) ==> {
                &&& after.last_frame == now
                &&& model.last_frame <= now ==> model.last_frame + nanos == now
                &&& now < model.last_frame ==> nanos == 0
            }
            &&& action !is Animate ==> after.last_frame == model.last_frame
        }),
{
}

/// No time is animated twice and none is left out: over any sequence of frame events
/// at times that do not go back, the animations run for exactly the time from the
/// last one before the sequence to the last one in it.
pub proof fn law_animations_add_up<C>(model: FrameModel<C>, events: Seq<(FrameEvent, u128)>)
    requires
        forall|i: int| 0 <= i < events.len() ==> model.last_frame <= (#[trigger] events[i]).1,
        forall|i: int, j: int|
            0 <= i <= j < events.len() ==> (#[trigger] events[i]).1 <= (#[trigger] events[j]).1,
    ensures
        model.last_frame + animated(model.actions_of(events)) == model.after_all(
            events,
        ).last_frame,
        model.actions_of(events).len() == events.len(),
        forall|i: int|
            0 <= i < events.len() && (#[trigger] model.actions_of(events)[i]) is Animate && (forall|
                j: int,
            |
                i < j < events.len() ==> !((#[trigger] model.actions_of(events)[j]) is Animate))
                ==> model.after_all(events).last_frame == events[i].1,
        (forall|i: int|
            0 <= i < events.len() ==> !((#[trigger] model.actions_of(events)[i]) is Animate))
            ==> model.after_all(events).last_frame == model.last_frame,
        events.len() > 0 ==> model.after_all(events).last_frame <= events.last().1,
    decreases events.len(),
{
    if events.len() > 0 {
        let before = events.drop_last();
        let last = events.len() - 1;
        assert forall|i: int| 0 <= i < before.len() implies before[i] == #[trigger] events[i] by {}
        assert forall|i: int| 0 <= i < before.len() implies model.last_frame <= (
        #[trigger] before[i]).1 by {
            assert(before[i] == events[i]);
        }
        assert forall|i: int, j: int| 0 <= i <= j < before.len() implies (#[trigger] before[i]).1
            <= (#[trigger] before[j]).1 by {
            assert(before[i] == events[i] && before[j] == events[j]);
        }
        law_animations_add_up(model, before);
        let actions = model.actions_of(events);
        assert(actions.drop_last() =~= model.actions_of(before));
        assert forall|i: int| 0 <= i < before.len() implies #[trigger] actions[i]
            == model.actions_of(before)[i] by {}
        assert(events[last].1 >= model.last_frame);
        if before.len() > 0 {
            assert(before.last() == events[last - 1]);
            assert(events[last - 1].1 <= events[last].1);
        }
        assert forall|i: int|
            0 <= i < events.len() && (#[trigger] actions[i]) is Animate && (forall|j: int|
                i < j < events.len() ==> !((#[trigger] actions[j]) is Animate)) implies
            model.after_all(events).last_frame == events[i].1 by {
            if i < last {
                assert(!(actions[last] is Animate));
                assert(model.actions_of(before)[i] is Animate);
                assert forall|j: int| i < j < before.len() implies !((
                #[trigger] model.actions_of(before)[j]) is Animate) by {
                    assert(actions[j] == model.actions_of(before)[j]);
                }
                assert(before[i] == events[i]);
            }
        }
        if forall|i: int| 0 <= i < events.len() ==> !((#[trigger] actions[i]) is Animate) {
            assert(!(actions[last] is Animate));
            assert forall|i: int| 0 <= i < before.len() implies !((
            #[trigger] model.actions_of(before)[i]) is Animate) by {
                assert(actions[i] == model.actions_of(before)[i]);
            }
        }
    }
}

} // verus!
