//! The reactive cycle: application state, view tree, and the messages between
//! them.
//!
//! The driver owns the application state and the view tree that was last built
//! from it. Widgets and async tasks send messages along a path into the view
//! tree; what a message leads to decides whether the tree is built anew from the
//! state, rebuilt in place, or left alone.

use vstd::prelude::*;

verus! {

/// What the view tree made of a message.
#[derive(Clone, Copy, Debug, PartialEq, Eq, Structural)]
pub enum MessageResult {
    /// The application state may have changed.
    Action,
    /// The view tree asks to be rebuilt as it is.
    RequestRebuild,
    /// Nothing changed.
    Nop,
    /// The message was meant for a view that is gone.
    Stale,
}

/// What happened in the cycle, with paths `P` into the view tree and messages `M`.
pub enum DriverEvent<P, M> {
    /// A widget acted; its path into the view tree, if it is known there, and the
    /// action, which is the message.
    WidgetAction(Option<P>, M),
    /// An async task sent a message along a path.
    AsyncMessage(P, M),
    /// The message was dispatched.
    Dispatched(MessageResult),
}

/// What to do next in the cycle.
pub enum DriverAction<P, M> {
    /// Dispatch the message along a path.
    Dispatch { path: P, message: M },
    /// Report that the widget that sent the message is unknown, and do nothing
    /// else.
    ReportUnknownWidget { message: M },
    /// Run the app logic on the state and diff its views against the old ones.
    RunLogic,
    /// Rebuild the current view tree.
    Rebuild,
    /// Report that a stale message is discarded, and do nothing else.
    ReportStale,
    /// The cycle is at rest.
    Rest,
}

/// What follows from an event of the cycle.
pub open spec fn reaction<P, M>(event: DriverEvent<P, M>) -> DriverAction<P, M> {
    match event {
        DriverEvent::WidgetAction(Some(path), message) => DriverAction::Dispatch { path, message },
        DriverEvent::WidgetAction(None, message) => DriverAction::ReportUnknownWidget { message },
        DriverEvent::AsyncMessage(path, message) => DriverAction::Dispatch { path, message },
        DriverEvent::Dispatched(MessageResult::Action) => DriverAction::RunLogic,
        DriverEvent::Dispatched(MessageResult::RequestRebuild) => DriverAction::Rebuild,
        DriverEvent::Dispatched(MessageResult::Nop) => DriverAction::Rest,
        DriverEvent::Dispatched(MessageResult::Stale) => DriverAction::ReportStale,
    }
}

/// Decides what follows from a widget's action.
pub fn handle_action<P, M>(id_path: Option<P>, message: M) -> (action: DriverAction<P, M>)
    ensures
        id_path matches Some(p) ==> action == (DriverAction::Dispatch { path: p, message }),
        id_path is None ==> action == (DriverAction::<P, M>::ReportUnknownWidget { message }),
        action == reaction(DriverEvent::WidgetAction(id_path, message)),
{
    match id_path {
        Some(path) => DriverAction::Dispatch { path, message },
        None => DriverAction::ReportUnknownWidget { message },
    }
}

/// Decides what follows from an async message.
pub fn handle_async_action<P, M>(path: P, message: M) -> (action: DriverAction<P, M>)
    ensures
        action == (DriverAction::Dispatch { path, message }),
        action == reaction(DriverEvent::AsyncMessage(path, message)),
{
    DriverAction::Dispatch { path, message }
}

/// Decides what follows from what the view tree made of a message.
pub fn handle_message_result<P, M>(result: MessageResult) -> (action: DriverAction<P, M>)
    ensures
        result is Action <==> action is RunLogic,
        result is RequestRebuild <==> action is Rebuild,
        result is Nop <==> action is Rest,
        result is Stale <==> action is ReportStale,
        action == reaction(DriverEvent::<P, M>::Dispatched(result)),
{
    match result {
        MessageResult::Action => DriverAction::RunLogic,
        MessageResult::RequestRebuild => DriverAction::Rebuild,
        MessageResult::Nop => DriverAction::Rest,
        MessageResult::Stale => DriverAction::ReportStale,
    }
}

/// The driver of one window: the application state, the view tree `R` with its
/// context `X` and its state `V` once it has been built, and the fonts `F` that
/// are still to be registered.
pub struct BaseviewDriver<S, R, X, V, F> {
    pub state: S,
    pub root_view: Option<R>,
    pub view_ctx: Option<X>,
    pub view_state: Option<V>,
    pub fonts: Vec<F>,
}

impl<S, R, X, V, F> BaseviewDriver<S, R, X, V, F> {
    /// The view tree exists.
    pub open spec fn is_built(self) -> bool {
        self.root_view is Some && self.view_ctx is Some && self.view_state is Some
    }

    /// No part of the view tree exists.
    pub open spec fn is_unbuilt(self) -> bool {
        self.root_view is None && self.view_ctx is None && self.view_state is None
    }

    /// A driver whose view tree is not built yet.
    pub fn new(state: S, fonts: Vec<F>) -> (driver: BaseviewDriver<S, R, X, V, F>)
        ensures
            driver.is_unbuilt(),
            driver.root_view is None && driver.view_ctx is None && driver.view_state is None,
            driver.state == state,
            driver.fonts == fonts,
    {
        BaseviewDriver { state, root_view: None, view_ctx: None, view_state: None, fonts }
    }

    /// Takes in the view tree that was built first.
    pub fn build_initial(&mut self, root_view: R, view_ctx: X, view_state: V)
        ensures
            final(self).is_built(),
            final(self).root_view == Some(root_view),
            final(self).view_ctx == Some(view_ctx),
            final(self).view_state == Some(view_state),
            final(self).state == old(self).state,
            final(self).fonts == old(self).fonts,
    {
        self.root_view = Some(root_view);
        self.view_ctx = Some(view_ctx);
        self.view_state = Some(view_state);
    }

    /// Takes in the view tree that the app logic made anew and gives back the one
    /// before it.
    pub fn run_logic(&mut self, new_root: R) -> (previous: R)
        requires
            old(self).is_built(),
        ensures
            final(self).is_built(),
            Some(previous) == old(self).root_view,
            final(self).root_view == Some(new_root),
            final(self).view_ctx == old(self).view_ctx,
            final(self).view_state == old(self).view_state,
            final(self).state == old(self).state,
            final(self).fonts == old(self).fonts,
    {
        let mut root = Some(new_root);
        std::mem::swap(&mut root, &mut self.root_view);
        root.unwrap()
    }

    /// Hands out the fonts that are to be registered, in the order in which they
    /// were given, and keeps none.
    pub fn register_fonts(&mut self) -> (fonts: Vec<F>)
        ensures
            fonts == old(self).fonts,
            final(self).fonts@ == Seq::<F>::empty(),
            final(self).state == old(self).state,
            final(self).root_view == old(self).root_view,
            final(self).view_ctx == old(self).view_ctx,
            final(self).view_state == old(self).view_state,
    {
        let mut fonts: Vec<F> = Vec::new();
        std::mem::swap(&mut fonts, &mut self.fonts);
        fonts
    }
}

/// A message runs the app logic only if the view tree says that the state may
/// have changed, and it touches the view tree only if the tree asks for it.
pub proof fn law_only_actions_run_logic<P, M>(event: DriverEvent<P, M>)
    ensures
        reaction(event) is RunLogic <==> event == DriverEvent::<P, M>::Dispatched(
            MessageResult::Action,
        ),
        reaction(event) is Rebuild <==> event == DriverEvent::<P, M>::Dispatched(
            MessageResult::RequestRebuild,
        ),
{
}

/// A message is dispatched as it came, along the path that it came with, and an
/// action of a widget that the view tree does not know is not dispatched at all.
pub proof fn law_messages_keep_their_path<P, M>(event: DriverEvent<P, M>, path: P, message: M)
    ensures
        reaction(event) == (DriverAction::Dispatch { path, message }) <==> (event
            == DriverEvent::WidgetAction(Some(path), message) || event
            == DriverEvent::AsyncMessage(path, message)),
{
}

/// Only the action of a widget that the view tree does not know is reported as
/// such, only a stale message is reported as stale, and the cycle rests exactly when
/// a message changed nothing. A report of an unknown widget carries its action.
pub proof fn law_reports_tell_what_happened<P, M>(event: DriverEvent<P, M>, message: M)
    ensures
        reaction(event) == (DriverAction::<P, M>::ReportUnknownWidget { message }) <==> event
            == DriverEvent::<P, M>::WidgetAction(None, message),
        reaction(event) is ReportStale <==> event == DriverEvent::<P, M>::Dispatched(
            MessageResult::Stale,
        ),
        reaction(event) is Rest <==> event == DriverEvent::<P, M>::Dispatched(MessageResult::Nop),
{
}

} // verus!
