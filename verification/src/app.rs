//! The builder that collects what a window is opened with.

use vstd::prelude::*;

use crate::driver::BaseviewDriver;

verus! {

/// Builder for a window: the application state, the app logic, the async runtime
/// `R`, and the fonts `F` to load when the window is opened.
#[must_use]
pub struct XilemBaseview<State, Logic, R, F> {
    pub state: State,
    pub logic: Logic,
    pub runtime: R,
    pub fonts: Vec<F>,
}

impl<State, Logic, R, F> XilemBaseview<State, Logic, R, F> {
    /// A builder with an existing runtime and no fonts.
    pub fn new_with_runtime(state: State, logic: Logic, runtime: R) -> (builder: XilemBaseview<
        State,
        Logic,
        R,
        F,
    >)
        ensures
            builder.state == state,
            builder.logic == logic,
            builder.runtime == runtime,
            builder.fonts@ == Seq::<F>::empty(),
    {
        XilemBaseview { state, logic, runtime, fonts: Vec::new() }
    }

    /// Adds a font to load when the window is opened, after those added before.
    pub fn with_font(self, font: F) -> (builder: XilemBaseview<State, Logic, R, F>)
        ensures
            builder.state == self.state,
            builder.logic == self.logic,
            builder.runtime == self.runtime,
            builder.fonts@ == self.fonts@.push(font),
    {
        let mut fonts = self.fonts;
        fonts.push(font);
        XilemBaseview { state: self.state, logic: self.logic, runtime: self.runtime, fonts }
    }

    /// Turns the builder into the driver of a new window, with the app logic and
    /// the runtime beside it.
    pub fn into_driver<V, X, W>(self) -> (parts: (BaseviewDriver<State, V, X, W, F>, Logic, R))
        ensures
            parts.0.is_unbuilt(),
            parts.0.root_view is None && parts.0.view_ctx is None && parts.0.view_state is None,
            parts.0.state == self.state,
            parts.0.fonts == self.fonts,
            parts.1 == self.logic,
            parts.2 == self.runtime,
    {
        (BaseviewDriver::new(self.state, self.fonts), self.logic, self.runtime)
    }
}

} // verus!
