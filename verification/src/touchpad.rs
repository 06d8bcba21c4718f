use vstd::prelude::*;
use crate::error::GameResult;
use crate::math::Vector;

verus! {

/// Touchpad input state: the most recent scroll delta (a per-frame edge)
/// and the pressure level with its click stage. Pressures are carried in
/// thousandths.
pub struct Touchpad {
    scroll_delta: Vector,
    pressure: i64,
    click_stage: i64,
}

impl Touchpad {
    pub closed spec fn spec_scroll_delta(&self) -> Vector {
        self.scroll_delta
    }

    pub closed spec fn spec_pressure(&self) -> i64 {
        self.pressure
    }

    pub closed spec fn spec_click_stage(&self) -> i64 {
        self.click_stage
    }

    pub fn new(config: TouchpadConfig) -> (r: GameResult<Touchpad>)
        ensures
            r is Ok,
            r matches Ok(t) ==> t.spec_scroll_delta() == (Vector { x: 0, y: 0 })
                && t.spec_pressure() == 0 && t.spec_click_stage() == 0,
    {
        let _ = config;
        Ok(Self { scroll_delta: Vector::zero(), pressure: 0, click_stage: 0 })
    }

    /// Record a scroll notification: the delta replaces the previous one.
    pub fn handle_scroll_event(&mut self, delta: Vector)
        ensures
            final(self).spec_scroll_delta() == delta,
            final(self).spec_pressure() == old(self).spec_pressure(),
            final(self).spec_click_stage() == old(self).spec_click_stage(),
    {
        self.scroll_delta = delta;
    }

    /// Record a pressure notification.
    pub fn handle_press_event(&mut self, pressure: i64, click_stage: i64)
        ensures
            final(self).spec_scroll_delta() == old(self).spec_scroll_delta(),
            final(self).spec_pressure() == pressure,
            final(self).spec_click_stage() == click_stage,
    {
        self.pressure = pressure;
        self.click_stage = click_stage;
    }

    /// The end-of-frame collapse: the scroll edge is cleared; the pressure
    /// level persists until the platform reports otherwise.
    pub fn clear_states(&mut self)
        ensures
            final(self).spec_scroll_delta() == (Vector { x: 0, y: 0 }),
            final(self).spec_pressure() == old(self).spec_pressure(),
            final(self).spec_click_stage() == old(self).spec_click_stage(),
    {
        self.scroll_delta = Vector::zero();
    }

    pub fn scroll_delta(&self) -> (r: Vector)
        ensures
            r == self.spec_scroll_delta(),
    {
        self.scroll_delta
    }

    pub fn pressure(&self) -> (r: i64)
        ensures
            r == self.spec_pressure(),
    {
        self.pressure
    }

    pub fn click_stage(&self) -> (r: i64)
        ensures
            r == self.spec_click_stage(),
    {
        self.click_stage
    }
}

#[derive(Debug, Clone)]
pub struct TouchpadConfig {}

impl TouchpadConfig {
    pub fn new() -> (r: Self) {
        Self {  }
    }
}

} // verus!
