//! Factors by which a component is scaled or shifted.

use vstd::prelude::*;
use super::component::{clamp_of, Component, FloatingComponent};

verus! {

/// The fraction `parts`, scaled by `factor` (both in 1/65535 parts), rounded
/// to the nearest part and held inside the range.
pub open spec fn scaled_parts(parts: int, factor: int) -> int {
    if factor <= 0 {
        0
    } else {
        clamp_of((parts * factor + 32767) / 65535, 0, 65535)
    }
}

/// The fraction `parts`, shifted by `factor` and held inside the range.
pub open spec fn shifted_parts(parts: int, factor: int) -> int {
    clamp_of(parts + factor, 0, 65535)
}

/// A number that scales or shifts a component. Its `parts` are signed
/// 1/65535 parts: `65535` scales by one and shifts over the whole range.
pub trait Factor: Sized + Copy {
    spec fn parts(self) -> int;

    /// `component` scaled by this factor, held inside its range.
    fn multiply<TComponent: Component>(self, component: TComponent) -> (scaled: TComponent)
        ensures
            scaled == TComponent::of_parts(scaled_parts(component.parts(), self.parts())),
    ;

    /// `component` shifted by this factor, held inside its range.
    fn add<TComponent: Component>(self, component: TComponent) -> (shifted: TComponent)
        ensures
            shifted == TComponent::of_parts(shifted_parts(component.parts(), self.parts())),
    ;
}

impl Factor for i32 {
    open spec fn parts(self) -> int {
        self as int
    }

    fn multiply<TComponent: Component>(self, component: TComponent) -> (scaled: TComponent) {
        let parts: u16 = component.to_floating_component().0;
        if self <= 0 {
            TComponent::from_floating_component(FloatingComponent(0))
        } else {
            let factor: u64 = self as u64;
            assert(parts as int * factor as int <= 65535 * 0x7fff_ffff) by (nonlinear_arith)
                requires
                    0 <= parts <= 65535,
                    0 <= factor <= 0x7fff_ffff,
            ;
            let scaled: u64 = (parts as u64 * factor + 32767) / 65535;
            if scaled > 65535 {
                TComponent::from_floating_component(FloatingComponent(65535))
            } else {
                TComponent::from_floating_component(FloatingComponent(scaled as u16))
            }
        }
    }

    fn add<TComponent: Component>(self, component: TComponent) -> (shifted: TComponent) {
        let parts: i64 = component.to_floating_component().0 as i64;
        let shifted: i64 = parts + self as i64;
        TComponent::from_floating_component(FloatingComponent::from_fraction(shifted))
    }
}

} // verus!
