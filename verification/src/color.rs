//! The colour value type and the operations on it.
//!
//! A colour is stored as sRGB with alpha. Lightness, saturation and hue are
//! read in Okhsl, luminance as linear luma and distance in Oklab; the
//! conversions themselves are made by the `palette` crate, whose results the
//! contracts here refer to by name.

pub mod accessibility;
pub mod analysis;
pub mod component;
pub mod extraction;
pub mod factor;
pub mod perceptual;
pub mod serialization;

use vstd::prelude::*;
use component::{Component, FloatingComponent};
use factor::{scaled_parts, shifted_parts, Factor};
use perceptual::{
    hybrid_distance_of_srgb, luminance_of_srgb, okhsl_of_srgb, okhsl_to_srgb, srgb_hybrid_distance,
    srgb_of_okhsl, srgb_to_luminance, srgb_to_okhsl,
};

verus! {

/// An sRGB colour with alpha, each channel a fraction.
#[derive(Debug, Default, Clone, Copy, PartialEq, Eq, Structural)]
pub struct Rgba {
    pub red: FloatingComponent,
    pub green: FloatingComponent,
    pub blue: FloatingComponent,
    pub alpha: FloatingComponent,
}

/// The red, green and blue parts of a colour.
pub open spec fn rgb_of(color: Rgba) -> (u16, u16, u16) {
    (color.red.0, color.green.0, color.blue.0)
}

/// Hue in whole degrees below 360, then saturation and lightness in parts.
pub open spec fn hsl_of(color: Rgba) -> (int, int, int) {
    let raw = okhsl_of_srgb(color.red.0, color.green.0, color.blue.0);
    (raw.0 as int % 360, raw.1 as int, raw.2 as int)
}

/// The fraction of the full turn that a hue of whole `degrees` is.
pub open spec fn parts_of_degrees(degrees: int) -> int {
    (degrees * 65535 + 180) / 360
}

/// The whole degrees, below 360, nearest to a fraction of the full turn.
pub open spec fn degrees_of_parts(parts: int) -> int {
    ((parts * 360 + 32767) / 65535) % 360
}

pub open spec fn hue_of(color: Rgba) -> int {
    parts_of_degrees(hsl_of(color).0)
}

pub open spec fn saturation_of(color: Rgba) -> int {
    hsl_of(color).1
}

pub open spec fn lightness_of(color: Rgba) -> int {
    hsl_of(color).2
}

pub open spec fn luminance_of(color: Rgba) -> int {
    luminance_of_srgb(color.red.0, color.green.0, color.blue.0) as int
}

/// Whether `first` comes before `second`, or equals it, when colours are
/// ordered by red, then green, then blue.
pub open spec fn precedes(first: (u16, u16, u16), second: (u16, u16, u16)) -> bool {
    first.0 < second.0 || (first.0 == second.0 && (first.1 < second.1 || (first.1 == second.1
        && first.2 <= second.2)))
}

/// Perceptual distance of two colours, in parts. Colours of equal red,
/// green and blue are at distance 0; any other pair is measured in the
/// order that `precedes` gives, so that the measure cannot depend on which
/// colour comes first.
pub open spec fn distance_of(first: Rgba, second: Rgba) -> int {
    if rgb_of(first) == rgb_of(second) {
        0
    } else if precedes(rgb_of(first), rgb_of(second)) {
        hybrid_distance_of_srgb(rgb_of(first), rgb_of(second)) as int
    } else {
        hybrid_distance_of_srgb(rgb_of(second), rgb_of(first)) as int
    }
}

/// `color` with the given hue, saturation and lightness. Where these are
/// the ones it has, the colour itself; otherwise what the conversion from
/// Okhsl gives, with the alpha of `color`.
pub open spec fn with_hsl_of(color: Rgba, hue: int, saturation: int, lightness: int) -> Rgba {
    if (hue, saturation, lightness) == hsl_of(color) {
        color
    } else {
        let rgb = srgb_of_okhsl(hue as u16, saturation as u16, lightness as u16);
        Rgba {
            red: FloatingComponent(rgb.0),
            green: FloatingComponent(rgb.1),
            blue: FloatingComponent(rgb.2),
            alpha: color.alpha,
        }
    }
}

pub open spec fn with_hue_of(color: Rgba, hue: int) -> Rgba {
    with_hsl_of(color, degrees_of_parts(hue), saturation_of(color), lightness_of(color))
}

pub open spec fn with_saturation_of(color: Rgba, saturation: int) -> Rgba {
    with_hsl_of(color, hsl_of(color).0, saturation, lightness_of(color))
}

pub open spec fn with_lightness_of(color: Rgba, lightness: int) -> Rgba {
    with_hsl_of(color, hsl_of(color).0, saturation_of(color), lightness)
}

pub open spec fn with_alpha_of(color: Rgba, alpha: int) -> Rgba {
    Rgba { red: color.red, green: color.green, blue: color.blue, alpha: FloatingComponent(alpha as u16) }
}

impl Rgba {
    /// The colour of the given channels, fully opaque.
    pub fn opaque<TComponent: Component>(red: TComponent, green: TComponent, blue: TComponent) -> (color:
        Self)
        ensures
            color.red.0 == red.parts(),
            color.green.0 == green.parts(),
            color.blue.0 == blue.parts(),
            color.alpha.0 == 65535,
    {
        Self {
            red: red.to_floating_component(),
            green: green.to_floating_component(),
            blue: blue.to_floating_component(),
            alpha: FloatingComponent::max_component(),
        }
    }

    /// The colour of the given channels and alpha.
    pub fn transparent<TComponent: Component>(
        red: TComponent,
        green: TComponent,
        blue: TComponent,
        alpha: TComponent,
    ) -> (color: Self)
        ensures
            color.red.0 == red.parts(),
            color.green.0 == green.parts(),
            color.blue.0 == blue.parts(),
            color.alpha.0 == alpha.parts(),
    {
        Self {
            red: red.to_floating_component(),
            green: green.to_floating_component(),
            blue: blue.to_floating_component(),
            alpha: alpha.to_floating_component(),
        }
    }

    /// Whether the colour is dark enough to be shown on a light backdrop:
    /// its lightness is below the middle of the range.
    pub fn reads_on_light(self) -> (dark: bool)
        ensures
            dark == (lightness_of(self) < 32767),
    {
        self.to_hsl().2 < FloatingComponent::median(
            FloatingComponent::min_component(),
            FloatingComponent::max_component(),
        ).0
    }

    /// Hue in whole degrees below 360, saturation and lightness.
    pub fn to_hsl(self) -> (hsl: (u16, u16, u16))
        ensures
            (hsl.0 as int, hsl.1 as int, hsl.2 as int) == hsl_of(self),
            hsl.0 < 360,
    {
        let raw = srgb_to_okhsl(self.red.0, self.green.0, self.blue.0);
        (raw.0 % 360, raw.1, raw.2)
    }

    /// This colour with another hue (in whole degrees), saturation and
    /// lightness; the colour itself where they are its own.
    pub fn with_hsl(self, hue: u16, saturation: u16, lightness: u16) -> (color: Self)
        ensures
            color == with_hsl_of(self, hue as int, saturation as int, lightness as int),
    {
        let own = self.to_hsl();
        if hue == own.0 && saturation == own.1 && lightness == own.2 {
            self
        } else {
            let rgb = okhsl_to_srgb(hue, saturation, lightness);
            Rgba {
                red: FloatingComponent(rgb.0),
                green: FloatingComponent(rgb.1),
                blue: FloatingComponent(rgb.2),
                alpha: self.alpha,
            }
        }
    }
}

/// The fraction of the full turn that `degrees` is.
pub fn degrees_to_parts(degrees: u16) -> (parts: u16)
    requires
        degrees < 360,
    ensures
        parts == parts_of_degrees(degrees as int),
{
    ((degrees as u32 * 65535 + 180) / 360) as u16
}

/// The whole degrees, below 360, nearest to a fraction of the full turn.
pub fn parts_to_degrees(parts: u16) -> (degrees: u16)
    ensures
        degrees == degrees_of_parts(parts as int),
        degrees < 360,
{
    (((parts as u32 * 360 + 32767) / 65535) % 360) as u16
}

/// Whole degrees survive the way to a fraction of the turn and back.
pub proof fn lemma_degrees_round_trip(degrees: int)
    requires
        0 <= degrees < 360,
    ensures
        degrees_of_parts(parts_of_degrees(degrees)) == degrees,
        0 <= parts_of_degrees(degrees) <= 65535,
{
}

/// A colour: anything that stands for an RGBA value.
///
/// Accessors hand out a channel in the representation the caller asks for;
/// every transform gives a new colour and leaves this one as it is.
pub trait Color: Sized + Copy {
    /// The RGBA value that this colour stands for.
    spec fn rgba(self) -> Rgba;

    fn red<TComponent: Component>(self) -> (component: TComponent)
        ensures
            component == TComponent::of_parts(self.rgba().red.0 as int),
    ;

    fn green<TComponent: Component>(self) -> (component: TComponent)
        ensures
            component == TComponent::of_parts(self.rgba().green.0 as int),
    ;

    fn blue<TComponent: Component>(self) -> (component: TComponent)
        ensures
            component == TComponent::of_parts(self.rgba().blue.0 as int),
    ;

    fn lightness<TComponent: Component>(self) -> (component: TComponent)
        ensures
            component == TComponent::of_parts(lightness_of(self.rgba())),
    ;

    fn saturation<TComponent: Component>(self) -> (component: TComponent)
        ensures
            component == TComponent::of_parts(saturation_of(self.rgba())),
    ;

    fn alpha<TComponent: Component>(self) -> (component: TComponent)
        ensures
            component == TComponent::of_parts(self.rgba().alpha.0 as int),
    ;

    fn luminance<TComponent: Component>(self) -> (component: TComponent)
        ensures
            component == TComponent::of_parts(luminance_of(self.rgba())),
    ;

    fn hue<TComponent: Component>(self) -> (component: TComponent)
        ensures
            component == TComponent::of_parts(hue_of(self.rgba())),
    ;

    fn with_lightness<TComponent: Component>(self, lightness: TComponent) -> (color: Self)
        ensures
            color.rgba() == with_lightness_of(self.rgba(), lightness.parts()),
    ;

    fn with_saturation<TComponent: Component>(self, saturation: TComponent) -> (color: Self)
        ensures
            color.rgba() == with_saturation_of(self.rgba(), saturation.parts()),
    ;

    fn with_hue<TComponent: Component>(self, hue: TComponent) -> (color: Self)
        ensures
            color.rgba() == with_hue_of(self.rgba(), hue.parts()),
    ;

    fn with_alpha<TComponent: Component>(self, alpha: TComponent) -> (color: Self)
        ensures
            color.rgba() == with_alpha_of(self.rgba(), alpha.parts()),
    ;

    fn multiply_lightness<TFactor: Factor>(self, factor: TFactor) -> (color: Self)
        ensures
            color.rgba() == with_lightness_of(
                self.rgba(),
                scaled_parts(lightness_of(self.rgba()), factor.parts()),
            ),
    ;

    fn multiply_saturation<TFactor: Factor>(self, factor: TFactor) -> (color: Self)
        ensures
            color.rgba() == with_saturation_of(
                self.rgba(),
                scaled_parts(saturation_of(self.rgba()), factor.parts()),
            ),
    ;

    fn multiply_alpha<TFactor: Factor>(self, factor: TFactor) -> (color: Self)
        ensures
            color.rgba() == with_alpha_of(
                self.rgba(),
                scaled_parts(self.rgba().alpha.0 as int, factor.parts()),
            ),
    ;

    fn add_lightness<TFactor: Factor>(self, factor: TFactor) -> (color: Self)
        ensures
            color.rgba() == with_lightness_of(
                self.rgba(),
                shifted_parts(lightness_of(self.rgba()), factor.parts()),
            ),
    ;

    fn add_saturation<TFactor: Factor>(self, factor: TFactor) -> (color: Self)
        ensures
            color.rgba() == with_saturation_of(
                self.rgba(),
                shifted_parts(saturation_of(self.rgba()), factor.parts()),
            ),
    ;

    fn add_alpha<TFactor: Factor>(self, factor: TFactor) -> (color: Self)
        ensures
            color.rgba() == with_alpha_of(
                self.rgba(),
                shifted_parts(self.rgba().alpha.0 as int, factor.parts()),
            ),
    ;

    /// Perceptual distance to `other`: the same in both directions, and 0
    /// between colours of equal red, green and blue.
    fn distance<TComponent: Component>(self, other: Self) -> (distance: TComponent)
        ensures
            distance == TComponent::of_parts(distance_of(self.rgba(), other.rgba())),
    ;

    fn to_rgba(self) -> (rgba: Rgba)
        ensures
            rgba == self.rgba(),
    ;
}

impl Color for Rgba {
    open spec fn rgba(self) -> Rgba {
        self
    }

    fn red<TComponent: Component>(self) -> (component: TComponent) {
        TComponent::from_floating_component(self.red)
    }

    fn green<TComponent: Component>(self) -> (component: TComponent) {
        TComponent::from_floating_component(self.green)
    }

    fn blue<TComponent: Component>(self) -> (component: TComponent) {
        TComponent::from_floating_component(self.blue)
    }

    fn lightness<TComponent: Component>(self) -> (component: TComponent) {
        TComponent::from_floating_component(FloatingComponent(self.to_hsl().2))
    }

    fn saturation<TComponent: Component>(self) -> (component: TComponent) {
        TComponent::from_floating_component(FloatingComponent(self.to_hsl().1))
    }

    fn alpha<TComponent: Component>(self) -> (component: TComponent) {
        TComponent::from_floating_component(self.alpha)
    }

    fn luminance<TComponent: Component>(self) -> (component: TComponent) {
        TComponent::from_floating_component(
            FloatingComponent(srgb_to_luminance(self.red.0, self.green.0, self.blue.0)),
        )
    }

    fn hue<TComponent: Component>(self) -> (component: TComponent) {
        TComponent::from_floating_component(FloatingComponent(degrees_to_parts(self.to_hsl().0)))
    }

    fn with_lightness<TComponent: Component>(self, lightness: TComponent) -> (color: Self) {
        let own = self.to_hsl();
        self.with_hsl(own.0, own.1, lightness.to_floating_component().0)
    }

    fn with_saturation<TComponent: Component>(self, saturation: TComponent) -> (color: Self) {
        let own = self.to_hsl();
        self.with_hsl(own.0, saturation.to_floating_component().0, own.2)
    }

    fn with_hue<TComponent: Component>(self, hue: TComponent) -> (color: Self) {
        let own = self.to_hsl();
        self.with_hsl(parts_to_degrees(hue.to_floating_component().0), own.1, own.2)
    }

    fn with_alpha<TComponent: Component>(self, alpha: TComponent) -> (color: Self) {
        Rgba { red: self.red, green: self.green, blue: self.blue, alpha: alpha.to_floating_component() }
    }

    fn multiply_lightness<TFactor: Factor>(self, factor: TFactor) -> (color: Self) {
        let own = self.to_hsl();
        self.with_hsl(own.0, own.1, factor.multiply(FloatingComponent(own.2)).0)
    }

    fn multiply_saturation<TFactor: Factor>(self, factor: TFactor) -> (color: Self) {
        let own = self.to_hsl();
        self.with_hsl(own.0, factor.multiply(FloatingComponent(own.1)).0, own.2)
    }

    fn multiply_alpha<TFactor: Factor>(self, factor: TFactor) -> (color: Self) {
        Rgba { red: self.red, green: self.green, blue: self.blue, alpha: factor.multiply(self.alpha) }
    }

    fn add_lightness<TFactor: Factor>(self, factor: TFactor) -> (color: Self) {
        let own = self.to_hsl();
        self.with_hsl(own.0, own.1, factor.add(FloatingComponent(own.2)).0)
    }

    fn add_saturation<TFactor: Factor>(self, factor: TFactor) -> (color: Self) {
        let own = self.to_hsl();
        self.with_hsl(own.0, factor.add(FloatingComponent(own.1)).0, own.2)
    }

    fn add_alpha<TFactor: Factor>(self, factor: TFactor) -> (color: Self) {
        Rgba { red: self.red, green: self.green, blue: self.blue, alpha: factor.add(self.alpha) }
    }

    fn distance<TComponent: Component>(self, other: Self) -> (distance: TComponent) {
        let first = (self.red.0, self.green.0, self.blue.0);
        let second = (other.red.0, other.green.0, other.blue.0);
        let parts: u16 = if first.0 == second.0 && first.1 == second.1 && first.2 == second.2 {
            0
        } else if first.0 < second.0 || (first.0 == second.0 && (first.1 < second.1 || (first.1
            == second.1 && first.2 <= second.2))) {
            srgb_hybrid_distance(first, second)
        } else {
            srgb_hybrid_distance(second, first)
        };
        TComponent::from_floating_component(FloatingComponent(parts))
    }

    fn to_rgba(self) -> (rgba: Rgba) {
        self
    }
}

/// Distance is the same in both directions, and a colour is at distance 0
/// from itself.
pub proof fn lemma_distance_symmetric(first: Rgba, second: Rgba)
    ensures
        distance_of(first, second) == distance_of(second, first),
        distance_of(first, first) == 0,
{
}

/// Setting a perceptual channel to the value it has leaves the colour as it
/// is.
pub proof fn lemma_setters_keep_own_values(color: Rgba)
    ensures
        with_lightness_of(color, lightness_of(color)) == color,
        with_saturation_of(color, saturation_of(color)) == color,
        with_hue_of(color, hue_of(color)) == color,
        with_alpha_of(color, color.alpha.0 as int) == color,
{
    lemma_degrees_round_trip(hsl_of(color).0);
}

} // verus!
