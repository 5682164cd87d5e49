//! The boundary to the `palette` crate: conversions between sRGB and the
//! perceptual colour spaces. Channels cross the boundary as 16-bit fractions
//! (`0` is 0.0, `65535` is 1.0) and hues as whole degrees.
//!
//! `palette` is built without its `std` feature and with `libm`, so that
//! its floating point functions are those of the `libm` crate, which are
//! written in Rust and give the same result on every machine. Nothing here
//! is proved of what `palette` computes: each contract gives the result a
//! name, and the rest of the library speaks of the results by these names.

use vstd::prelude::*;

verus! {

/// What `palette` computes as the Okhsl form of an sRGB colour: the hue
/// rounded to whole degrees, then saturation and lightness as 16-bit
/// fractions.
pub uninterp spec fn okhsl_of_srgb(red: u16, green: u16, blue: u16) -> (u16, u16, u16);

/// Converts an sRGB colour to Okhsl with `palette::FromColor::from_color`.
/// The channels are brought to floating point with `Srgb::into_format` and
/// back with `IntoStimulus::into_stimulus`; the hue is read with
/// `OklabHue::into_positive_degrees` and rounded to a whole number. Nothing
/// is proved of the conversion: the contract only names its result.
#[verifier::external_body]
pub(crate) fn srgb_to_okhsl(red: u16, green: u16, blue: u16) -> (hsl: (u16, u16, u16))
    ensures
        hsl == okhsl_of_srgb(red, green, blue),
{
    let srgb: palette::Srgb = palette::Srgb::<u16>::new(red, green, blue).into_format();
    let hsl: palette::Okhsl = palette::FromColor::from_color(srgb);
    (
        hsl.hue.into_positive_degrees().round() as u16,
        palette::stimulus::IntoStimulus::into_stimulus(hsl.saturation),
        palette::stimulus::IntoStimulus::into_stimulus(hsl.lightness),
    )
}

/// What `palette` computes as the sRGB form of an Okhsl colour, brought into
/// the displayable range.
pub uninterp spec fn srgb_of_okhsl(hue: u16, saturation: u16, lightness: u16) -> (u16, u16, u16);

/// Converts an Okhsl colour to sRGB with `palette::FromColor::from_color`,
/// which clamps to the displayable range. The colour is made with
/// `Okhsl::new` and `OklabHue::new`, its channels brought to floating point
/// with `IntoStimulus::into_stimulus` and back with `Srgb::into_format`.
/// Nothing is proved of the conversion: the contract only names its
/// result.
#[verifier::external_body]
pub(crate) fn okhsl_to_srgb(hue: u16, saturation: u16, lightness: u16) -> (rgb: (u16, u16, u16))
    ensures
        rgb == srgb_of_okhsl(hue, saturation, lightness),
{
    let hsl: palette::Okhsl = palette::Okhsl::new(
        palette::OklabHue::new(hue.into()),
        palette::stimulus::IntoStimulus::into_stimulus(saturation),
        palette::stimulus::IntoStimulus::into_stimulus(lightness),
    );
    let srgb: palette::Srgb = palette::FromColor::from_color(hsl);
    let rgb: palette::Srgb<u16> = srgb.into_format();
    (rgb.red, rgb.green, rgb.blue)
}

/// What `palette` computes as the relative luminance of an sRGB colour: its
/// linear luma under the D65 white point.
pub uninterp spec fn luminance_of_srgb(red: u16, green: u16, blue: u16) -> u16;

/// Converts an sRGB colour to linear luma with
/// `palette::FromColor::from_color`, between `Srgb::into_format` and
/// `IntoStimulus::into_stimulus`. Nothing is proved of the conversion: the
/// contract only names its result.
#[verifier::external_body]
pub(crate) fn srgb_to_luminance(red: u16, green: u16, blue: u16) -> (luminance: u16)
    ensures
        luminance == luminance_of_srgb(red, green, blue),
{
    let srgb: palette::Srgb = palette::Srgb::<u16>::new(red, green, blue).into_format();
    let luma: palette::LinLuma = palette::FromColor::from_color(srgb);
    palette::stimulus::IntoStimulus::into_stimulus(luma.luma)
}

/// What `palette` computes as the hybrid distance of two sRGB colours in
/// Oklab: the absolute difference in lightness plus the Euclidean distance
/// on the chroma plane, held at the top of the range.
pub uninterp spec fn hybrid_distance_of_srgb(first: (u16, u16, u16), second: (u16, u16, u16)) -> u16;

/// Measures two sRGB colours with
/// `palette::color_difference::HyAb::hybrid_distance`, after
/// `Srgb::into_format` and `palette::FromColor::from_color` have taken both
/// to Oklab; `IntoStimulus::into_stimulus` holds the distance at the top of
/// the range. Nothing is proved of the measure: the contract only names its
/// result.
#[verifier::external_body]
pub(crate) fn srgb_hybrid_distance(first: (u16, u16, u16), second: (u16, u16, u16)) -> (distance: u16)
    ensures
        distance == hybrid_distance_of_srgb(first, second),
{
    let one: palette::Srgb = palette::Srgb::<u16>::new(first.0, first.1, first.2).into_format();
    let other: palette::Srgb = palette::Srgb::<u16>::new(second.0, second.1, second.2).into_format();
    let one: palette::Oklab = palette::FromColor::from_color(one);
    let other: palette::Oklab = palette::FromColor::from_color(other);
    palette::stimulus::IntoStimulus::into_stimulus(
        palette::color_difference::HyAb::hybrid_distance(one, other),
    )
}

} // verus!
