//! Readability: the relative contrast of two colours, and the correction of
//! a foreground until it is readable on its background.
//!
//! Contrast is the ratio `(lighter + 0.05) / (darker + 0.05)` of the two
//! relative luminances. With luminance in 1/65535 parts the ratio is
//! `(20 * lighter + 65535) / (20 * darker + 65535)`, and it is compared with
//! a threshold in exact integer arithmetic.

use vstd::prelude::*;
use super::component::FloatingComponent;
use super::{lightness_of, luminance_of, with_lightness_of, Color, Rgba};

verus! {

/// What a foreground is asked to be readable as.
#[derive(Debug, Clone, Copy, PartialEq, Eq, Structural)]
pub enum Requirement {
    /// Body text: a ratio of at least 4.5.
    MinimumText,
    /// Large text: a ratio of at least 3.
    MinimumLargeText,
    /// Body text, enhanced: a ratio of at least 7.
    EnhancedText,
    /// Large text, enhanced: a ratio of at least 4.5.
    EnhancedLargeText,
    /// Graphics and interface elements: a ratio of at least 3.
    MinimumGraphics,
}

/// The lightness step of one correction: a twentieth of the range, rounded
/// up, so that twenty steps cross the whole range.
pub const LIGHTNESS_STEP: u16 = 3277;

/// The most steps that a correction takes.
pub const MAX_STEPS: u8 = 20;

/// The least ratio that a requirement asks for, in tenths.
pub open spec fn threshold_tenths(requirement: Requirement) -> int {
    match requirement {
        Requirement::MinimumText => 45,
        Requirement::MinimumLargeText => 30,
        Requirement::EnhancedText => 70,
        Requirement::EnhancedLargeText => 45,
        Requirement::MinimumGraphics => 30,
    }
}

/// Whether two relative luminances, in parts, are in a ratio of at least
/// `tenths` tenths. The order of the two does not matter.
pub open spec fn contrast_met(tenths: int, first: int, second: int) -> bool {
    let lighter = if first >= second {
        first
    } else {
        second
    };
    let darker = if first >= second {
        second
    } else {
        first
    };
    10 * (20 * lighter + 65535) >= tenths * (20 * darker + 65535)
}

/// Whether `foreground` on `background` meets `requirement`.
pub open spec fn satisfies(requirement: Requirement, foreground: Rgba, background: Rgba) -> bool {
    contrast_met(threshold_tenths(requirement), luminance_of(foreground), luminance_of(background))
}

/// Whether a correction pushes the lightness of the foreground upwards:
/// where the background is the darker of the two, or where they are equally
/// light and below the middle of the range.
pub open spec fn pushes_up(background: Rgba, foreground: Rgba) -> bool {
    lightness_of(background) < lightness_of(foreground) || (lightness_of(background)
        == lightness_of(foreground) && lightness_of(background) < 32767)
}

/// One step from `lightness` in the direction of the correction, held at
/// the boundary of the range.
pub open spec fn stepped(lightness: int, upward: bool) -> int {
    if upward {
        if lightness + 3277 > 65535 {
            65535
        } else {
            lightness + 3277
        }
    } else {
        if lightness < 3277 {
            0
        } else {
            lightness - 3277
        }
    }
}

/// Whether `lightness` has reached the boundary that the correction moves
/// towards.
pub open spec fn at_boundary(lightness: int, upward: bool) -> bool {
    if upward {
        lightness >= 65535
    } else {
        lightness <= 0
    }
}

/// How far `lightness` is from the boundary that the correction moves
/// towards.
pub open spec fn room(lightness: int, upward: bool) -> int {
    if upward {
        65535 - lightness
    } else {
        lightness
    }
}

/// The foreground that a correction arrives at when it stands at
/// `lightness`: the first candidate, stepping on from there, that meets the
/// requirement, or the candidate at the boundary.
pub open spec fn corrected_from(
    requirement: Requirement,
    background: Rgba,
    foreground: Rgba,
    lightness: int,
    upward: bool,
) -> Rgba
    decreases room(lightness, upward),
{
    let candidate = with_lightness_of(foreground, lightness);
    if satisfies(requirement, candidate, background) || at_boundary(lightness, upward) {
        candidate
    } else {
        corrected_from(requirement, background, foreground, stepped(lightness, upward), upward)
    }
}

/// The number of steps that a correction still takes when it stands at
/// `lightness`.
pub open spec fn steps_from(
    requirement: Requirement,
    background: Rgba,
    foreground: Rgba,
    lightness: int,
    upward: bool,
) -> nat
    decreases room(lightness, upward),
{
    let candidate = with_lightness_of(foreground, lightness);
    if satisfies(requirement, candidate, background) || at_boundary(lightness, upward) {
        0
    } else {
        1 + steps_from(requirement, background, foreground, stepped(lightness, upward), upward)
    }
}

/// The corrected foreground: `foreground` with its lightness stepped away
/// from that of `background` until the requirement is met or the lightness
/// stands at the boundary of its range.
pub open spec fn correction_of(requirement: Requirement, background: Rgba, foreground: Rgba) -> Rgba {
    corrected_from(
        requirement,
        background,
        foreground,
        lightness_of(foreground),
        pushes_up(background, foreground),
    )
}

/// The number of steps that the correction of `foreground` takes.
pub open spec fn correction_steps_of(
    requirement: Requirement,
    background: Rgba,
    foreground: Rgba,
) -> nat {
    steps_from(
        requirement,
        background,
        foreground,
        lightness_of(foreground),
        pushes_up(background, foreground),
    )
}

/// A correction that has `room` left takes at most `room / 3277` steps,
/// rounded up.
pub proof fn lemma_steps_bounded(
    requirement: Requirement,
    background: Rgba,
    foreground: Rgba,
    lightness: int,
    upward: bool,
)
    requires
        0 <= lightness <= 65535,
    ensures
        steps_from(requirement, background, foreground, lightness, upward) * 3277 < room(
            lightness,
            upward,
        ) + 3277,
    decreases room(lightness, upward),
{
    let candidate = with_lightness_of(foreground, lightness);
    if satisfies(requirement, candidate, background) || at_boundary(lightness, upward) {
    } else {
        lemma_steps_bounded(requirement, background, foreground, stepped(lightness, upward), upward);
    }
}

/// A foreground that meets the requirement is its own correction.
pub proof fn lemma_correction_keeps_readable(
    requirement: Requirement,
    background: Rgba,
    foreground: Rgba,
)
    requires
        satisfies(requirement, foreground, background),
    ensures
        correction_of(requirement, background, foreground) == foreground,
        correction_steps_of(requirement, background, foreground) == 0,
{
    super::lemma_setters_keep_own_values(foreground);
}

/// Every correction ends within twenty steps.
pub proof fn lemma_correction_terminates(
    requirement: Requirement,
    background: Rgba,
    foreground: Rgba,
)
    ensures
        correction_steps_of(requirement, background, foreground) <= 20,
{
    lemma_steps_bounded(
        requirement,
        background,
        foreground,
        lightness_of(foreground),
        pushes_up(background, foreground),
    );
}

/// A correction ends on a foreground that meets the requirement, or on one
/// whose lightness was set to the boundary of the range.
pub proof fn lemma_correction_outcome(
    requirement: Requirement,
    background: Rgba,
    foreground: Rgba,
    lightness: int,
    upward: bool,
)
    requires
        0 <= lightness <= 65535,
    ensures
        ({
            let corrected = corrected_from(requirement, background, foreground, lightness, upward);
            satisfies(requirement, corrected, background) || corrected == with_lightness_of(
                foreground,
                if upward {
                    65535
                } else {
                    0
                },
            )
        }),
    decreases room(lightness, upward),
{
    let candidate = with_lightness_of(foreground, lightness);
    if satisfies(requirement, candidate, background) || at_boundary(lightness, upward) {
    } else {
        lemma_correction_outcome(
            requirement,
            background,
            foreground,
            stepped(lightness, upward),
            upward,
        );
    }
}

/// A corrected foreground meets the requirement, or is the foreground with
/// its lightness at the bottom or at the top of the range.
pub proof fn lemma_correction_readable_or_at_boundary(
    requirement: Requirement,
    background: Rgba,
    foreground: Rgba,
)
    ensures
        ({
            let corrected = correction_of(requirement, background, foreground);
            satisfies(requirement, corrected, background) || corrected == with_lightness_of(
                foreground,
                0,
            ) || corrected == with_lightness_of(foreground, 65535)
        }),
{
    lemma_correction_outcome(
        requirement,
        background,
        foreground,
        lightness_of(foreground),
        pushes_up(background, foreground),
    );
}

impl Requirement {
    /// The least ratio asked for, in tenths.
    pub fn tenths(self) -> (tenths: u32)
        ensures
            tenths == threshold_tenths(self),
            30 <= tenths <= 70,
    {
        match self {
            Requirement::MinimumText => 45,
            Requirement::MinimumLargeText => 30,
            Requirement::EnhancedText => 70,
            Requirement::EnhancedLargeText => 45,
            Requirement::MinimumGraphics => 30,
        }
    }
}

/// Decides whether two relative luminances meet `requirement`.
pub fn luminances_satisfy(requirement: Requirement, first: u16, second: u16) -> (met: bool)
    ensures
        met == contrast_met(threshold_tenths(requirement), first as int, second as int),
{
    let lighter: u32 = if first >= second {
        first as u32
    } else {
        second as u32
    };
    let darker: u32 = if first >= second {
        second as u32
    } else {
        first as u32
    };
    let tenths: u32 = requirement.tenths();
    let scale: u32 = 20 * darker + 65535;
    assert(tenths * scale <= 70 * 1376235) by (nonlinear_arith)
        requires
            0 <= tenths <= 70,
            0 <= scale <= 1376235,
    ;
    10 * (20 * lighter + 65535) >= tenths * scale
}

/// Decides whether `foreground` on `background` meets `requirement`.
pub fn has_contrast<TForeground: Color, TBackground: Color>(
    requirement: Requirement,
    foreground: TForeground,
    background: TBackground,
) -> (met: bool)
    ensures
        met == satisfies(requirement, foreground.rgba(), background.rgba()),
{
    luminances_satisfy(
        requirement,
        foreground.luminance::<FloatingComponent>().0,
        background.luminance::<FloatingComponent>().0,
    )
}

/// Decides whether `lightness` can still move in the direction of the
/// correction.
pub fn has_room(lightness: u16, upward: bool) -> (left: bool)
    ensures
        left == !at_boundary(lightness as int, upward),
{
    if upward {
        lightness < 65535
    } else {
        lightness > 0
    }
}

/// Corrects `foreground` for `background` and counts the steps taken.
pub fn correct_contrast_counted<TBackground: Color, TForeground: Color>(
    requirement: Requirement,
    background: TBackground,
    foreground: TForeground,
) -> (outcome: (TForeground, u8))
    ensures
        outcome.0.rgba() == correction_of(requirement, background.rgba(), foreground.rgba()),
        outcome.1 == correction_steps_of(requirement, background.rgba(), foreground.rgba()),
        outcome.1 <= MAX_STEPS,
        satisfies(requirement, foreground.rgba(), background.rgba()) ==> outcome.0.rgba()
            == foreground.rgba() && outcome.1 == 0,
{
    let own: u16 = foreground.lightness::<FloatingComponent>().0;
    let other: u16 = background.lightness::<FloatingComponent>().0;
    let upward: bool = other < own || (other == own && other < 32767);
    let mut lightness: u16 = own;
    let mut candidate: TForeground = foreground.with_lightness(FloatingComponent(own));
    let mut steps: u8 = 0;
    proof {
        lemma_correction_terminates(requirement, background.rgba(), foreground.rgba());
        if satisfies(requirement, foreground.rgba(), background.rgba()) {
            lemma_correction_keeps_readable(requirement, background.rgba(), foreground.rgba());
        }
    }
    while !has_contrast(requirement, candidate, background) && has_room(lightness, upward)
        invariant
            upward == pushes_up(background.rgba(), foreground.rgba()),
            candidate.rgba() == with_lightness_of(foreground.rgba(), lightness as int),
            correction_of(requirement, background.rgba(), foreground.rgba()) == corrected_from(
                requirement,
                background.rgba(),
                foreground.rgba(),
                lightness as int,
                upward,
            ),
            correction_steps_of(requirement, background.rgba(), foreground.rgba()) == steps
                + steps_from(
                requirement,
                background.rgba(),
                foreground.rgba(),
                lightness as int,
                upward,
            ),
            correction_steps_of(requirement, background.rgba(), foreground.rgba()) <= 20,
            steps <= 20,
        decreases room(lightness as int, upward),
    {
        lightness = if upward {
            if lightness > 65535 - LIGHTNESS_STEP {
                65535
            } else {
                lightness + LIGHTNESS_STEP
            }
        } else {
            if lightness < LIGHTNESS_STEP {
                0
            } else {
                lightness - LIGHTNESS_STEP
            }
        };
        candidate = foreground.with_lightness(FloatingComponent(lightness));
        steps = steps + 1;
    }
    (candidate, steps)
}

/// Corrects `foreground` until it meets `requirement` on `background`, or
/// its lightness stands at the boundary of the range.
pub fn correct_contrast<TBackground: Color, TForeground: Color>(
    requirement: Requirement,
    background: TBackground,
    foreground: TForeground,
) -> (corrected: TForeground)
    ensures
        corrected.rgba() == correction_of(requirement, background.rgba(), foreground.rgba()),
        satisfies(requirement, foreground.rgba(), background.rgba()) ==> corrected.rgba()
            == foreground.rgba(),
{
    correct_contrast_counted(requirement, background, foreground).0
}


pub fn has_min_contrast_text<TForeground: Color, TBackground: Color>(
    foreground: TForeground,
    background: TBackground,
) -> (met: bool)
    ensures
        met == satisfies(Requirement::MinimumText, foreground.rgba(), background.rgba()),
{
    has_contrast(Requirement::MinimumText, foreground, background)
}

pub fn has_min_contrast_large_text<TForeground: Color, TBackground: Color>(
    foreground: TForeground,
    background: TBackground,
) -> (met: bool)
    ensures
        met == satisfies(Requirement::MinimumLargeText, foreground.rgba(), background.rgba()),
{
    has_contrast(Requirement::MinimumLargeText, foreground, background)
}

pub fn has_enhanced_contrast_text<TForeground: Color, TBackground: Color>(
    foreground: TForeground,
    background: TBackground,
) -> (met: bool)
    ensures
        met == satisfies(Requirement::EnhancedText, foreground.rgba(), background.rgba()),
{
    has_contrast(Requirement::EnhancedText, foreground, background)
}

pub fn has_enhanced_contrast_large_text<TForeground: Color, TBackground: Color>(
    foreground: TForeground,
    background: TBackground,
) -> (met: bool)
    ensures
        met == satisfies(Requirement::EnhancedLargeText, foreground.rgba(), background.rgba()),
{
    has_contrast(Requirement::EnhancedLargeText, foreground, background)
}

pub fn has_min_contrast_graphics<TForeground: Color, TBackground: Color>(
    foreground: TForeground,
    background: TBackground,
) -> (met: bool)
    ensures
        met == satisfies(Requirement::MinimumGraphics, foreground.rgba(), background.rgba()),
{
    has_contrast(Requirement::MinimumGraphics, foreground, background)
}

pub fn correct_text_contrast<TBackground: Color, TForeground: Color>(
    background: TBackground,
    foreground: TForeground,
) -> (corrected: TForeground)
    ensures
        corrected.rgba() == correction_of(
            Requirement::MinimumText,
            background.rgba(),
            foreground.rgba(),
        ),
        satisfies(Requirement::MinimumText, foreground.rgba(), background.rgba()) ==> corrected.rgba()
            == foreground.rgba(),
{
    correct_contrast(Requirement::MinimumText, background, foreground)
}

pub fn correct_large_text_contrast<TBackground: Color, TForeground: Color>(
    background: TBackground,
    foreground: TForeground,
) -> (corrected: TForeground)
    ensures
        corrected.rgba() == correction_of(
            Requirement::MinimumLargeText,
            background.rgba(),
            foreground.rgba(),
        ),
        satisfies(Requirement::MinimumLargeText, foreground.rgba(), background.rgba()) ==> corrected.rgba()
            == foreground.rgba(),
{
    correct_contrast(Requirement::MinimumLargeText, background, foreground)
}

pub fn correct_text_enhanced_contrast<TBackground: Color, TForeground: Color>(
    background: TBackground,
    foreground: TForeground,
) -> (corrected: TForeground)
    ensures
        corrected.rgba() == correction_of(
            Requirement::EnhancedText,
            background.rgba(),
            foreground.rgba(),
        ),
        satisfies(Requirement::EnhancedText, foreground.rgba(), background.rgba()) ==> corrected.rgba()
            == foreground.rgba(),
{
    correct_contrast(Requirement::EnhancedText, background, foreground)
}

pub fn correct_large_text_enhanced_contrast<TBackground: Color, TForeground: Color>(
    background: TBackground,
    foreground: TForeground,
) -> (corrected: TForeground)
    ensures
        corrected.rgba() == correction_of(
            Requirement::EnhancedLargeText,
            background.rgba(),
            foreground.rgba(),
        ),
        satisfies(Requirement::EnhancedLargeText, foreground.rgba(), background.rgba()) ==> corrected.rgba()
            == foreground.rgba(),
{
    correct_contrast(Requirement::EnhancedLargeText, background, foreground)
}

pub fn correct_graphics_contrast<TBackground: Color, TForeground: Color>(
    background: TBackground,
    foreground: TForeground,
) -> (corrected: TForeground)
    ensures
        corrected.rgba() == correction_of(
            Requirement::MinimumGraphics,
            background.rgba(),
            foreground.rgba(),
        ),
        satisfies(Requirement::MinimumGraphics, foreground.rgba(), background.rgba()) ==> corrected.rgba()
            == foreground.rgba(),
{
    correct_contrast(Requirement::MinimumGraphics, background, foreground)
}

} // verus!
