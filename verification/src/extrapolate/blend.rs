//! Matching a target colour to a palette and blending the two.

use vstd::prelude::*;
use crate::color::component::{clamp_of, FloatingComponent};
use crate::color::extraction::{
    channel_delta, channel_value, closest_index, closest_to, delta_of, distance_keys, first_least,
    lemma_first_least_unique, target_keys, Channel,
};
use crate::color::{
    degrees_to_parts, hsl_of, hue_of, parts_of_degrees, with_alpha_of,
    with_hsl_of, Color, Rgba,
};

verus! {

/// The hue opposite to a hue of whole `degrees`.
pub open spec fn complement_of(degrees: int) -> int {
    (degrees + 180) % 360
}

/// `color` with its hue turned to the opposite side of the circle.
pub open spec fn rotated_of(color: Rgba) -> Rgba {
    let hsl = hsl_of(color);
    with_hsl_of(color, complement_of(hsl.0), hsl.1, hsl.2)
}

/// The colour of `palette` that a main target is matched to.
///
/// It is the first colour closest in hue to the target. Where even that one
/// is further than `tolerance` away, the first colour closest to the
/// opposite hue is looked up too; if it is strictly nearer to the opposite
/// hue than the direct match is to the target, it is taken with its hue
/// turned to the opposite side.
pub open spec fn hue_match_of(target: Rgba, tolerance: int, palette: Seq<Rgba>) -> Rgba {
    let keys = target_keys(Channel::Hue, hue_of(target), palette);
    let direct = first_least(keys);
    if keys[direct] <= tolerance {
        palette[direct]
    } else {
        let opposite = parts_of_degrees(complement_of(hsl_of(target).0));
        let opposite_keys = target_keys(Channel::Hue, opposite, palette);
        let counter = first_least(opposite_keys);
        if opposite_keys[counter] < keys[direct] {
            rotated_of(palette[counter])
        } else {
            palette[direct]
        }
    }
}

/// The colour of `palette` that a gradient or grayscale target is matched
/// to: the first at the least perceptual distance.
pub open spec fn distance_match_of(target: Rgba, palette: Seq<Rgba>) -> Rgba {
    palette[first_least(distance_keys(target, palette))]
}

/// The share `factor` (in 1/65535 parts) of `length`, rounded to the
/// nearest whole.
pub open spec fn share_of(length: int, factor: int) -> int {
    (length * factor + 32767) / 65535
}

/// The hue, in whole degrees, that lies the share `factor` of the shorter
/// way round from `from` to `to`; upwards where both ways are equal.
pub open spec fn mix_degrees_of(from: int, to: int, factor: int) -> int {
    let upwards = if to >= from {
        to - from
    } else {
        to + 360 - from
    };
    if upwards <= 180 {
        (from + share_of(upwards, factor)) % 360
    } else {
        (from + 360 - share_of(360 - upwards, factor)) % 360
    }
}

/// The value that lies the share `factor` of the way from `from` to `to`.
pub open spec fn mix_parts_of(from: int, to: int, factor: int) -> int {
    if to >= from {
        from + share_of(to - from, factor)
    } else {
        from - share_of(from - to, factor)
    }
}

/// A main target blended with its match: the hue of the target moved the
/// share `factor` of the way to the hue of the match, saturation, lightness
/// and alpha kept.
pub open spec fn hue_blend_of(target: Rgba, matched: Rgba, factor: int) -> Rgba {
    let own = hsl_of(target);
    with_hsl_of(target, mix_degrees_of(own.0, hsl_of(matched).0, factor), own.1, own.2)
}

/// A gradient or grayscale target blended with its match: hue, saturation,
/// lightness and alpha each moved the share `factor` of the way to those of
/// the match. The blend is made from the end that it lies nearer to, which
/// it equals where it has the hue, saturation and lightness of that end.
pub open spec fn full_blend_of(target: Rgba, matched: Rgba, factor: int) -> Rgba {
    let from = hsl_of(target);
    let to = hsl_of(matched);
    let base = if factor < 32768 {
        target
    } else {
        matched
    };
    with_alpha_of(
        with_hsl_of(
            base,
            mix_degrees_of(from.0, to.0, factor),
            mix_parts_of(from.1, to.1, factor),
            mix_parts_of(from.2, to.2, factor),
        ),
        mix_parts_of(target.alpha.0 as int, matched.alpha.0 as int, factor),
    )
}

/// `color` with its saturation and lightness held inside the given ranges.
pub open spec fn bounded_of(
    color: Rgba,
    saturation_range: Option<(i32, i32)>,
    lightness_range: Option<(i32, i32)>,
) -> Rgba {
    let hsl = hsl_of(color);
    let saturation = match saturation_range {
        Some(bounds) => clamp_of(hsl.1, bounds.0 as int, bounds.1 as int),
        None => hsl.1,
    };
    let lightness = match lightness_range {
        Some(bounds) => clamp_of(hsl.2, bounds.0 as int, bounds.1 as int),
        None => hsl.2,
    };
    with_hsl_of(color, hsl.0, saturation, lightness)
}

/// How far the hue of `color` is from the hue of `target`, round the
/// circle.
pub open spec fn hue_apart_of(color: Rgba, target: Rgba) -> int {
    delta_of(Channel::Hue, hue_of(color), hue_of(target))
}

/// How far the hue of `color` is from the hue opposite to that of `target`,
/// round the circle.
pub open spec fn opposite_apart_of(color: Rgba, target: Rgba) -> int {
    delta_of(Channel::Hue, hue_of(color), parts_of_degrees(complement_of(hsl_of(target).0)))
}

/// In a palette of one colour every target is matched to that colour: by
/// distance as it is; by hue as it is where it lies within the tolerance
/// or is no nearer to the opposite hue, and else with its hue turned to the
/// opposite side.
pub proof fn lemma_match_in_one(target: Rgba, tolerance: int, color: Rgba)
    ensures
        distance_match_of(target, seq![color]) == color,
        hue_match_of(target, tolerance, seq![color]) == if hue_apart_of(color, target) > tolerance
            && opposite_apart_of(color, target) < hue_apart_of(color, target) {
            rotated_of(color)
        } else {
            color
        },
{
    let palette = seq![color];
    assert(palette.len() == 1);
    assert(palette[0] == color);
    let keys = target_keys(Channel::Hue, hue_of(target), palette);
    assert(keys[0] == hue_apart_of(color, target));
    lemma_first_least_unique(keys, 0);
    let opposite = parts_of_degrees(complement_of(hsl_of(target).0));
    let opposite_keys = target_keys(Channel::Hue, opposite, palette);
    assert(opposite_keys[0] == opposite_apart_of(color, target));
    lemma_first_least_unique(opposite_keys, 0);
    lemma_first_least_unique(distance_keys(target, palette), 0);
}

/// A share of nothing is nothing, the whole share is the whole, and no
/// share is more than the whole.
pub proof fn lemma_share(length: int, factor: int)
    requires
        0 <= length,
        0 <= factor <= 65535,
    ensures
        share_of(length, 0) == 0,
        share_of(length, 65535) == length,
        0 <= share_of(length, factor) <= length,
{
    assert(0 <= length * factor <= length * 65535) by (nonlinear_arith)
        requires
            0 <= length,
            0 <= factor <= 65535,
    ;
}

/// Mixing by 0 keeps the start and mixing by the whole reaches the end.
pub proof fn lemma_mix_ends(from: int, to: int)
    requires
        0 <= from,
        0 <= to,
    ensures
        mix_parts_of(from, to, 0) == from,
        mix_parts_of(from, to, 65535) == to,
        from < 360 && to < 360 ==> mix_degrees_of(from, to, 0) == from && mix_degrees_of(
            from,
            to,
            65535,
        ) == to,
{
    if to >= from {
        lemma_share(to - from, 0);
    } else {
        lemma_share(from - to, 0);
    }
    if from < 360 && to < 360 {
        let upwards = if to >= from {
            to - from
        } else {
            to + 360 - from
        };
        lemma_share(upwards, 0);
        lemma_share(360 - upwards, 0);
    }
}

/// A mix factor of 0 gives the target itself, whatever it was matched to.
pub proof fn lemma_blend_by_nothing(target: Rgba, matched: Rgba)
    ensures
        hue_blend_of(target, matched, 0) == target,
        full_blend_of(target, matched, 0) == target,
{
    let from = hsl_of(target);
    let to = hsl_of(matched);
    lemma_mix_ends(from.0, to.0);
    lemma_mix_ends(from.1, to.1);
    lemma_mix_ends(from.2, to.2);
    lemma_mix_ends(target.alpha.0 as int, matched.alpha.0 as int);
}

/// A mix factor of the whole gives, in a gradient or grayscale area, the
/// matched colour itself; in the main area, the target with the hue of the
/// matched colour.
pub proof fn lemma_blend_by_all(target: Rgba, matched: Rgba)
    ensures
        full_blend_of(target, matched, 65535) == matched,
        hue_blend_of(target, matched, 65535) == with_hsl_of(
            target,
            hsl_of(matched).0,
            hsl_of(target).1,
            hsl_of(target).2,
        ),
{
    let from = hsl_of(target);
    let to = hsl_of(matched);
    lemma_mix_ends(from.0, to.0);
    lemma_mix_ends(from.1, to.1);
    lemma_mix_ends(from.2, to.2);
    lemma_mix_ends(target.alpha.0 as int, matched.alpha.0 as int);
}

/// The share `factor` of `length`.
pub fn share(length: u16, factor: u16) -> (part: u16)
    ensures
        part == share_of(length as int, factor as int),
        part <= length,
{
    proof {
        lemma_share(length as int, factor as int);
    }
    assert(length as int * factor as int <= 65535 * 65535) by (nonlinear_arith)
        requires
            0 <= length <= 65535,
            0 <= factor <= 65535,
    ;
    ((length as u64 * factor as u64 + 32767) / 65535) as u16
}

/// The hue the share `factor` of the shorter way round from `from` to `to`.
pub fn mix_degrees(from: u16, to: u16, factor: u16) -> (mixed: u16)
    requires
        from < 360,
        to < 360,
    ensures
        mixed == mix_degrees_of(from as int, to as int, factor as int),
        mixed < 360,
{
    let upwards: u16 = if to >= from {
        to - from
    } else {
        to + 360 - from
    };
    if upwards <= 180 {
        (from + share(upwards, factor)) % 360
    } else {
        (from + 360 - share(360 - upwards, factor)) % 360
    }
}

/// The value the share `factor` of the way from `from` to `to`.
pub fn mix_parts(from: u16, to: u16, factor: u16) -> (mixed: u16)
    ensures
        mixed == mix_parts_of(from as int, to as int, factor as int),
{
    if to >= from {
        from + share(to - from, factor)
    } else {
        from - share(from - to, factor)
    }
}

/// Matches a main target to the palette by hue.
pub fn hue_match(target: Rgba, tolerance: u16, palette: &Vec<Rgba>) -> (matched: Rgba)
    requires
        palette.len() > 0,
    ensures
        matched == hue_match_of(target, tolerance as int, palette@),
{
    let goal: u16 = channel_value(Channel::Hue, target);
    let direct: usize = closest_to(Channel::Hue, goal, palette).unwrap();
    let direct_delta: u16 = channel_delta(
        Channel::Hue,
        channel_value(Channel::Hue, palette[direct]),
        goal,
    );
    proof {
        lemma_first_least_unique(target_keys(Channel::Hue, goal as int, palette@), direct as int);
    }
    if direct_delta <= tolerance {
        palette[direct]
    } else {
        let opposite: u16 = degrees_to_parts((target.to_hsl().0 + 180) % 360);
        let counter: usize = closest_to(Channel::Hue, opposite, palette).unwrap();
        let counter_delta: u16 = channel_delta(
            Channel::Hue,
            channel_value(Channel::Hue, palette[counter]),
            opposite,
        );
        proof {
            lemma_first_least_unique(
                target_keys(Channel::Hue, opposite as int, palette@),
                counter as int,
            );
        }
        if counter_delta < direct_delta {
            let found: Rgba = palette[counter];
            let hsl = found.to_hsl();
            found.with_hsl((hsl.0 + 180) % 360, hsl.1, hsl.2)
        } else {
            palette[direct]
        }
    }
}

/// Matches a gradient or grayscale target to the palette by distance.
pub fn distance_match(target: Rgba, palette: &Vec<Rgba>) -> (matched: Rgba)
    requires
        palette.len() > 0,
    ensures
        matched == distance_match_of(target, palette@),
{
    let found: usize = closest_index(target, palette).unwrap();
    proof {
        lemma_first_least_unique(distance_keys(target, palette@), found as int);
    }
    palette[found]
}

/// Blends a main target with its match.
pub fn hue_blend(target: Rgba, matched: Rgba, factor: u16) -> (blend: Rgba)
    ensures
        blend == hue_blend_of(target, matched, factor as int),
{
    let own = target.to_hsl();
    target.with_hsl(mix_degrees(own.0, matched.to_hsl().0, factor), own.1, own.2)
}

/// Blends a gradient or grayscale target with its match.
pub fn full_blend(target: Rgba, matched: Rgba, factor: u16) -> (blend: Rgba)
    ensures
        blend == full_blend_of(target, matched, factor as int),
{
    let from = target.to_hsl();
    let to = matched.to_hsl();
    let base: Rgba = if factor < 32768 {
        target
    } else {
        matched
    };
    let blend: Rgba = base.with_hsl(
        mix_degrees(from.0, to.0, factor),
        mix_parts(from.1, to.1, factor),
        mix_parts(from.2, to.2, factor),
    );
    blend.with_alpha(FloatingComponent(mix_parts(target.alpha.0, matched.alpha.0, factor)))
}

/// Holds the saturation and lightness of `color` inside the given ranges.
pub fn bounded(
    color: Rgba,
    saturation_range: Option<(i32, i32)>,
    lightness_range: Option<(i32, i32)>,
) -> (held: Rgba)
    requires
        crate::config::range_valid(saturation_range),
        crate::config::range_valid(lightness_range),
    ensures
        held == bounded_of(color, saturation_range, lightness_range),
{
    let hsl = color.to_hsl();
    let saturation: u16 = match saturation_range {
        Some(bounds) => hold(hsl.1, bounds),
        None => hsl.1,
    };
    let lightness: u16 = match lightness_range {
        Some(bounds) => hold(hsl.2, bounds),
        None => hsl.2,
    };
    color.with_hsl(hsl.0, saturation, lightness)
}

/// The value of `bounds.0..=bounds.1` nearest to `value`.
pub fn hold(value: u16, bounds: (i32, i32)) -> (held: u16)
    requires
        0 <= bounds.0 <= bounds.1 <= 65535,
    ensures
        held == clamp_of(value as int, bounds.0 as int, bounds.1 as int),
{
    if (value as i32) < bounds.0 {
        bounds.0 as u16
    } else if value as i32 > bounds.1 {
        bounds.1 as u16
    } else {
        value
    }
}

} // verus!
