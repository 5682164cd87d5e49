//! Selection over collections of colours: the extremes of a channel, the
//! colour closest to a reference, and filters by range or difference.
//!
//! Every search is a single pass from the first colour to the last, and
//! where several colours are equally good the first of them is chosen.

use vstd::prelude::*;
use super::component::{discrete_of_parts, Component, FloatingComponent};
use super::{distance_of, hue_of, lightness_of, luminance_of, saturation_of, Color, Rgba};

verus! {

/// The perceptual channels that a colour can be measured by.
#[derive(Debug, Clone, Copy, PartialEq, Eq, Structural)]
pub enum Channel {
    Lightness,
    Saturation,
    Hue,
    Luminance,
}

/// The value of a channel of a colour, in parts.
pub open spec fn channel_of(channel: Channel, color: Rgba) -> int {
    match channel {
        Channel::Lightness => lightness_of(color),
        Channel::Saturation => saturation_of(color),
        Channel::Hue => hue_of(color),
        Channel::Luminance => luminance_of(color),
    }
}

/// How far two values of a channel are apart. Hue is circular: its values
/// are apart by the shorter of the two ways round.
pub open spec fn delta_of(channel: Channel, first: int, second: int) -> int {
    let apart = if first >= second {
        first - second
    } else {
        second - first
    };
    if channel == Channel::Hue && apart > 65535 - apart {
        65535 - apart
    } else {
        apart
    }
}

/// Whether `keys[index]` is the least key and no earlier key equals it.
pub open spec fn is_first_least(keys: Seq<int>, index: int) -> bool {
    &&& 0 <= index < keys.len()
    &&& forall|other: int| 0 <= other < keys.len() ==> keys[index] <= #[trigger] keys[other]
    &&& forall|earlier: int| 0 <= earlier < index ==> keys[index] < #[trigger] keys[earlier]
}

/// Whether `keys[index]` is the greatest key and no earlier key equals it.
pub open spec fn is_first_greatest(keys: Seq<int>, index: int) -> bool {
    &&& 0 <= index < keys.len()
    &&& forall|other: int| 0 <= other < keys.len() ==> keys[index] >= #[trigger] keys[other]
    &&& forall|earlier: int| 0 <= earlier < index ==> keys[index] > #[trigger] keys[earlier]
}

/// The position of the least key that no earlier key equals.
pub open spec fn first_least(keys: Seq<int>) -> int {
    choose|index: int| is_first_least(keys, index)
}

/// The position of the greatest key that no earlier key equals.
pub open spec fn first_greatest(keys: Seq<int>) -> int {
    choose|index: int| is_first_greatest(keys, index)
}

/// Only one position holds the first least key.
pub proof fn lemma_first_least_unique(keys: Seq<int>, index: int)
    requires
        is_first_least(keys, index),
    ensures
        first_least(keys) == index,
{
    let chosen = first_least(keys);
    assert(is_first_least(keys, chosen));
    if chosen < index {
        assert(keys[index] < keys[chosen]);
        assert(keys[chosen] <= keys[index]);
    }
    if index < chosen {
        assert(keys[chosen] < keys[index]);
        assert(keys[index] <= keys[chosen]);
    }
}

/// Only one position holds the first greatest key.
pub proof fn lemma_first_greatest_unique(keys: Seq<int>, index: int)
    requires
        is_first_greatest(keys, index),
    ensures
        first_greatest(keys) == index,
{
    let chosen = first_greatest(keys);
    assert(is_first_greatest(keys, chosen));
    if chosen < index {
        assert(keys[index] > keys[chosen]);
        assert(keys[chosen] >= keys[index]);
    }
    if index < chosen {
        assert(keys[chosen] > keys[index]);
        assert(keys[index] >= keys[chosen]);
    }
}

/// Where the first least key of the first `index` keys is at `best`, that of
/// the first `index + 1` keys is at `index` if the key there is less, and
/// else still at `best`.
pub proof fn lemma_least_grows(keys: Seq<int>, index: int, best: int)
    requires
        0 <= best < index < keys.len(),
        is_first_least(keys.subrange(0, index), best),
    ensures
        is_first_least(
            keys.subrange(0, index + 1),
            if keys[index] < keys[best] {
                index
            } else {
                best
            },
        ),
{
    let before = keys.subrange(0, index);
    let after = keys.subrange(0, index + 1);
    let least = if keys[index] < keys[best] {
        keys[index]
    } else {
        keys[best]
    };
    assert(before[best] == keys[best]);
    assert forall|other: int| 0 <= other < after.len() implies least <= #[trigger] after[other] by {
        if other < index {
            assert(before[other] == after[other]);
        }
    }
    assert forall|earlier: int| 0 <= earlier < index && keys[index] < keys[best] implies keys[index]
        < #[trigger] after[earlier] by {
        assert(before[earlier] == after[earlier]);
    }
    assert forall|earlier: int| 0 <= earlier < best && !(keys[index] < keys[best]) implies keys[best]
        < #[trigger] after[earlier] by {
        assert(before[earlier] == after[earlier]);
    }
}

/// Where the first greatest key of the first `index` keys is at `best`,
/// that of the first `index + 1` keys is at `index` if the key there is
/// greater, and else still at `best`.
pub proof fn lemma_greatest_grows(keys: Seq<int>, index: int, best: int)
    requires
        0 <= best < index < keys.len(),
        is_first_greatest(keys.subrange(0, index), best),
    ensures
        is_first_greatest(
            keys.subrange(0, index + 1),
            if keys[index] > keys[best] {
                index
            } else {
                best
            },
        ),
{
    let before = keys.subrange(0, index);
    let after = keys.subrange(0, index + 1);
    let greatest = if keys[index] > keys[best] {
        keys[index]
    } else {
        keys[best]
    };
    assert(before[best] == keys[best]);
    assert forall|other: int| 0 <= other < after.len() implies greatest >= #[trigger] after[other] by {
        if other < index {
            assert(before[other] == after[other]);
        }
    }
    assert forall|earlier: int| 0 <= earlier < index && keys[index] > keys[best] implies keys[index]
        > #[trigger] after[earlier] by {
        assert(before[earlier] == after[earlier]);
    }
    assert forall|earlier: int| 0 <= earlier < best && !(keys[index] > keys[best]) implies keys[best]
        > #[trigger] after[earlier] by {
        assert(before[earlier] == after[earlier]);
    }
}

/// The channel of each colour, as the discrete byte nearest to it.
pub open spec fn discrete_keys(channel: Channel, colors: Seq<Rgba>) -> Seq<int> {
    Seq::new(colors.len(), |index: int| discrete_of_parts(channel_of(channel, colors[index])))
}

/// How far the channel of each colour is from `target`.
pub open spec fn target_keys(channel: Channel, target: int, colors: Seq<Rgba>) -> Seq<int> {
    Seq::new(
        colors.len(),
        |index: int| delta_of(channel, channel_of(channel, colors[index]), target),
    )
}

/// How far the channel of each colour is from that of `reference`.
pub open spec fn delta_keys(channel: Channel, reference: Rgba, colors: Seq<Rgba>) -> Seq<int> {
    target_keys(channel, channel_of(channel, reference), colors)
}

/// The perceptual distance of each colour from `reference`.
pub open spec fn distance_keys(reference: Rgba, colors: Seq<Rgba>) -> Seq<int> {
    Seq::new(colors.len(), |index: int| distance_of(colors[index], reference))
}

/// Reads one channel of a colour.
pub fn channel_value(channel: Channel, color: Rgba) -> (value: u16)
    ensures
        value == channel_of(channel, color),
{
    match channel {
        Channel::Lightness => color.lightness::<FloatingComponent>().0,
        Channel::Saturation => color.saturation::<FloatingComponent>().0,
        Channel::Hue => color.hue::<FloatingComponent>().0,
        Channel::Luminance => color.luminance::<FloatingComponent>().0,
    }
}

/// How far two values of a channel are apart.
pub fn channel_delta(channel: Channel, first: u16, second: u16) -> (delta: u16)
    ensures
        delta == delta_of(channel, first as int, second as int),
{
    let apart: u16 = if first >= second {
        first - second
    } else {
        second - first
    };
    match channel {
        Channel::Hue => {
            if apart > 65535 - apart {
                65535 - apart
            } else {
                apart
            }
        },
        _ => apart,
    }
}

/// Position of the first colour whose channel, as a discrete byte, is the
/// least; `None` exactly for an empty collection.
pub fn lowest_by(channel: Channel, colors: &Vec<Rgba>) -> (found: Option<usize>)
    ensures
        found is None <==> colors.len() == 0,
        found matches Some(index) ==> is_first_least(discrete_keys(channel, colors@), index as int),
{
    if colors.len() == 0 {
        return None;
    }
    let ghost keys = discrete_keys(channel, colors@);
    let mut best: usize = 0;
    let mut best_key: u8 = FloatingComponent(channel_value(channel, colors[0])).to_integer_component().0;
    let mut index: usize = 1;
    while index < colors.len()
        invariant
            keys == discrete_keys(channel, colors@),
            1 <= index <= colors.len(),
            best < index,
            best_key == keys[best as int],
            is_first_least(keys.subrange(0, index as int), best as int),
        decreases colors.len() - index,
    {
        let key: u8 = FloatingComponent(
            channel_value(channel, colors[index]),
        ).to_integer_component().0;
        proof {
            lemma_least_grows(keys, index as int, best as int);
        }
        if key < best_key {
            best = index;
            best_key = key;
        }
        index = index + 1;
    }
    assert(keys.subrange(0, colors.len() as int) =~= keys);
    Some(best)
}

/// Position of the first colour whose channel, as a discrete byte, is the
/// greatest; `None` exactly for an empty collection.
pub fn highest_by(channel: Channel, colors: &Vec<Rgba>) -> (found: Option<usize>)
    ensures
        found is None <==> colors.len() == 0,
        found matches Some(index) ==> is_first_greatest(
            discrete_keys(channel, colors@),
            index as int,
        ),
{
    if colors.len() == 0 {
        return None;
    }
    let ghost keys = discrete_keys(channel, colors@);
    let mut best: usize = 0;
    let mut best_key: u8 = FloatingComponent(channel_value(channel, colors[0])).to_integer_component().0;
    let mut index: usize = 1;
    while index < colors.len()
        invariant
            keys == discrete_keys(channel, colors@),
            1 <= index <= colors.len(),
            best < index,
            best_key == keys[best as int],
            is_first_greatest(keys.subrange(0, index as int), best as int),
        decreases colors.len() - index,
    {
        let key: u8 = FloatingComponent(
            channel_value(channel, colors[index]),
        ).to_integer_component().0;
        proof {
            lemma_greatest_grows(keys, index as int, best as int);
        }
        if key > best_key {
            best = index;
            best_key = key;
        }
        index = index + 1;
    }
    assert(keys.subrange(0, colors.len() as int) =~= keys);
    Some(best)
}

/// Position of the first colour whose channel is the least far from
/// `target`; `None` exactly for an empty collection.
pub fn closest_to(channel: Channel, target: u16, colors: &Vec<Rgba>) -> (found: Option<usize>)
    ensures
        found is None <==> colors.len() == 0,
        found matches Some(index) ==> is_first_least(
            target_keys(channel, target as int, colors@),
            index as int,
        ),
{
    if colors.len() == 0 {
        return None;
    }
    let ghost keys = target_keys(channel, target as int, colors@);
    let mut best: usize = 0;
    let mut best_key: u16 = channel_delta(channel, channel_value(channel, colors[0]), target);
    let mut index: usize = 1;
    while index < colors.len()
        invariant
            keys == target_keys(channel, target as int, colors@),
            1 <= index <= colors.len(),
            best < index,
            best_key == keys[best as int],
            is_first_least(keys.subrange(0, index as int), best as int),
        decreases colors.len() - index,
    {
        let key: u16 = channel_delta(channel, channel_value(channel, colors[index]), target);
        proof {
            lemma_least_grows(keys, index as int, best as int);
        }
        if key < best_key {
            best = index;
            best_key = key;
        }
        index = index + 1;
    }
    assert(keys.subrange(0, colors.len() as int) =~= keys);
    Some(best)
}

/// Position of the first colour whose channel is the least far from that of
/// `reference`; `None` exactly for an empty collection.
pub fn closest_by(channel: Channel, reference: Rgba, colors: &Vec<Rgba>) -> (found: Option<usize>)
    ensures
        found is None <==> colors.len() == 0,
        found matches Some(index) ==> is_first_least(
            delta_keys(channel, reference, colors@),
            index as int,
        ),
{
    closest_to(channel, channel_value(channel, reference), colors)
}

/// Position of the first colour at the least perceptual distance from
/// `reference`; `None` exactly for an empty collection.
pub fn closest_index(reference: Rgba, colors: &Vec<Rgba>) -> (found: Option<usize>)
    ensures
        found is None <==> colors.len() == 0,
        found matches Some(index) ==> is_first_least(distance_keys(reference, colors@), index as int),
{
    if colors.len() == 0 {
        return None;
    }
    let ghost keys = distance_keys(reference, colors@);
    let mut best: usize = 0;
    let mut best_key: u16 = colors[0].distance::<FloatingComponent>(reference).0;
    let mut index: usize = 1;
    while index < colors.len()
        invariant
            keys == distance_keys(reference, colors@),
            1 <= index <= colors.len(),
            best < index,
            best_key == keys[best as int],
            is_first_least(keys.subrange(0, index as int), best as int),
        decreases colors.len() - index,
    {
        let key: u16 = colors[index].distance::<FloatingComponent>(reference).0;
        proof {
            lemma_least_grows(keys, index as int, best as int);
        }
        if key < best_key {
            best = index;
            best_key = key;
        }
        index = index + 1;
    }
    assert(keys.subrange(0, colors.len() as int) =~= keys);
    Some(best)
}


/// The first colour of the least lightness; `None` exactly for an empty collection.
pub fn darkest(colors: &Vec<Rgba>) -> (found: Option<Rgba>)
    ensures
        found is None <==> colors.len() == 0,
        found matches Some(color) ==> exists|index: int|
            #[trigger] is_first_least(discrete_keys(Channel::Lightness, colors@), index) && colors[index]
                == color,
{
    match lowest_by(Channel::Lightness, colors) {
        Some(index) => Some(colors[index]),
        None => None,
    }
}

/// The first colour of the greatest lightness; `None` exactly for an empty collection.
pub fn brightest(colors: &Vec<Rgba>) -> (found: Option<Rgba>)
    ensures
        found is None <==> colors.len() == 0,
        found matches Some(color) ==> exists|index: int|
            #[trigger] is_first_greatest(discrete_keys(Channel::Lightness, colors@), index) && colors[index]
                == color,
{
    match highest_by(Channel::Lightness, colors) {
        Some(index) => Some(colors[index]),
        None => None,
    }
}

/// The first colour of the least saturation; `None` exactly for an empty collection.
pub fn least_saturated(colors: &Vec<Rgba>) -> (found: Option<Rgba>)
    ensures
        found is None <==> colors.len() == 0,
        found matches Some(color) ==> exists|index: int|
            #[trigger] is_first_least(discrete_keys(Channel::Saturation, colors@), index) && colors[index]
                == color,
{
    match lowest_by(Channel::Saturation, colors) {
        Some(index) => Some(colors[index]),
        None => None,
    }
}

/// The first colour of the greatest saturation; `None` exactly for an empty collection.
pub fn most_saturated(colors: &Vec<Rgba>) -> (found: Option<Rgba>)
    ensures
        found is None <==> colors.len() == 0,
        found matches Some(color) ==> exists|index: int|
            #[trigger] is_first_greatest(discrete_keys(Channel::Saturation, colors@), index) && colors[index]
                == color,
{
    match highest_by(Channel::Saturation, colors) {
        Some(index) => Some(colors[index]),
        None => None,
    }
}

/// The first colour whose lightness is the least far from that of `color`;
/// `None` exactly for an empty collection.
pub fn closest_by_lightness(color: Rgba, colors: &Vec<Rgba>) -> (found: Option<Rgba>)
    ensures
        found is None <==> colors.len() == 0,
        found matches Some(chosen) ==> exists|index: int|
            #[trigger] is_first_least(delta_keys(Channel::Lightness, color, colors@), index)
                && colors[index] == chosen,
{
    match closest_by(Channel::Lightness, color, colors) {
        Some(index) => Some(colors[index]),
        None => None,
    }
}

/// The first colour whose saturation is the least far from that of `color`;
/// `None` exactly for an empty collection.
pub fn closest_by_saturation(color: Rgba, colors: &Vec<Rgba>) -> (found: Option<Rgba>)
    ensures
        found is None <==> colors.len() == 0,
        found matches Some(chosen) ==> exists|index: int|
            #[trigger] is_first_least(delta_keys(Channel::Saturation, color, colors@), index)
                && colors[index] == chosen,
{
    match closest_by(Channel::Saturation, color, colors) {
        Some(index) => Some(colors[index]),
        None => None,
    }
}

/// The first colour whose hue is the least far from that of `color`;
/// `None` exactly for an empty collection.
pub fn closest_by_hue(color: Rgba, colors: &Vec<Rgba>) -> (found: Option<Rgba>)
    ensures
        found is None <==> colors.len() == 0,
        found matches Some(chosen) ==> exists|index: int|
            #[trigger] is_first_least(delta_keys(Channel::Hue, color, colors@), index)
                && colors[index] == chosen,
{
    match closest_by(Channel::Hue, color, colors) {
        Some(index) => Some(colors[index]),
        None => None,
    }
}

/// The first colour at the least perceptual distance from `color`; `None`
/// exactly for an empty collection.
pub fn closest(color: Rgba, colors: &Vec<Rgba>) -> (found: Option<Rgba>)
    ensures
        found is None <==> colors.len() == 0,
        found matches Some(chosen) ==> exists|index: int|
            #[trigger] is_first_least(distance_keys(color, colors@), index) && colors[index]
                == chosen,
{
    match closest_index(color, colors) {
        Some(index) => Some(colors[index]),
        None => None,
    }
}

/// A rule by which a filter keeps or drops a colour.
#[derive(Debug, Clone, Copy, PartialEq, Eq, Structural)]
pub enum Rule {
    /// Keeps a colour whose channel lies strictly between `min` and `max`.
    Range { channel: Channel, min: u16, max: u16 },
    /// Keeps a colour whose channel lies strictly above `min`.
    Above { channel: Channel, min: u16 },
    /// Keeps a colour whose channel is less than `difference` from `value`.
    MaxDifference { channel: Channel, value: u16, difference: u16 },
    /// Keeps a colour whose channel is more than `difference` from `value`.
    MinDifference { channel: Channel, value: u16, difference: u16 },
}

/// Whether `rule` keeps `color`.
pub open spec fn keeps(rule: Rule, color: Rgba) -> bool {
    match rule {
        Rule::Range { channel, min, max } => min < channel_of(channel, color) < max,
        Rule::Above { channel, min } => min < channel_of(channel, color),
        Rule::MaxDifference { channel, value, difference } => delta_of(
            channel,
            channel_of(channel, color),
            value as int,
        ) < difference,
        Rule::MinDifference { channel, value, difference } => delta_of(
            channel,
            channel_of(channel, color),
            value as int,
        ) > difference,
    }
}

/// Decides whether `rule` keeps `color`.
pub fn rule_keeps(rule: Rule, color: Rgba) -> (kept: bool)
    ensures
        kept == keeps(rule, color),
{
    match rule {
        Rule::Range { channel, min, max } => {
            let value: u16 = channel_value(channel, color);
            min < value && value < max
        },
        Rule::Above { channel, min } => min < channel_value(channel, color),
        Rule::MaxDifference { channel, value, difference } => {
            channel_delta(channel, channel_value(channel, color), value) < difference
        },
        Rule::MinDifference { channel, value, difference } => {
            channel_delta(channel, channel_value(channel, color), value) > difference
        },
    }
}

/// The colours that `rule` keeps, in the order in which they came.
pub fn filter_by(rule: Rule, colors: &Vec<Rgba>) -> (kept: Vec<Rgba>)
    ensures
        kept@ == colors@.filter(|color: Rgba| keeps(rule, color)),
{
    let mut kept: Vec<Rgba> = Vec::new();
    let ghost test = |color: Rgba| keeps(rule, color);
    let mut index: usize = 0;
    proof {
        reveal(Seq::filter);
        assert(colors@.subrange(0, 0) =~= Seq::<Rgba>::empty());
    }
    while index < colors.len()
        invariant
            index <= colors.len(),
            test == |color: Rgba| keeps(rule, color),
            kept@ == colors@.subrange(0, index as int).filter(test),
        decreases colors.len() - index,
    {
        let color = colors[index];
        proof {
            reveal(Seq::filter);
            let next = colors@.subrange(0, index + 1);
            assert(next.drop_last() =~= colors@.subrange(0, index as int));
            assert(next.last() == color);
        }
        if rule_keeps(rule, color) {
            kept.push(color);
        }
        index = index + 1;
    }
    assert(colors@.subrange(0, colors.len() as int) =~= colors@);
    kept
}

/// The colours whose lightness lies strictly between `min` and `max`.
pub fn filter_lightness_range<TComponent: Component>(
    min: TComponent,
    max: TComponent,
    colors: &Vec<Rgba>,
) -> (kept: Vec<Rgba>)
    ensures
        kept@ == colors@.filter(
            |color: Rgba|
                keeps(
                    Rule::Range {
                        channel: Channel::Lightness,
                        min: min.parts() as u16,
                        max: max.parts() as u16,
                    },
                    color,
                ),
        ),
{
    filter_by(
        Rule::Range {
            channel: Channel::Lightness,
            min: min.to_floating_component().0,
            max: max.to_floating_component().0,
        },
        colors,
    )
}

/// The colours whose lightness is less than `max_difference` from that of
/// `color`.
pub fn filter_lightness_max_difference<TComponent: Component>(
    color: Rgba,
    max_difference: TComponent,
    colors: &Vec<Rgba>,
) -> (kept: Vec<Rgba>)
    ensures
        kept@ == colors@.filter(
            |other: Rgba|
                keeps(
                    Rule::MaxDifference {
                        channel: Channel::Lightness,
                        value: channel_of(Channel::Lightness, color) as u16,
                        difference: max_difference.parts() as u16,
                    },
                    other,
                ),
        ),
{
    filter_by(
        Rule::MaxDifference {
            channel: Channel::Lightness,
            value: channel_value(Channel::Lightness, color),
            difference: max_difference.to_floating_component().0,
        },
        colors,
    )
}

/// The colours whose lightness is more than `min_difference` from that of
/// `color`.
pub fn filter_lightness_min_difference<TComponent: Component>(
    color: Rgba,
    min_difference: TComponent,
    colors: &Vec<Rgba>,
) -> (kept: Vec<Rgba>)
    ensures
        kept@ == colors@.filter(
            |other: Rgba|
                keeps(
                    Rule::MinDifference {
                        channel: Channel::Lightness,
                        value: channel_of(Channel::Lightness, color) as u16,
                        difference: min_difference.parts() as u16,
                    },
                    other,
                ),
        ),
{
    filter_by(
        Rule::MinDifference {
            channel: Channel::Lightness,
            value: channel_value(Channel::Lightness, color),
            difference: min_difference.to_floating_component().0,
        },
        colors,
    )
}

/// The colours whose saturation lies strictly between `min` and `max`.
pub fn filter_saturation_range<TComponent: Component>(
    min: TComponent,
    max: TComponent,
    colors: &Vec<Rgba>,
) -> (kept: Vec<Rgba>)
    ensures
        kept@ == colors@.filter(
            |color: Rgba|
                keeps(
                    Rule::Range {
                        channel: Channel::Saturation,
                        min: min.parts() as u16,
                        max: max.parts() as u16,
                    },
                    color,
                ),
        ),
{
    filter_by(
        Rule::Range {
            channel: Channel::Saturation,
            min: min.to_floating_component().0,
            max: max.to_floating_component().0,
        },
        colors,
    )
}

/// The colours whose saturation is less than `max_difference` from that of
/// `color`.
pub fn filter_saturation_max_difference<TComponent: Component>(
    color: Rgba,
    max_difference: TComponent,
    colors: &Vec<Rgba>,
) -> (kept: Vec<Rgba>)
    ensures
        kept@ == colors@.filter(
            |other: Rgba|
                keeps(
                    Rule::MaxDifference {
                        channel: Channel::Saturation,
                        value: channel_of(Channel::Saturation, color) as u16,
                        difference: max_difference.parts() as u16,
                    },
                    other,
                ),
        ),
{
    filter_by(
        Rule::MaxDifference {
            channel: Channel::Saturation,
            value: channel_value(Channel::Saturation, color),
            difference: max_difference.to_floating_component().0,
        },
        colors,
    )
}

/// The colours whose saturation is more than `min_difference` from that of
/// `color`.
pub fn filter_saturation_min_difference<TComponent: Component>(
    color: Rgba,
    min_difference: TComponent,
    colors: &Vec<Rgba>,
) -> (kept: Vec<Rgba>)
    ensures
        kept@ == colors@.filter(
            |other: Rgba|
                keeps(
                    Rule::MinDifference {
                        channel: Channel::Saturation,
                        value: channel_of(Channel::Saturation, color) as u16,
                        difference: min_difference.parts() as u16,
                    },
                    other,
                ),
        ),
{
    filter_by(
        Rule::MinDifference {
            channel: Channel::Saturation,
            value: channel_value(Channel::Saturation, color),
            difference: min_difference.to_floating_component().0,
        },
        colors,
    )
}

/// The colours whose hue lies strictly between `min` and `max`.
pub fn filter_hue_range<TComponent: Component>(
    min: TComponent,
    max: TComponent,
    colors: &Vec<Rgba>,
) -> (kept: Vec<Rgba>)
    ensures
        kept@ == colors@.filter(
            |color: Rgba|
                keeps(
                    Rule::Range {
                        channel: Channel::Hue,
                        min: min.parts() as u16,
                        max: max.parts() as u16,
                    },
                    color,
                ),
        ),
{
    filter_by(
        Rule::Range {
            channel: Channel::Hue,
            min: min.to_floating_component().0,
            max: max.to_floating_component().0,
        },
        colors,
    )
}

/// The colours whose hue is less than `max_difference` from that of
/// `color`.
pub fn filter_hue_max_difference<TComponent: Component>(
    color: Rgba,
    max_difference: TComponent,
    colors: &Vec<Rgba>,
) -> (kept: Vec<Rgba>)
    ensures
        kept@ == colors@.filter(
            |other: Rgba|
                keeps(
                    Rule::MaxDifference {
                        channel: Channel::Hue,
                        value: channel_of(Channel::Hue, color) as u16,
                        difference: max_difference.parts() as u16,
                    },
                    other,
                ),
        ),
{
    filter_by(
        Rule::MaxDifference {
            channel: Channel::Hue,
            value: channel_value(Channel::Hue, color),
            difference: max_difference.to_floating_component().0,
        },
        colors,
    )
}

/// The colours whose hue is more than `min_difference` from that of
/// `color`.
pub fn filter_hue_min_difference<TComponent: Component>(
    color: Rgba,
    min_difference: TComponent,
    colors: &Vec<Rgba>,
) -> (kept: Vec<Rgba>)
    ensures
        kept@ == colors@.filter(
            |other: Rgba|
                keeps(
                    Rule::MinDifference {
                        channel: Channel::Hue,
                        value: channel_of(Channel::Hue, color) as u16,
                        difference: min_difference.parts() as u16,
                    },
                    other,
                ),
        ),
{
    filter_by(
        Rule::MinDifference {
            channel: Channel::Hue,
            value: channel_value(Channel::Hue, color),
            difference: min_difference.to_floating_component().0,
        },
        colors,
    )
}

/// The hue that `clamp_hue_around` gives a colour of hue `hue`: held within
/// half of `tolerance` on either side of `reference`, on the circle.
pub open spec fn hue_around(reference: int, tolerance: int, hue: int) -> int {
    let half = tolerance / 2;
    let low = if reference >= half {
        reference - half
    } else {
        reference + 65535 - half
    };
    let high = if reference + half > 65535 {
        reference + half - 65535
    } else {
        reference + half
    };
    super::component::clamp_circular_of(hue, low, high)
}

/// `color` with its hue held within half of `tolerance` on either side of
/// the hue of `reference`.
pub fn clamp_hue_around<TColor: Color, TReference: Color, TTolerance: Component>(
    reference: TReference,
    tolerance: TTolerance,
    color: TColor,
) -> (clamped: TColor)
    ensures
        clamped.rgba() == super::with_hue_of(
            color.rgba(),
            hue_around(hue_of(reference.rgba()), tolerance.parts(), hue_of(color.rgba())),
        ),
{
    let half: u16 = tolerance.to_floating_component().0 / 2;
    let reference_hue: u16 = reference.hue::<FloatingComponent>().0;
    let hue: FloatingComponent = color.hue::<FloatingComponent>();
    let low: u16 = if reference_hue >= half {
        reference_hue - half
    } else {
        (reference_hue as u32 + 65535 - half as u32) as u16
    };
    let high: u16 = if reference_hue as u32 + half as u32 > 65535 {
        (reference_hue as u32 + half as u32 - 65535) as u16
    } else {
        reference_hue + half
    };
    color.with_hue(hue.clamp_circular(FloatingComponent(low), FloatingComponent(high)))
}

} // verus!
