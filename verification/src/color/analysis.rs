//! Measures of a collection of colours: the least, the greatest, the
//! average and the median of each perceptual channel.

use vstd::prelude::*;
use super::component::{median_of, Component, FloatingComponent};
use super::extraction::{channel_of, channel_value, Channel};
use super::Rgba;

verus! {

/// The measures of every channel.
#[derive(Debug, Clone, Copy)]
pub struct Metrics<TComponent: Component> {
    pub lightness: ChannelMetrics<TComponent>,
    pub saturation: ChannelMetrics<TComponent>,
    pub luminance: ChannelMetrics<TComponent>,
    pub hue: ChannelMetrics<TComponent>,
}

/// The measures of one channel. `median` is the midpoint of `min` and `max`.
#[derive(Debug, Clone, Copy)]
pub struct ChannelMetrics<TComponent: Component> {
    pub min: TComponent,
    pub max: TComponent,
    pub average: TComponent,
    pub median: TComponent,
}

/// The channel of each colour, in parts.
pub open spec fn channel_values(channel: Channel, colors: Seq<Rgba>) -> Seq<int> {
    Seq::new(colors.len(), |index: int| channel_of(channel, colors[index]))
}

/// The least of `values`; the top of the range where there is none.
pub open spec fn least_of(values: Seq<int>) -> int
    decreases values.len(),
{
    if values.len() == 0 {
        65535
    } else {
        let rest = least_of(values.drop_last());
        if values.last() < rest {
            values.last()
        } else {
            rest
        }
    }
}

/// The greatest of `values`; the bottom of the range where there is none.
pub open spec fn greatest_of(values: Seq<int>) -> int
    decreases values.len(),
{
    if values.len() == 0 {
        0
    } else {
        let rest = greatest_of(values.drop_last());
        if values.last() > rest {
            values.last()
        } else {
            rest
        }
    }
}

pub open spec fn sum_of(values: Seq<int>) -> int
    decreases values.len(),
{
    if values.len() == 0 {
        0
    } else {
        sum_of(values.drop_last()) + values.last()
    }
}

/// The average of `values`, rounded down; 0 where there is none.
pub open spec fn average_of(values: Seq<int>) -> int {
    if values.len() == 0 {
        0
    } else {
        sum_of(values) / (values.len() as int)
    }
}

/// The measures of a channel whose values are `values`.
pub open spec fn channel_metrics_of<TComponent: Component>(values: Seq<int>) -> ChannelMetrics<
    TComponent,
> {
    let min = TComponent::of_parts(least_of(values));
    let max = TComponent::of_parts(greatest_of(values));
    ChannelMetrics {
        min,
        max,
        average: TComponent::of_parts(average_of(values)),
        median: TComponent::of_level(median_of(min.level(), max.level())),
    }
}

/// Measures one channel of `colors`.
pub fn measure<TComponent: Component>(channel: Channel, colors: &Vec<Rgba>) -> (metrics:
    ChannelMetrics<TComponent>)
    ensures
        metrics == channel_metrics_of::<TComponent>(channel_values(channel, colors@)),
{
    let ghost values = channel_values(channel, colors@);
    let mut least: u16 = 65535;
    let mut greatest: u16 = 0;
    let mut sum: u128 = 0;
    let mut index: usize = 0;
    while index < colors.len()
        invariant
            values == channel_values(channel, colors@),
            index <= colors.len(),
            least == least_of(values.subrange(0, index as int)),
            greatest == greatest_of(values.subrange(0, index as int)),
            sum == sum_of(values.subrange(0, index as int)),
            sum <= index * 65535,
        decreases colors.len() - index,
    {
        let value: u16 = channel_value(channel, colors[index]);
        proof {
            let next = values.subrange(0, index + 1);
            assert(next.drop_last() =~= values.subrange(0, index as int));
            assert(next.last() == value);
        }
        if value < least {
            least = value;
        }
        if value > greatest {
            greatest = value;
        }
        sum = sum + value as u128;
        index = index + 1;
    }
    assert(values.subrange(0, colors.len() as int) =~= values);
    let average: u16 = if colors.len() == 0 {
        0
    } else {
        let count: u128 = colors.len() as u128;
        assert(sum / count <= 65535) by (nonlinear_arith)
            requires
                sum <= count * 65535,
                count > 0,
        ;
        (sum / count) as u16
    };
    let min = TComponent::from_floating_component(FloatingComponent(least));
    let max = TComponent::from_floating_component(FloatingComponent(greatest));
    ChannelMetrics {
        min,
        max,
        average: TComponent::from_floating_component(FloatingComponent(average)),
        median: TComponent::median(min, max),
    }
}

/// Measures every channel of `colors`. Of an empty collection the least is
/// the top of the range, the greatest its bottom, and the average 0.
pub fn analyze<TComponent: Component>(colors: &Vec<Rgba>) -> (metrics: Metrics<TComponent>)
    ensures
        metrics.lightness == channel_metrics_of::<TComponent>(
            channel_values(Channel::Lightness, colors@),
        ),
        metrics.saturation == channel_metrics_of::<TComponent>(
            channel_values(Channel::Saturation, colors@),
        ),
        metrics.luminance == channel_metrics_of::<TComponent>(
            channel_values(Channel::Luminance, colors@),
        ),
        metrics.hue == channel_metrics_of::<TComponent>(channel_values(Channel::Hue, colors@)),
{
    Metrics {
        lightness: measure(Channel::Lightness, colors),
        saturation: measure(Channel::Saturation, colors),
        luminance: measure(Channel::Luminance, colors),
        hue: measure(Channel::Hue, colors),
    }
}

impl<TComponent: Component> Default for ChannelMetrics<TComponent> {
    fn default() -> (metrics: Self)
        ensures
            metrics == channel_metrics_of::<TComponent>(Seq::<int>::empty()),
    {
        let min = TComponent::from_floating_component(FloatingComponent(65535));
        let max = TComponent::from_floating_component(FloatingComponent(0));
        ChannelMetrics {
            min,
            max,
            average: TComponent::from_floating_component(FloatingComponent(0)),
            median: TComponent::median(min, max),
        }
    }
}

impl<TComponent: Component> Default for Metrics<TComponent> {
    fn default() -> (metrics: Self)
        ensures
            metrics.lightness == channel_metrics_of::<TComponent>(Seq::<int>::empty()),
            metrics.saturation == channel_metrics_of::<TComponent>(Seq::<int>::empty()),
            metrics.luminance == channel_metrics_of::<TComponent>(Seq::<int>::empty()),
            metrics.hue == channel_metrics_of::<TComponent>(Seq::<int>::empty()),
    {
        Metrics {
            lightness: ChannelMetrics::default(),
            saturation: ChannelMetrics::default(),
            luminance: ChannelMetrics::default(),
            hue: ChannelMetrics::default(),
        }
    }
}

} // verus!
