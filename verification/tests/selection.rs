use lulezojne::color::analysis::{analyze, measure, ChannelMetrics, Metrics};
use lulezojne::color::component::{FloatingComponent, IntegerComponent};
use lulezojne::color::extraction::{
    brightest, channel_delta, channel_value, clamp_hue_around, closest, closest_by_hue,
    closest_by_lightness, closest_by_saturation, closest_index, closest_to, darkest, filter_by,
    filter_hue_max_difference, filter_hue_min_difference, filter_hue_range,
    filter_lightness_max_difference, filter_lightness_min_difference, filter_lightness_range,
    filter_saturation_max_difference, filter_saturation_min_difference, filter_saturation_range,
    highest_by, least_saturated, lowest_by, most_saturated, rule_keeps, Channel, Rule,
};
use lulezojne::color::{degrees_to_parts, Color, Rgba};

fn rgb(red: u8, green: u8, blue: u8) -> Rgba {
    Rgba::opaque(IntegerComponent(red), IntegerComponent(green), IntegerComponent(blue))
}

fn gray(lightness: u16) -> Rgba {
    rgb(0, 0, 0).with_hsl(0, 0, lightness)
}

fn near(value: u16, expected: u16, tolerance: u16) -> bool {
    (value as i32 - expected as i32).abs() <= tolerance as i32
}

#[test]
fn darkest_and_brightest_of_three_lightnesses() {
    let dark = gray(6554);
    let middle = gray(32768);
    let light = gray(58982);
    for colors in [vec![dark, middle, light], vec![light, dark, middle], vec![middle, light, dark]] {
        assert_eq!(darkest(&colors), Some(dark));
        assert_eq!(brightest(&colors), Some(light));
        let metrics: Metrics<FloatingComponent> = analyze(&colors);
        assert!(near(metrics.lightness.median.0, 32768, 2), "{:?}", metrics.lightness);
        assert!(near(metrics.lightness.min.0, 6554, 2));
        assert!(near(metrics.lightness.max.0, 58982, 2));
        assert!(near(metrics.lightness.average.0, 32768, 2));
    }
}

#[test]
fn extremes_of_an_empty_collection_are_none() {
    let none: Vec<Rgba> = Vec::new();
    assert_eq!(darkest(&none), None);
    assert_eq!(brightest(&none), None);
    assert_eq!(least_saturated(&none), None);
    assert_eq!(most_saturated(&none), None);
    assert_eq!(closest(rgb(1, 2, 3), &none), None);
    assert_eq!(closest_by_hue(rgb(1, 2, 3), &none), None);
    assert_eq!(closest_by_lightness(rgb(1, 2, 3), &none), None);
    assert_eq!(closest_by_saturation(rgb(1, 2, 3), &none), None);
    assert_eq!(lowest_by(Channel::Hue, &none), None);
    assert_eq!(highest_by(Channel::Hue, &none), None);
    assert_eq!(closest_to(Channel::Hue, 5, &none), None);
    assert_eq!(closest_index(rgb(1, 2, 3), &none), None);
}

#[test]
fn ties_go_to_the_first_colour() {
    // Equal colours that differ in alpha only have every channel in common.
    let first = rgb(200, 120, 30).with_alpha(FloatingComponent(1));
    let second = rgb(200, 120, 30).with_alpha(FloatingComponent(2));
    let other = rgb(255, 255, 255);
    let colors = vec![other, first, second];
    assert_eq!(darkest(&colors), Some(first));
    assert_eq!(lowest_by(Channel::Lightness, &colors), Some(1));
    assert_eq!(most_saturated(&colors), Some(first));
    assert_eq!(closest(rgb(200, 120, 31), &colors), Some(first));
    assert_eq!(closest_by_hue(rgb(200, 120, 30), &colors), Some(first));
    assert_eq!(closest_by_lightness(rgb(200, 120, 30), &colors), Some(first));
    assert_eq!(closest_by_saturation(rgb(200, 120, 30), &colors), Some(first));
    let colors = vec![second, first, other];
    assert_eq!(brightest(&vec![first, other, other.with_alpha(FloatingComponent(7))]), Some(other));
    assert_eq!(highest_by(Channel::Saturation, &colors), Some(0));
    assert_eq!(least_saturated(&vec![first, gray(100), gray(200)]), Some(gray(100)));
}

#[test]
fn closest_by_a_channel() {
    let red = rgb(255, 0, 0);
    let green = rgb(0, 255, 0);
    let blue = rgb(0, 0, 255);
    let colors = vec![red, green, blue];
    assert_eq!(closest_by_hue(rgb(200, 40, 20), &colors), Some(red));
    assert_eq!(closest_by_hue(rgb(20, 40, 200), &colors), Some(blue));
    assert_eq!(closest_by_hue(rgb(60, 200, 60), &colors), Some(green));
    assert_eq!(closest(rgb(20, 40, 200), &colors), Some(blue));
    let grays = vec![gray(6554), gray(32768), gray(58982)];
    assert_eq!(closest_by_lightness(gray(30000), &grays), Some(grays[1]));
    assert_eq!(closest_by_lightness(gray(60000), &grays), Some(grays[2]));
    assert_eq!(closest_by_saturation(gray(30000), &vec![red, grays[0], green]), Some(grays[0]));
    assert_eq!(closest_to(Channel::Lightness, 7000, &grays), Some(0));
}

#[test]
fn hue_is_measured_round_the_circle() {
    assert_eq!(channel_delta(Channel::Hue, 63715, 1820), 3640);
    assert_eq!(channel_delta(Channel::Hue, 1820, 63715), 3640);
    assert_eq!(channel_delta(Channel::Hue, 10, 30), 20);
    assert_eq!(channel_delta(Channel::Lightness, 63715, 1820), 61895);
    assert_eq!(channel_delta(Channel::Saturation, 5, 5), 0);
    let red = rgb(255, 0, 0);
    assert_eq!(channel_value(Channel::Saturation, red), 65535);
    assert_eq!(channel_value(Channel::Luminance, rgb(255, 255, 255)), 65535);
    assert_eq!(channel_value(Channel::Lightness, rgb(0, 0, 0)), 0);
    assert_eq!(channel_value(Channel::Hue, red), red.hue::<FloatingComponent>().0);
}

#[test]
fn range_filters_keep_what_lies_strictly_inside() {
    let grays = vec![gray(6554), gray(32768), gray(58982), gray(20000)];
    let kept = filter_lightness_range(FloatingComponent(10000), FloatingComponent(40000), &grays);
    assert_eq!(kept, vec![grays[1], grays[3]]);
    let exact = filter_by(
        Rule::Range { channel: Channel::Lightness, min: 6554, max: 58982 },
        &vec![gray(6554), gray(58982)],
    );
    assert_eq!(exact.len(), 0);
    let red = rgb(255, 0, 0);
    let dull = rgb(120, 110, 100);
    let colors = vec![red, gray(30000), dull];
    // The whole saturation is not strictly inside.
    assert_eq!(
        filter_saturation_range(FloatingComponent(6554), FloatingComponent(65535), &colors),
        vec![dull]
    );
    assert_eq!(
        filter_saturation_range(IntegerComponent(0), IntegerComponent(255), &colors),
        vec![dull]
    );
    let hues = vec![red, rgb(0, 255, 0), rgb(0, 0, 255)];
    assert_eq!(
        filter_hue_range(
            FloatingComponent(degrees_to_parts(100)),
            FloatingComponent(degrees_to_parts(200)),
            &hues
        ),
        vec![hues[1]]
    );
    // Above a floor the whole saturation is kept.
    assert_eq!(
        filter_by(Rule::Above { channel: Channel::Saturation, min: 6554 }, &colors),
        vec![red, dull]
    );
    assert!(rule_keeps(Rule::Above { channel: Channel::Saturation, min: 65534 }, red));
    assert!(!rule_keeps(Rule::Above { channel: Channel::Saturation, min: 65535 }, red));
    assert!(rule_keeps(Rule::Range { channel: Channel::Saturation, min: 0, max: 65535 }, dull));
    assert!(!rule_keeps(Rule::Range { channel: Channel::Saturation, min: 0, max: 65535 }, red));
}

#[test]
fn difference_filters_keep_what_is_near_or_far() {
    let grays = vec![gray(6554), gray(32768), gray(58982), gray(30000)];
    let reference = gray(32000);
    assert_eq!(
        filter_lightness_max_difference(reference, FloatingComponent(3000), &grays),
        vec![grays[1], grays[3]]
    );
    assert_eq!(
        filter_lightness_min_difference(reference, FloatingComponent(3000), &grays),
        vec![grays[0], grays[2]]
    );
    let red = rgb(255, 0, 0);
    let dull = rgb(120, 110, 100);
    let colors = vec![red, gray(30000), dull];
    assert_eq!(
        filter_saturation_max_difference(red, FloatingComponent(1000), &colors),
        vec![red]
    );
    assert_eq!(
        filter_saturation_min_difference(red, FloatingComponent(1000), &colors),
        vec![colors[1], dull]
    );
    let hues = vec![red, rgb(0, 255, 0), rgb(0, 0, 255), rgb(255, 0, 40)];
    let ten_degrees = FloatingComponent(degrees_to_parts(10));
    assert_eq!(filter_hue_max_difference(red, ten_degrees, &hues), vec![red, hues[3]]);
    assert_eq!(filter_hue_min_difference(red, ten_degrees, &hues), vec![hues[1], hues[2]]);
}

#[test]
fn analysis_of_nothing_has_an_average_of_zero() {
    let none: Vec<Rgba> = Vec::new();
    let metrics: Metrics<FloatingComponent> = analyze(&none);
    for channel in [metrics.lightness, metrics.saturation, metrics.luminance, metrics.hue] {
        assert_eq!(channel.average.0, 0);
        assert_eq!(channel.min.0, 65535);
        assert_eq!(channel.max.0, 0);
        assert_eq!(channel.median.0, 65535);
    }
    let by_default: ChannelMetrics<IntegerComponent> = ChannelMetrics::default();
    assert_eq!((by_default.min.0, by_default.max.0, by_default.average.0), (255, 0, 0));
    let all: Metrics<IntegerComponent> = Metrics::default();
    assert_eq!(all.hue.min.0, 255);
}

#[test]
fn analysis_measures_every_channel() {
    let colors = vec![rgb(0, 0, 0), rgb(255, 255, 255), rgb(255, 255, 255), rgb(255, 255, 255)];
    let metrics: Metrics<FloatingComponent> = analyze(&colors);
    assert_eq!(metrics.luminance.min.0, 0);
    assert_eq!(metrics.luminance.max.0, 65535);
    // Three quarters of the whole, rounded down.
    assert_eq!(metrics.luminance.average.0, 49151);
    assert_eq!(metrics.luminance.median.0, 32767);
    assert_eq!(metrics.lightness.average.0, 49151);
    let bytes: ChannelMetrics<IntegerComponent> = measure(Channel::Lightness, &colors);
    assert_eq!((bytes.min.0, bytes.max.0, bytes.average.0, bytes.median.0), (0, 255, 191, 127));
}

#[test]
fn hue_is_held_around_a_reference() {
    let reference = rgb(0, 255, 0);
    let tolerance = FloatingComponent(degrees_to_parts(40));
    let far = rgb(0, 0, 255);
    let held = clamp_hue_around(reference, tolerance, far);
    assert!(near(held.to_hsl().0, 162, 1), "{:?}", held.to_hsl());
    let other_side = clamp_hue_around(reference, tolerance, rgb(255, 0, 0));
    assert!(near(other_side.to_hsl().0, 122, 1), "{:?}", other_side.to_hsl());
    let inside = rgb(40, 250, 30);
    assert_eq!(clamp_hue_around(reference, tolerance, inside), inside);
    let exact = clamp_hue_around(reference, FloatingComponent(0), far);
    assert!(near(exact.to_hsl().0, 142, 1));
}
