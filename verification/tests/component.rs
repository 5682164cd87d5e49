use lulezojne::color::component::{Component, FloatingComponent, IntegerComponent};
use lulezojne::color::factor::Factor;

#[test]
fn discrete_values_survive_the_round_trip() {
    for value in 0..=255u8 {
        let fraction = IntegerComponent(value).to_floating_component();
        assert_eq!(fraction.0, value as u16 * 257);
        assert_eq!(fraction.to_integer_component(), IntegerComponent(value));
        assert_eq!(IntegerComponent::from_floating_component(fraction).0, value);
        assert_eq!(FloatingComponent::from_u8(value).to_integer_component().0, value);
    }
}

#[test]
fn fractions_come_back_within_one_step() {
    for parts in [0u16, 1, 127, 128, 129, 256, 257, 32767, 32768, 65406, 65407, 65534, 65535] {
        let back = FloatingComponent(parts).to_integer_component().to_floating_component();
        let apart = (back.0 as i32 - parts as i32).abs();
        assert!(apart < 257, "{parts} came back as {}", back.0);
    }
    assert_eq!(FloatingComponent(128).to_integer_component().0, 0);
    assert_eq!(FloatingComponent(129).to_integer_component().0, 1);
    assert_eq!(FloatingComponent(65535).to_integer_component().0, 255);
}

#[test]
fn circular_median_of_350_and_10_degrees_is_at_the_turn() {
    // 350 and 10 degrees as bytes of a full turn.
    let median = IntegerComponent::median_circular(IntegerComponent(248), IntegerComponent(7));
    assert_eq!(median.0, 255);
    // The same as fractions of a full turn.
    let median =
        FloatingComponent::median_circular(FloatingComponent(63715), FloatingComponent(1820));
    assert_eq!(median.0, 65535);
    // A linear median would lie half a turn away.
    assert_ne!(median.0, 32767);
}

#[test]
fn circular_median_wraps_past_the_top() {
    assert_eq!(
        IntegerComponent::median_circular(IntegerComponent(250), IntegerComponent(20)).0,
        7
    );
    assert_eq!(
        IntegerComponent::median_circular(IntegerComponent(10), IntegerComponent(20)).0,
        15
    );
    assert_eq!(
        FloatingComponent::median_circular(FloatingComponent(60000), FloatingComponent(10000)).0,
        2232
    );
}

#[test]
fn median_is_the_midpoint() {
    assert_eq!(IntegerComponent::median(IntegerComponent(10), IntegerComponent(21)).0, 15);
    assert_eq!(IntegerComponent::median(IntegerComponent(0), IntegerComponent(255)).0, 127);
    assert_eq!(IntegerComponent::median(IntegerComponent(30), IntegerComponent(20)).0, 30);
    assert_eq!(FloatingComponent::median(FloatingComponent(0), FloatingComponent(65535)).0, 32767);
}

#[test]
fn clamp_holds_values_inside() {
    let low = IntegerComponent(10);
    let high = IntegerComponent(20);
    assert_eq!(IntegerComponent(5).clamp(low, high).0, 10);
    assert_eq!(IntegerComponent(15).clamp(low, high).0, 15);
    assert_eq!(IntegerComponent(25).clamp(low, high).0, 20);
}

#[test]
fn circular_clamp_wraps_past_the_top() {
    let low = IntegerComponent(200);
    let high = IntegerComponent(50);
    // Inside the interval, on either side of the top.
    assert_eq!(IntegerComponent(220).clamp_circular(low, high).0, 220);
    assert_eq!(IntegerComponent(255).clamp_circular(low, high).0, 255);
    assert_eq!(IntegerComponent(0).clamp_circular(low, high).0, 0);
    assert_eq!(IntegerComponent(30).clamp_circular(low, high).0, 30);
    assert_eq!(IntegerComponent(200).clamp_circular(low, high).0, 200);
    assert_eq!(IntegerComponent(50).clamp_circular(low, high).0, 50);
    // In the gap: the nearer bound, the upper one on a tie.
    assert_eq!(IntegerComponent(60).clamp_circular(low, high).0, 50);
    assert_eq!(IntegerComponent(190).clamp_circular(low, high).0, 200);
    assert_eq!(IntegerComponent(125).clamp_circular(low, high).0, 50);
    assert_eq!(IntegerComponent(126).clamp_circular(low, high).0, 200);
    // Without a wrap it is the plain clamp.
    assert_eq!(
        IntegerComponent(5).clamp_circular(IntegerComponent(10), IntegerComponent(20)).0,
        10
    );
    assert_eq!(
        FloatingComponent(30000).clamp_circular(FloatingComponent(60000), FloatingComponent(1000)).0,
        1000
    );
}

#[test]
fn extend_widens_the_interval() {
    let range = (IntegerComponent(10), IntegerComponent(20));
    assert_eq!(IntegerComponent(5).extend(range), (IntegerComponent(5), IntegerComponent(20)));
    assert_eq!(IntegerComponent(25).extend(range), (IntegerComponent(10), IntegerComponent(25)));
    assert_eq!(IntegerComponent(15).extend(range), range);
}

#[test]
fn circular_extend_wraps_past_the_top() {
    let wrapped = (IntegerComponent(200), IntegerComponent(50));
    // Already inside.
    assert_eq!(IntegerComponent(250).extend_circular(wrapped), wrapped);
    assert_eq!(IntegerComponent(10).extend_circular(wrapped), wrapped);
    // The end with the shorter way moves.
    assert_eq!(
        IntegerComponent(60).extend_circular(wrapped),
        (IntegerComponent(200), IntegerComponent(60))
    );
    assert_eq!(
        IntegerComponent(190).extend_circular(wrapped),
        (IntegerComponent(190), IntegerComponent(50))
    );
    // A plain interval grows over the top where that is shorter.
    let plain = (IntegerComponent(10), IntegerComponent(20));
    assert_eq!(
        IntegerComponent(250).extend_circular(plain),
        (IntegerComponent(250), IntegerComponent(20))
    );
    assert_eq!(
        IntegerComponent(40).extend_circular(plain),
        (IntegerComponent(10), IntegerComponent(40))
    );
    assert_eq!(
        FloatingComponent(65000).extend_circular((FloatingComponent(100), FloatingComponent(200))),
        (FloatingComponent(65000), FloatingComponent(200))
    );
}

#[test]
fn arithmetic_saturates() {
    assert_eq!(IntegerComponent(200).saturating_add(IntegerComponent(100)).0, 255);
    assert_eq!(IntegerComponent(20).saturating_add(IntegerComponent(100)).0, 120);
    assert_eq!(IntegerComponent(20).saturating_sub(IntegerComponent(100)).0, 0);
    assert_eq!(IntegerComponent(120).saturating_sub(IntegerComponent(100)).0, 20);
    assert_eq!(FloatingComponent(60000).saturating_add(FloatingComponent(6000)).0, 65535);
    assert_eq!(FloatingComponent(5).saturating_sub(FloatingComponent(6)).0, 0);
}

#[test]
fn bounds_of_the_range() {
    assert_eq!(IntegerComponent::min_component().0, 0);
    assert_eq!(IntegerComponent::max_component().0, 255);
    assert_eq!(FloatingComponent::min_component().0, 0);
    assert_eq!(FloatingComponent::max_component().0, 65535);
}

#[test]
fn out_of_range_input_is_clamped() {
    assert_eq!(FloatingComponent::from_fraction(-5).0, 0);
    assert_eq!(FloatingComponent::from_fraction(70000).0, 65535);
    assert_eq!(FloatingComponent::from_fraction(1234).0, 1234);
    assert_eq!(IntegerComponent::from_u16(300).0, 255);
    assert_eq!(IntegerComponent::from_u16(30).0, 30);
    assert_eq!(IntegerComponent(30).to_u16(), 30);
}

#[test]
fn factors_scale_and_shift() {
    // Half of a half.
    assert_eq!(32768i32.multiply(FloatingComponent(32768)).0, 16384);
    assert_eq!(65535i32.multiply(FloatingComponent(1234)).0, 1234);
    assert_eq!(0i32.multiply(FloatingComponent(1234)).0, 0);
    assert_eq!((-5i32).multiply(FloatingComponent(1234)).0, 0);
    assert_eq!(131070i32.multiply(FloatingComponent(40000)).0, 65535);
    assert_eq!(3277i32.add(FloatingComponent(1000)).0, 4277);
    assert_eq!((-3277i32).add(FloatingComponent(1000)).0, 0);
    assert_eq!(3277i32.add(FloatingComponent(65000)).0, 65535);
    assert_eq!(32768i32.multiply(IntegerComponent(200)).0, 100);
    assert_eq!(257i32.add(IntegerComponent(200)).0, 201);
}

#[test]
fn an_interval_of_equal_bounds_is_one_level() {
    let bound = IntegerComponent(3);
    assert_eq!(IntegerComponent(5).extend_circular((bound, bound)), (bound, IntegerComponent(5)));
    assert_eq!(IntegerComponent(1).extend_circular((bound, bound)), (IntegerComponent(1), bound));
    assert_eq!(IntegerComponent(3).extend_circular((bound, bound)), (bound, bound));
    assert_eq!(
        IntegerComponent(250).extend_circular((bound, bound)),
        (IntegerComponent(250), bound)
    );
    assert_eq!(IntegerComponent(5).clamp_circular(bound, bound), bound);
    assert_eq!(IntegerComponent(0).clamp_circular(bound, bound), bound);
    assert_eq!(IntegerComponent(3).clamp_circular(bound, bound), bound);
    assert_eq!(
        IntegerComponent::median_circular(IntegerComponent(10), IntegerComponent(10)).0,
        10
    );
    assert_eq!(
        FloatingComponent::median_circular(FloatingComponent(777), FloatingComponent(777)).0,
        777
    );
    assert_eq!(
        FloatingComponent(9).extend_circular((FloatingComponent(7), FloatingComponent(7))),
        (FloatingComponent(7), FloatingComponent(9))
    );
    assert_eq!(FloatingComponent(9).clamp_circular(FloatingComponent(7), FloatingComponent(7)).0, 7);
}
