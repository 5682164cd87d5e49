use lulezojne::color::component::{FloatingComponent, IntegerComponent};
use lulezojne::color::{degrees_to_parts, parts_to_degrees, Color, Rgba};

fn rgb(red: u8, green: u8, blue: u8) -> Rgba {
    Rgba::opaque(IntegerComponent(red), IntegerComponent(green), IntegerComponent(blue))
}

fn near(value: u16, expected: u16, tolerance: u16) -> bool {
    (value as i32 - expected as i32).abs() <= tolerance as i32
}

#[test]
fn constructors_fill_the_channels() {
    let color = rgb(12, 34, 56);
    assert_eq!(color.red.0, 12 * 257);
    assert_eq!(color.green.0, 34 * 257);
    assert_eq!(color.blue.0, 56 * 257);
    assert_eq!(color.alpha.0, 65535);
    let color = Rgba::transparent(
        FloatingComponent(1),
        FloatingComponent(2),
        FloatingComponent(3),
        FloatingComponent(4),
    );
    assert_eq!((color.red.0, color.green.0, color.blue.0, color.alpha.0), (1, 2, 3, 4));
    assert_eq!(color.red::<IntegerComponent>().0, 0);
    assert_eq!(rgb(12, 34, 56).green::<IntegerComponent>().0, 34);
    assert_eq!(rgb(12, 34, 56).blue::<FloatingComponent>().0, 56 * 257);
    assert_eq!(rgb(12, 34, 56).alpha::<IntegerComponent>().0, 255);
    assert_eq!(color.to_rgba(), color);
}

#[test]
fn black_and_white_have_the_extreme_lightness_and_luminance() {
    let black = rgb(0, 0, 0);
    let white = rgb(255, 255, 255);
    assert_eq!(black.lightness::<FloatingComponent>().0, 0);
    assert_eq!(white.lightness::<FloatingComponent>().0, 65535);
    assert_eq!(black.luminance::<FloatingComponent>().0, 0);
    assert_eq!(white.luminance::<FloatingComponent>().0, 65535);
    assert_eq!(black.saturation::<IntegerComponent>().0, 0);
    assert_eq!(white.lightness::<IntegerComponent>().0, 255);
}

#[test]
fn luminance_is_linear_light_not_the_stored_channel() {
    // A gray of half the stored intensity reflects about a fifth of the
    // light.
    let gray = rgb(128, 128, 128);
    let luminance = gray.luminance::<FloatingComponent>().0;
    assert!(near(luminance, 14146, 40), "luminance {luminance}");
    assert_ne!(luminance, gray.red.0);
}

#[test]
fn hues_of_the_primaries() {
    assert!(near(rgb(255, 0, 0).to_hsl().0, 29, 1));
    assert!(near(rgb(0, 255, 0).to_hsl().0, 142, 1));
    assert!(near(rgb(0, 0, 255).to_hsl().0, 264, 1));
    let hue = rgb(0, 255, 0).hue::<FloatingComponent>().0;
    assert!(near(hue, degrees_to_parts(142), 200), "hue {hue}");
    assert_eq!(rgb(255, 0, 0).saturation::<FloatingComponent>().0, 65535);
}

#[test]
fn degrees_and_parts_convert_into_each_other() {
    assert_eq!(degrees_to_parts(0), 0);
    assert_eq!(degrees_to_parts(180), 32768);
    assert_eq!(degrees_to_parts(10), 1820);
    assert_eq!(degrees_to_parts(359), 65353);
    assert_eq!(parts_to_degrees(65535), 0);
    assert_eq!(parts_to_degrees(32768), 180);
    for degrees in 0..360u16 {
        assert_eq!(parts_to_degrees(degrees_to_parts(degrees)), degrees);
    }
}

#[test]
fn distance_is_symmetric_and_zero_on_the_same_colour() {
    let colors = [
        rgb(0, 0, 0),
        rgb(255, 255, 255),
        rgb(255, 0, 0),
        rgb(200, 120, 30),
        rgb(30, 160, 220),
        rgb(31, 160, 220),
        rgb(30, 161, 220),
    ];
    for first in colors {
        assert_eq!(first.distance::<FloatingComponent>(first).0, 0);
        for second in colors {
            assert_eq!(
                first.distance::<FloatingComponent>(second),
                second.distance::<FloatingComponent>(first)
            );
        }
    }
}

#[test]
fn distance_grows_with_the_difference() {
    let black = rgb(0, 0, 0);
    assert_eq!(black.distance::<FloatingComponent>(rgb(255, 255, 255)).0, 65535);
    let near_black = black.distance::<FloatingComponent>(rgb(20, 20, 20)).0;
    let gray = black.distance::<FloatingComponent>(rgb(128, 128, 128)).0;
    assert!(0 < near_black && near_black < gray && gray < 65535);
    assert!(near(gray, 39313, 60), "distance {gray}");
    // Alpha does not count.
    let faint = rgb(20, 20, 20).with_alpha(FloatingComponent(100));
    assert_eq!(black.distance::<FloatingComponent>(faint).0, near_black);
    assert_eq!(black.distance::<IntegerComponent>(rgb(255, 255, 255)).0, 255);
}

#[test]
fn setting_a_channel_to_its_own_value_keeps_the_colour() {
    let color = rgb(200, 120, 30);
    assert_eq!(color.with_lightness(color.lightness::<FloatingComponent>()), color);
    assert_eq!(color.with_saturation(color.saturation::<FloatingComponent>()), color);
    assert_eq!(color.with_hue(color.hue::<FloatingComponent>()), color);
    assert_eq!(color.with_alpha(color.alpha::<FloatingComponent>()), color);
    let (hue, saturation, lightness) = color.to_hsl();
    assert_eq!(color.with_hsl(hue, saturation, lightness), color);
    assert_eq!(color.add_lightness(0i32), color);
    assert_eq!(color.multiply_saturation(65535i32), color);
}

#[test]
fn setters_change_one_channel() {
    let color = rgb(200, 120, 30);
    let lighter = color.with_lightness(FloatingComponent(60000));
    assert!(near(lighter.lightness::<FloatingComponent>().0, 60000, 30));
    assert!(near(lighter.to_hsl().0, color.to_hsl().0, 2));
    assert_eq!(lighter.alpha, color.alpha);
    let duller = color.with_saturation(FloatingComponent(10000));
    assert!(near(duller.saturation::<FloatingComponent>().0, 10000, 400));
    let turned = color.with_hue(FloatingComponent(degrees_to_parts(200)));
    assert!(near(turned.to_hsl().0, 200, 1));
    let faint = color.with_alpha(IntegerComponent(128));
    assert_eq!(faint.alpha.0, 128 * 257);
    assert_eq!((faint.red, faint.green, faint.blue), (color.red, color.green, color.blue));
}

#[test]
fn the_whole_lightness_is_white_and_none_is_black() {
    let color = rgb(200, 120, 30);
    let white = color.with_lightness(FloatingComponent(65535));
    assert_eq!((white.red.0, white.green.0, white.blue.0), (65535, 65535, 65535));
    let black = color.with_lightness(FloatingComponent(0));
    assert_eq!((black.red.0, black.green.0, black.blue.0), (0, 0, 0));
    assert_eq!(rgb(0, 0, 0).with_hsl(0, 0, 65535), rgb(255, 255, 255));
}

#[test]
fn factors_scale_and_shift_a_channel() {
    let color = rgb(200, 120, 30);
    let lightness = color.lightness::<FloatingComponent>().0;
    let shifted = color.add_lightness(3277i32);
    assert!(near(shifted.lightness::<FloatingComponent>().0, lightness + 3277, 30));
    let lowered = color.add_lightness(-3277i32);
    assert!(near(lowered.lightness::<FloatingComponent>().0, lightness - 3277, 30));
    let halved = color.multiply_lightness(32768i32);
    assert!(near(halved.lightness::<FloatingComponent>().0, lightness / 2, 30));
    assert_eq!(color.multiply_lightness(1_000_000i32).lightness::<FloatingComponent>().0, 65535);
    assert_eq!(color.add_lightness(-70000i32).lightness::<FloatingComponent>().0, 0);
    assert_eq!(color.multiply_alpha(32768i32).alpha.0, 32768);
    assert_eq!(color.add_alpha(-535i32).alpha.0, 65000);
    assert_eq!(color.add_alpha(5i32).alpha.0, 65535);
    let saturation = color.saturation::<FloatingComponent>().0;
    let duller = color.add_saturation(-10000i32);
    assert!(near(duller.saturation::<FloatingComponent>().0, saturation - 10000, 400));
}

#[test]
fn dark_colours_read_on_a_light_backdrop() {
    assert!(rgb(0, 0, 0).reads_on_light());
    assert!(rgb(20, 30, 40).reads_on_light());
    assert!(!rgb(255, 255, 255).reads_on_light());
    assert!(!rgb(240, 230, 200).reads_on_light());
    assert!(rgb(0, 0, 0).with_hsl(0, 0, 32766).reads_on_light());
    assert!(!rgb(0, 0, 0).with_hsl(0, 0, 32767).reads_on_light());
}
