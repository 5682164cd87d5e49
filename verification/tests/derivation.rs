use lulezojne::color::accessibility::{has_contrast, Requirement};
use lulezojne::color::component::{FloatingComponent, IntegerComponent};
use lulezojne::color::{degrees_to_parts, Color, Rgba};
use lulezojne::config::{AccessibilityConfig, AnsiAreaConfig, AnsiConfig, ConfigError};
use lulezojne::extrapolate::ansi::{
    area_blend, gradient_target, graphics_requirement, grayscale_target, level, main_blend,
    opaque, palette_from, text_requirement, Extrapolator, MainSlot, GRADIENT_SIZE,
    GRAYSCALE_SIZE, PROMINENT_COUNT, SATURATION_FLOOR,
};
use lulezojne::extrapolate::blend::{
    bounded, distance_match, full_blend, hold, hue_blend, hue_match, mix_degrees, mix_parts, share,
};
use lulezojne::extrapolate::{bootstrap, extrapolate, ExtrapolateError, Extracted};

fn rgb(red: u8, green: u8, blue: u8) -> Rgba {
    Rgba::opaque(IntegerComponent(red), IntegerComponent(green), IntegerComponent(blue))
}

fn near(value: u16, expected: u16, tolerance: u16) -> bool {
    (value as i32 - expected as i32).abs() <= tolerance as i32
}

fn sample() -> Vec<Rgba> {
    vec![
        rgb(200, 120, 30),
        rgb(20, 30, 40),
        rgb(30, 160, 220),
        rgb(240, 230, 200),
        rgb(90, 40, 120),
        rgb(60, 140, 70),
    ]
}

const SLOTS: [MainSlot; 16] = [
    MainSlot::Black,
    MainSlot::Red,
    MainSlot::Green,
    MainSlot::Blue,
    MainSlot::Cyan,
    MainSlot::Yellow,
    MainSlot::Magenta,
    MainSlot::White,
    MainSlot::BrightBlack,
    MainSlot::BrightRed,
    MainSlot::BrightGreen,
    MainSlot::BrightBlue,
    MainSlot::BrightCyan,
    MainSlot::BrightYellow,
    MainSlot::BrightMagenta,
    MainSlot::BrightWhite,
];

#[test]
fn green_from_a_palette_of_red_takes_the_complementary_hue() {
    let red = rgb(255, 0, 0);
    let palette = vec![red];
    let target = MainSlot::Green.target();
    let tolerance = degrees_to_parts(10);
    assert_eq!(tolerance, 1820);
    // Red is 113 degrees from green, but only 67 from the opposite of
    // green: it is taken with its hue turned round.
    let matched = hue_match(target, tolerance, &palette);
    assert_ne!(matched, red);
    assert!(near(matched.to_hsl().0, 209, 1), "{:?}", matched.to_hsl());
    assert_eq!(matched.to_hsl().1, red.to_hsl().1);
    let mut config = AnsiAreaConfig::mixing(52428);
    config.hue_tolerance = tolerance as i32;
    // Four fifths of the way from 142 to 209 degrees.
    let blend = main_blend(&config, MainSlot::Green, &palette);
    assert!(near(blend.to_hsl().0, 196, 2), "{:?}", blend.to_hsl());
    assert!(near(blend.to_hsl().2, target.to_hsl().2, 40));
    assert!(near(blend.to_hsl().1, target.to_hsl().1, 400));
    assert_eq!(blend, hue_blend(target, matched, 52428));
}

#[test]
fn a_palette_of_one_red_derives_a_green_of_the_complementary_hue() {
    let red = rgb(255, 0, 0);
    assert_eq!(red.to_hsl().1, 65535);
    let mut config = AnsiConfig::default();
    config.main.mix_factor = 52428;
    config.main.hue_tolerance = degrees_to_parts(10) as i32;
    let extrapolator = Extrapolator::new(config, AccessibilityConfig::Normal);
    // A fully saturated colour takes part.
    let palette = extrapolator.extrapolate(&vec![red]).unwrap();
    assert_eq!(palette.black, red);
    let blend = main_blend(&config.main, MainSlot::Green, &vec![red]);
    assert_eq!(
        palette.green,
        lulezojne::color::accessibility::correct_contrast(
            Requirement::MinimumGraphics,
            red,
            blend
        )
    );
    // The green lies four fifths of the way from green to the opposite of
    // red, not at red.
    let hue = palette.green.to_hsl().0;
    assert!(near(hue, 196, 10), "hue {hue}");
    assert!(!near(hue, red.to_hsl().0, 10));
    assert!(!near(hue, MainSlot::Green.target().to_hsl().0, 10));
}

#[test]
fn a_match_within_the_tolerance_is_taken_as_it_is() {
    let lime = rgb(60, 200, 60);
    let palette = vec![rgb(255, 0, 0), lime, rgb(0, 0, 255)];
    let target = MainSlot::Green.target();
    assert_eq!(hue_match(target, 1820, &palette), lime);
    // With no tolerance the opposite hue is tried, but blue and red are
    // no nearer to it than lime is to green.
    assert_eq!(hue_match(target, 0, &palette), lime);
    // A wide tolerance takes the direct match however far it is.
    assert_eq!(hue_match(target, 32768, &vec![rgb(255, 0, 0)]), rgb(255, 0, 0));
    assert_eq!(distance_match(rgb(10, 10, 250), &palette), rgb(0, 0, 255));
}

#[test]
fn a_mix_factor_of_nothing_keeps_the_target_and_of_all_takes_the_match() {
    for target in [MainSlot::Green.target(), gradient_target(100), grayscale_target(7)] {
        for matched in sample() {
            assert_eq!(full_blend(target, matched, 0), target);
            assert_eq!(full_blend(target, matched, 65535), matched);
            assert_eq!(hue_blend(target, matched, 0), target);
            let turned = hue_blend(target, matched, 65535);
            let (_, saturation, lightness) = target.to_hsl();
            assert_eq!(turned, target.with_hsl(matched.to_hsl().0, saturation, lightness));
        }
    }
    let faint = rgb(200, 120, 30).with_alpha(FloatingComponent(100));
    assert_eq!(full_blend(gradient_target(100), faint, 65535), faint);
}

#[test]
fn a_blend_lies_between_its_ends() {
    let target = rgb(0, 128, 0);
    let matched = rgb(30, 160, 220).with_alpha(FloatingComponent(0));
    let blend = full_blend(target, matched, 32768);
    let (from, to, mixed) = (target.to_hsl(), matched.to_hsl(), blend.to_hsl());
    assert!(near(mixed.0, mix_degrees(from.0, to.0, 32768), 1));
    assert!(near(mixed.2, mix_parts(from.2, to.2, 32768), 40));
    assert_eq!(blend.alpha.0, 32767);
}

#[test]
fn shares_and_mixes_of_numbers() {
    assert_eq!(share(67, 52428), 54);
    assert_eq!(share(100, 0), 0);
    assert_eq!(share(100, 65535), 100);
    assert_eq!(share(100, 32768), 50);
    assert_eq!(share(65535, 65535), 65535);
    assert_eq!(share(3, 32768), 2);
    assert_eq!(mix_parts(100, 200, 32768), 150);
    assert_eq!(mix_parts(200, 100, 32768), 150);
    assert_eq!(mix_parts(200, 100, 16384), 175);
    assert_eq!(mix_parts(5, 5, 40000), 5);
    // The shorter way round, over the turn where need be.
    assert_eq!(mix_degrees(142, 209, 52428), 196);
    assert_eq!(mix_degrees(350, 10, 32768), 0);
    assert_eq!(mix_degrees(10, 350, 32768), 0);
    assert_eq!(mix_degrees(350, 10, 65535), 10);
    assert_eq!(mix_degrees(10, 350, 65535), 350);
    assert_eq!(mix_degrees(10, 350, 16384), 5);
    assert_eq!(mix_degrees(0, 180, 32768), 90);
    assert_eq!(mix_degrees(180, 0, 32768), 270);
    assert_eq!(mix_degrees(0, 181, 32768), 270);
}

#[test]
fn ranges_hold_saturation_and_lightness() {
    assert_eq!(hold(5, (10, 20)), 10);
    assert_eq!(hold(15, (10, 20)), 15);
    assert_eq!(hold(65535, (10, 20)), 20);
    let color = rgb(200, 120, 30);
    assert_eq!(bounded(color, None, None), color);
    let (_, saturation, lightness) = color.to_hsl();
    assert_eq!(
        bounded(color, Some((0, 65535)), Some((lightness as i32, lightness as i32))),
        color
    );
    let held = bounded(color, Some((0, 20000)), Some((50000, 60000)));
    assert!(near(held.to_hsl().1, 20000, 400), "{:?}", held.to_hsl());
    assert!(near(held.to_hsl().2, 50000, 40));
    assert!(saturation > 20000 && lightness < 50000);
    let mut config = AnsiAreaConfig::mixing(0);
    config.lightness_range = Some((40000, 65535));
    config.bright_lightness_range = Some((0, 30000));
    let normal = main_blend(&config, MainSlot::Green, &sample());
    let bright = main_blend(&config, MainSlot::BrightGreen, &sample());
    assert!(near(normal.to_hsl().2, 40000, 40));
    assert!(near(bright.to_hsl().2, 30000, 40));
}

#[test]
fn targets_are_even_levels() {
    assert_eq!(level(0, 6), 0);
    assert_eq!(level(1, 6), 10923);
    assert_eq!(level(3, 6), 32768);
    assert_eq!(level(5, 6), 54613);
    assert_eq!(level(1, 2), 32768);
    assert_eq!(level(1, 3), 21845);
    assert_eq!(level(2, 3), 43690);
    assert_eq!(level(1, 1), 65535);
    assert_eq!(level(31, 32), 63487);
    assert_eq!(MainSlot::Black.target(), opaque(0, 0, 0));
    assert_eq!(MainSlot::Red.target(), opaque(32768, 0, 0));
    assert_eq!(MainSlot::Cyan.target(), opaque(0, 32768, 32768));
    assert_eq!(MainSlot::White.target(), opaque(43690, 43690, 43690));
    assert_eq!(MainSlot::BrightBlack.target(), opaque(21845, 21845, 21845));
    assert_eq!(MainSlot::BrightYellow.target(), opaque(65535, 65535, 0));
    assert_eq!(MainSlot::BrightWhite.target(), rgb(255, 255, 255));
    assert_eq!(gradient_target(0), opaque(0, 0, 0));
    assert_eq!(gradient_target(1), opaque(0, 0, 10923));
    assert_eq!(gradient_target(6), opaque(0, 10923, 0));
    assert_eq!(gradient_target(36), opaque(10923, 0, 0));
    assert_eq!(gradient_target(215), opaque(54613, 54613, 54613));
    assert_eq!(grayscale_target(0), opaque(0, 0, 0));
    assert_eq!(grayscale_target(16), opaque(32768, 32768, 32768));
    assert_eq!(grayscale_target(31), opaque(63487, 63487, 63487));
    assert!(MainSlot::BrightRed.bright() && !MainSlot::Red.bright());
    assert!(MainSlot::BrightBlack.bright() && !MainSlot::White.bright());
    assert_eq!((GRADIENT_SIZE, GRAYSCALE_SIZE, PROMINENT_COUNT, SATURATION_FLOOR), (216, 32, 255, 6554));
}

#[test]
fn requirements_follow_the_accessibility() {
    assert_eq!(text_requirement(AccessibilityConfig::Normal), Requirement::MinimumText);
    assert_eq!(text_requirement(AccessibilityConfig::HighContrast), Requirement::EnhancedText);
    assert_eq!(graphics_requirement(AccessibilityConfig::Normal), Requirement::MinimumGraphics);
    assert_eq!(
        graphics_requirement(AccessibilityConfig::HighContrast),
        Requirement::EnhancedLargeText
    );
    assert_eq!(MainSlot::White.requirement(AccessibilityConfig::Normal), Requirement::MinimumText);
    assert_eq!(
        MainSlot::BrightWhite.requirement(AccessibilityConfig::HighContrast),
        Requirement::EnhancedText
    );
    assert_eq!(MainSlot::Red.requirement(AccessibilityConfig::Normal), Requirement::MinimumGraphics);
}

#[test]
fn the_same_input_derives_the_same_palette() {
    let config = AnsiConfig::default();
    let first = palette_from(&config, AccessibilityConfig::Normal, &sample()).unwrap();
    let second = palette_from(&config, AccessibilityConfig::Normal, &sample()).unwrap();
    for slot in SLOTS {
        assert_eq!(first.main(slot), second.main(slot));
    }
    assert_eq!(first.gradient, second.gradient);
    assert_eq!(first.grayscale, second.grayscale);
}

#[test]
fn a_palette_has_its_entries_in_the_order_of_the_targets() {
    let config = AnsiConfig::default();
    let accessibility = AccessibilityConfig::Normal;
    let colors = sample();
    let palette = palette_from(&config, accessibility, &colors).unwrap();
    let mut reversed = colors.clone();
    reversed.reverse();
    assert_eq!(palette.gradient.len(), 216);
    assert_eq!(palette.grayscale.len(), 32);
    // The background is the darkest colour, uncorrected.
    assert_eq!(palette.black, rgb(20, 30, 40));
    assert_eq!(palette.main(MainSlot::Black), palette.black);
    assert_eq!(palette.main(MainSlot::BrightCyan), palette.bright_cyan);
    for slot in SLOTS {
        if slot != MainSlot::Black {
            let blend = main_blend(&config.main, slot, &colors);
            let expected = lulezojne::color::accessibility::correct_contrast(
                slot.requirement(accessibility),
                palette.black,
                blend,
            );
            assert_eq!(palette.main(slot), expected, "{slot:?}");
        }
    }
    for index in [0usize, 1, 100, 215] {
        let blend = area_blend(&config.gradient, gradient_target(index), &colors);
        let expected = lulezojne::color::accessibility::correct_contrast(
            Requirement::MinimumGraphics,
            palette.black,
            blend,
        );
        assert_eq!(palette.gradient[index], expected);
    }
    let blend = area_blend(&config.grayscale, grayscale_target(31), &colors);
    assert_eq!(
        palette.grayscale[31],
        lulezojne::color::accessibility::correct_contrast(
            Requirement::MinimumGraphics,
            palette.black,
            blend
        )
    );
    // The hues of the slots do not follow the order of the input.
    let other = palette_from(&config, accessibility, &reversed).unwrap();
    assert_eq!(other.black, palette.black);
    assert_eq!(other.green, palette.green);
}

#[test]
fn entries_are_readable_on_the_background_or_at_the_boundary() {
    for accessibility in [AccessibilityConfig::Normal, AccessibilityConfig::HighContrast] {
        let palette = palette_from(&AnsiConfig::default(), accessibility, &sample()).unwrap();
        let mut entries: Vec<(Requirement, Rgba)> = Vec::new();
        for slot in SLOTS {
            if slot != MainSlot::Black {
                entries.push((slot.requirement(accessibility), palette.main(slot)));
            }
        }
        for entry in palette.gradient.iter().chain(palette.grayscale.iter()) {
            entries.push((graphics_requirement(accessibility), *entry));
        }
        assert_eq!(entries.len(), 15 + 216 + 32);
        for (requirement, entry) in entries {
            let lightness = entry.lightness::<FloatingComponent>().0;
            assert!(
                has_contrast(requirement, entry, palette.black)
                    || lightness <= 40
                    || lightness >= 65495,
                "{entry:?}"
            );
        }
    }
}

#[test]
fn an_empty_palette_is_an_error() {
    let none: Vec<Rgba> = Vec::new();
    let config = AnsiConfig::default();
    assert_eq!(
        palette_from(&config, AccessibilityConfig::Normal, &none).err(),
        Some(ExtrapolateError::EmptyPalette)
    );
    // Grays and colours near to gray do not take part.
    let extrapolator = Extrapolator::new(config, AccessibilityConfig::Normal);
    let unfit = vec![rgb(128, 128, 128), rgb(255, 255, 255), rgb(0, 0, 0), rgb(128, 127, 126)];
    assert_eq!(extrapolator.extrapolate(&unfit).err(), Some(ExtrapolateError::EmptyPalette));
    let fallback = palette_from(&config, AccessibilityConfig::Normal, &sample()).unwrap();
    let given = extrapolator.extrapolate_or(&unfit, fallback.clone()).unwrap();
    assert_eq!(given.black, fallback.black);
    assert_eq!(given.gradient, fallback.gradient);
    let derived = extrapolator.extrapolate_or(&sample(), given).unwrap();
    assert_eq!(derived.green, extrapolator.extrapolate(&sample()).unwrap().green);
    let mut faulty = config;
    faulty.main.mix_factor = -1;
    assert_eq!(
        Extrapolator::new(faulty, AccessibilityConfig::Normal)
            .extrapolate_or(&unfit, fallback)
            .err(),
        Some(ExtrapolateError::Config(ConfigError::MixFactor))
    );
    let mut fit = unfit.clone();
    fit.push(rgb(200, 120, 30));
    let palette = extrapolator.extrapolate(&fit).unwrap();
    assert_eq!(palette.black, rgb(200, 120, 30));
    let direct = palette_from(&config, AccessibilityConfig::Normal, &vec![rgb(200, 120, 30)]);
    assert_eq!(palette.gradient, direct.unwrap().gradient);
}

#[test]
fn a_faulty_configuration_is_an_error() {
    let colors = sample();
    let check = |change: &dyn Fn(&mut AnsiConfig), expected: ConfigError| {
        let mut config = AnsiConfig::default();
        change(&mut config);
        assert_eq!(config.validate(), Err(expected));
        assert_eq!(
            palette_from(&config, AccessibilityConfig::Normal, &colors).err(),
            Some(ExtrapolateError::Config(expected))
        );
        // The configuration is judged before the palette.
        assert_eq!(
            palette_from(&config, AccessibilityConfig::Normal, &Vec::new()).err(),
            Some(ExtrapolateError::Config(expected))
        );
    };
    check(&|config| config.main.mix_factor = 65536, ConfigError::MixFactor);
    check(&|config| config.gradient.mix_factor = -1, ConfigError::MixFactor);
    check(&|config| config.grayscale.hue_tolerance = 32769, ConfigError::HueTolerance);
    check(&|config| config.main.hue_tolerance = -1, ConfigError::HueTolerance);
    check(&|config| config.main.saturation_range = Some((5, 4)), ConfigError::SaturationRange);
    check(
        &|config| config.main.bright_saturation_range = Some((0, 65536)),
        ConfigError::SaturationRange,
    );
    check(&|config| config.gradient.lightness_range = Some((-1, 4)), ConfigError::LightnessRange);
    check(
        &|config| config.main.bright_lightness_range = Some((9, 4)),
        ConfigError::LightnessRange,
    );
    // The first fault is the one reported.
    check(
        &|config| {
            config.main.lightness_range = Some((9, 4));
            config.main.mix_factor = 70000;
            config.gradient.hue_tolerance = -3;
        },
        ConfigError::MixFactor,
    );
    check(
        &|config| {
            config.main.lightness_range = Some((9, 4));
            config.gradient.mix_factor = 70000;
        },
        ConfigError::LightnessRange,
    );
}

#[test]
fn the_interface_palette() {
    let colors = sample();
    let elements = vec![rgb(1, 2, 3), rgb(200, 120, 30), rgb(30, 160, 220), rgb(240, 230, 200)];
    let accessibility = AccessibilityConfig::Normal;
    let palette = bootstrap::palette_from(accessibility, &colors, &elements).unwrap();
    assert_eq!(palette.background, rgb(20, 30, 40));
    assert_eq!(palette.foreground, rgb(240, 230, 200));
    assert_eq!(palette.secondary, rgb(200, 120, 30));
    assert_eq!(palette.accent, rgb(240, 230, 200));
    assert!(has_contrast(Requirement::MinimumText, palette.info, palette.background));
    assert!(near(palette.info.to_hsl().0, rgb(60, 140, 70).to_hsl().0, 3));
    assert!(near(palette.error.to_hsl().0, rgb(200, 120, 30).to_hsl().0, 3));
    assert!(near(palette.debug.to_hsl().0, rgb(30, 160, 220).to_hsl().0, 3));
    assert_eq!(
        bootstrap::Extrapolator::new(accessibility).extrapolate(&colors, &elements),
        Ok(palette)
    );
    assert_eq!(
        bootstrap::palette_from(accessibility, &Vec::new(), &elements),
        Err(ExtrapolateError::EmptyPalette)
    );
    assert_eq!(
        bootstrap::palette_from(accessibility, &colors, &elements[..3].to_vec()),
        Err(ExtrapolateError::TooFewElements)
    );
    assert_eq!(
        bootstrap::palette_from(accessibility, &Vec::new(), &Vec::new()),
        Err(ExtrapolateError::EmptyPalette)
    );
    assert_eq!((bootstrap::PROMINENT_COUNT, bootstrap::ELEMENT_COUNT), (16, 4));
}

#[test]
fn both_palettes_at_once() {
    let config = AnsiConfig::default();
    let accessibility = AccessibilityConfig::HighContrast;
    let extracted =
        Extracted { terminal: sample(), interface: sample(), elements: sample() };
    let both = extrapolate(&config, accessibility, &extracted).unwrap();
    assert_eq!(
        Ok(both.bootstrap),
        bootstrap::palette_from(accessibility, &sample(), &sample())
    );
    let terminal = Extrapolator::new(config, accessibility).extrapolate(&sample()).unwrap();
    assert_eq!(both.ansi.gradient, terminal.gradient);
    assert_eq!(both.ansi.white, terminal.white);
    let short = Extracted { terminal: sample(), interface: sample(), elements: Vec::new() };
    assert_eq!(
        extrapolate(&config, accessibility, &short).err(),
        Some(ExtrapolateError::TooFewElements)
    );
    let empty = Extracted { terminal: Vec::new(), interface: sample(), elements: sample() };
    assert_eq!(
        extrapolate(&config, accessibility, &empty).err(),
        Some(ExtrapolateError::EmptyPalette)
    );
    let mut faulty = config;
    faulty.main.mix_factor = -1;
    assert_eq!(
        extrapolate(&faulty, accessibility, &extracted).err(),
        Some(ExtrapolateError::Config(ConfigError::MixFactor))
    );
    assert_eq!(
        extrapolate(&faulty, accessibility, &short).err(),
        Some(ExtrapolateError::TooFewElements)
    );
}
