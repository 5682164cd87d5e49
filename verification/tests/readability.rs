use lulezojne::color::accessibility::{
    correct_contrast, correct_contrast_counted, correct_graphics_contrast,
    correct_large_text_contrast, correct_large_text_enhanced_contrast, correct_text_contrast,
    correct_text_enhanced_contrast, has_contrast, has_enhanced_contrast_large_text,
    has_enhanced_contrast_text, has_min_contrast_graphics, has_min_contrast_large_text,
    has_min_contrast_text, has_room, luminances_satisfy, Requirement, LIGHTNESS_STEP, MAX_STEPS,
};
use lulezojne::color::component::{FloatingComponent, IntegerComponent};
use lulezojne::color::{Color, Rgba};

fn rgb(red: u8, green: u8, blue: u8) -> Rgba {
    Rgba::opaque(IntegerComponent(red), IntegerComponent(green), IntegerComponent(blue))
}

const ALL: [Requirement; 5] = [
    Requirement::MinimumText,
    Requirement::MinimumLargeText,
    Requirement::EnhancedText,
    Requirement::EnhancedLargeText,
    Requirement::MinimumGraphics,
];

#[test]
fn thresholds_of_the_requirements() {
    assert_eq!(Requirement::MinimumText.tenths(), 45);
    assert_eq!(Requirement::MinimumLargeText.tenths(), 30);
    assert_eq!(Requirement::EnhancedText.tenths(), 70);
    assert_eq!(Requirement::EnhancedLargeText.tenths(), 45);
    assert_eq!(Requirement::MinimumGraphics.tenths(), 30);
    assert_eq!(LIGHTNESS_STEP, 3277);
    assert_eq!(MAX_STEPS, 20);
}

#[test]
fn contrast_is_the_ratio_of_the_luminances() {
    // On black the ratio is (20 * l + 65535) / 65535.
    assert!(luminances_satisfy(Requirement::MinimumText, 11469, 0));
    assert!(!luminances_satisfy(Requirement::MinimumText, 11468, 0));
    assert!(luminances_satisfy(Requirement::MinimumGraphics, 6554, 0));
    assert!(!luminances_satisfy(Requirement::MinimumGraphics, 6553, 0));
    assert!(luminances_satisfy(Requirement::EnhancedText, 19661, 0));
    assert!(!luminances_satisfy(Requirement::EnhancedText, 19660, 0));
    // The order of the two does not matter.
    assert!(luminances_satisfy(Requirement::MinimumText, 0, 11469));
    assert!(!luminances_satisfy(Requirement::MinimumText, 0, 11468));
    // White on black is 21 to 1; a colour on itself is 1 to 1.
    for requirement in ALL {
        assert!(luminances_satisfy(requirement, 65535, 0));
        assert!(!luminances_satisfy(requirement, 30000, 30000));
    }
    // Against white: (20 * 65535 + 65535) >= 4.5 * (20 * l + 65535).
    assert!(luminances_satisfy(Requirement::EnhancedLargeText, 65535, 12014));
    assert!(!luminances_satisfy(Requirement::EnhancedLargeText, 65535, 12015));
}

#[test]
fn predicates_by_name() {
    let black = rgb(0, 0, 0);
    let white = rgb(255, 255, 255);
    let gray = rgb(128, 128, 128);
    assert!(has_min_contrast_text(white, black));
    assert!(has_min_contrast_large_text(white, black));
    assert!(has_enhanced_contrast_text(white, black));
    assert!(has_enhanced_contrast_large_text(white, black));
    assert!(has_min_contrast_graphics(white, black));
    // Middle gray on black is about 5.3 to 1.
    assert!(has_min_contrast_text(gray, black));
    assert!(!has_enhanced_contrast_text(gray, black));
    assert!(has_enhanced_contrast_large_text(gray, black));
    // On white it is about 3.9 to 1.
    assert!(!has_min_contrast_text(gray, white));
    assert!(has_min_contrast_graphics(gray, white));
    assert!(has_min_contrast_large_text(gray, white));
    assert!(!has_contrast(Requirement::MinimumGraphics, gray, gray));
}

#[test]
fn a_readable_foreground_is_left_as_it_is() {
    let black = rgb(0, 0, 0);
    let white = rgb(255, 255, 255);
    let cream = rgb(250, 240, 220);
    for requirement in ALL {
        assert_eq!(correct_contrast(requirement, black, white), white);
        assert_eq!(correct_contrast(requirement, black, cream), cream);
        assert_eq!(correct_contrast(requirement, white, black), black);
        assert_eq!(correct_contrast_counted(requirement, black, cream), (cream, 0));
    }
    assert_eq!(correct_text_contrast(black, cream), cream);
    assert_eq!(correct_large_text_contrast(black, cream), cream);
    assert_eq!(correct_text_enhanced_contrast(black, cream), cream);
    assert_eq!(correct_large_text_enhanced_contrast(black, cream), cream);
    assert_eq!(correct_graphics_contrast(black, cream), cream);
}

#[test]
fn correction_ends_within_twenty_steps() {
    let shades = [
        rgb(0, 0, 0),
        rgb(255, 255, 255),
        rgb(128, 128, 128),
        rgb(119, 119, 119),
        rgb(200, 120, 30),
        rgb(20, 30, 40),
        rgb(30, 160, 220),
        rgb(1, 1, 1),
        rgb(254, 254, 254),
    ];
    for background in shades {
        for foreground in shades {
            for requirement in ALL {
                let (corrected, steps) =
                    correct_contrast_counted(requirement, background, foreground);
                assert!(steps <= 20);
                assert_eq!(corrected, correct_contrast(requirement, background, foreground));
                let lightness = corrected.lightness::<FloatingComponent>().0;
                assert!(
                    has_contrast(requirement, corrected, background)
                        || lightness <= 40
                        || lightness >= 65495,
                    "{background:?} {foreground:?} {requirement:?} gave {corrected:?}"
                );
            }
        }
    }
}

#[test]
fn an_unreadable_foreground_is_pushed_away_from_the_background() {
    let black = rgb(0, 0, 0);
    let dim = rgb(40, 10, 10);
    let (corrected, steps) = correct_contrast_counted(Requirement::MinimumText, black, dim);
    assert!(steps > 0);
    assert!(has_min_contrast_text(corrected, black));
    assert!(
        corrected.lightness::<FloatingComponent>().0 > dim.lightness::<FloatingComponent>().0
    );
    // One step less was not enough.
    let before = dim.with_lightness(FloatingComponent(
        dim.lightness::<FloatingComponent>().0 + (steps as u16 - 1) * 3277,
    ));
    assert!(!has_min_contrast_text(before, black));
    assert_eq!(corrected.alpha, dim.alpha);
    let white = rgb(255, 255, 255);
    let pale = rgb(200, 220, 240);
    let (corrected, steps) = correct_contrast_counted(Requirement::EnhancedText, white, pale);
    assert!(steps > 0);
    assert!(has_enhanced_contrast_text(corrected, white));
    assert!(
        corrected.lightness::<FloatingComponent>().0 < pale.lightness::<FloatingComponent>().0
    );
}

#[test]
fn a_correction_that_cannot_succeed_ends_at_the_boundary() {
    // A foreground darker than a dark background is pushed down, where no
    // contrast is to be had.
    let background = rgb(20, 30, 40);
    let foreground = rgb(10, 10, 10);
    let (corrected, steps) =
        correct_contrast_counted(Requirement::EnhancedText, background, foreground);
    assert!(steps >= 1 && steps <= 20);
    assert_eq!(corrected.lightness::<FloatingComponent>().0, 0);
    assert!(!has_enhanced_contrast_text(corrected, background));
}

#[test]
fn room_ends_at_the_boundary() {
    assert!(has_room(0, true));
    assert!(has_room(65534, true));
    assert!(!has_room(65535, true));
    assert!(has_room(65535, false));
    assert!(has_room(1, false));
    assert!(!has_room(0, false));
}
