//! The terminal palette: sixteen main colours, a colour cube of 216 entries
//! and a grayscale ramp of 32, each derived from a fixed target colour and
//! the colours extracted from an image.

use vstd::prelude::*;
use super::blend::{
    bounded, bounded_of, distance_match, distance_match_of, full_blend, full_blend_of, hue_apart_of,
    hue_blend, hue_blend_of, hue_match, hue_match_of, lemma_match_in_one, mix_degrees_of,
    opposite_apart_of, rotated_of,
};
use super::ExtrapolateError;
use crate::color::accessibility::{
    correct_contrast, correction_of, lemma_correction_readable_or_at_boundary, satisfies,
    Requirement,
};
use crate::color::component::FloatingComponent;
use crate::color::extraction::{
    discrete_keys, first_least, keeps, lemma_first_least_unique, lowest_by, filter_by, Channel,
    Rule,
};
use crate::color::{hsl_of, saturation_of, with_hsl_of, with_lightness_of, Rgba};
use crate::config::{AccessibilityConfig, AnsiAreaConfig, AnsiConfig};

verus! {

/// The sixteen main colours, in the order in which a palette lists them.
#[derive(Debug, Clone, Copy, PartialEq, Eq, Structural)]
pub enum MainSlot {
    Black,
    Red,
    Green,
    Blue,
    Cyan,
    Yellow,
    Magenta,
    White,
    BrightBlack,
    BrightRed,
    BrightGreen,
    BrightBlue,
    BrightCyan,
    BrightYellow,
    BrightMagenta,
    BrightWhite,
}

/// A derived terminal palette.
#[derive(Debug, Clone)]
pub struct Palette {
    pub black: Rgba,
    pub red: Rgba,
    pub green: Rgba,
    pub blue: Rgba,
    pub cyan: Rgba,
    pub yellow: Rgba,
    pub magenta: Rgba,
    pub white: Rgba,
    pub bright_black: Rgba,
    pub bright_red: Rgba,
    pub bright_green: Rgba,
    pub bright_blue: Rgba,
    pub bright_cyan: Rgba,
    pub bright_yellow: Rgba,
    pub bright_magenta: Rgba,
    pub bright_white: Rgba,
    pub gradient: Vec<Rgba>,
    pub grayscale: Vec<Rgba>,
}

/// What a palette holds: the main colours in the order of `MainSlot`, the
/// cube and the ramp.
pub struct PaletteModel {
    pub main: Seq<Rgba>,
    pub gradient: Seq<Rgba>,
    pub grayscale: Seq<Rgba>,
}

impl Palette {
    /// The main colour in a slot.
    pub open spec fn entry(self, slot: MainSlot) -> Rgba {
        match slot {
            MainSlot::Black => self.black,
            MainSlot::Red => self.red,
            MainSlot::Green => self.green,
            MainSlot::Blue => self.blue,
            MainSlot::Cyan => self.cyan,
            MainSlot::Yellow => self.yellow,
            MainSlot::Magenta => self.magenta,
            MainSlot::White => self.white,
            MainSlot::BrightBlack => self.bright_black,
            MainSlot::BrightRed => self.bright_red,
            MainSlot::BrightGreen => self.bright_green,
            MainSlot::BrightBlue => self.bright_blue,
            MainSlot::BrightCyan => self.bright_cyan,
            MainSlot::BrightYellow => self.bright_yellow,
            MainSlot::BrightMagenta => self.bright_magenta,
            MainSlot::BrightWhite => self.bright_white,
        }
    }

    /// Reads the main colour in a slot.
    pub fn main(&self, slot: MainSlot) -> (color: Rgba)
        ensures
            color == self.entry(slot),
    {
        match slot {
            MainSlot::Black => self.black,
            MainSlot::Red => self.red,
            MainSlot::Green => self.green,
            MainSlot::Blue => self.blue,
            MainSlot::Cyan => self.cyan,
            MainSlot::Yellow => self.yellow,
            MainSlot::Magenta => self.magenta,
            MainSlot::White => self.white,
            MainSlot::BrightBlack => self.bright_black,
            MainSlot::BrightRed => self.bright_red,
            MainSlot::BrightGreen => self.bright_green,
            MainSlot::BrightBlue => self.bright_blue,
            MainSlot::BrightCyan => self.bright_cyan,
            MainSlot::BrightYellow => self.bright_yellow,
            MainSlot::BrightMagenta => self.bright_magenta,
            MainSlot::BrightWhite => self.bright_white,
        }
    }
}

impl View for Palette {
    type V = PaletteModel;

    open spec fn view(&self) -> PaletteModel {
        PaletteModel {
            main: Seq::new(16, |position: int| self.entry(slot_of(position))),
            gradient: self.gradient@,
            grayscale: self.grayscale@,
        }
    }
}

/// Number of entries of the colour cube.
pub const GRADIENT_SIZE: usize = 216;

/// Number of entries of the grayscale ramp.
pub const GRAYSCALE_SIZE: usize = 32;

/// Number of colours that the derivation asks an extractor for.
pub const PROMINENT_COUNT: u8 = 255;

/// The least saturation, exclusive, of the colours that take part.
pub const SATURATION_FLOOR: u16 = 6554;

/// The fraction `step / steps` of the range, in parts, rounded to the
/// nearest part.
pub open spec fn level_of(step: int, steps: int) -> int {
    (2 * step * 65535 + steps) / (2 * steps)
}

/// The opaque colour of the given red, green and blue parts.
pub open spec fn opaque_of(red: int, green: int, blue: int) -> Rgba {
    Rgba {
        red: FloatingComponent(red as u16),
        green: FloatingComponent(green as u16),
        blue: FloatingComponent(blue as u16),
        alpha: FloatingComponent(65535),
    }
}

/// The slot at a position of the main colours.
pub open spec fn slot_of(position: int) -> MainSlot {
    if position == 0 {
        MainSlot::Black
    } else if position == 1 {
        MainSlot::Red
    } else if position == 2 {
        MainSlot::Green
    } else if position == 3 {
        MainSlot::Blue
    } else if position == 4 {
        MainSlot::Cyan
    } else if position == 5 {
        MainSlot::Yellow
    } else if position == 6 {
        MainSlot::Magenta
    } else if position == 7 {
        MainSlot::White
    } else if position == 8 {
        MainSlot::BrightBlack
    } else if position == 9 {
        MainSlot::BrightRed
    } else if position == 10 {
        MainSlot::BrightGreen
    } else if position == 11 {
        MainSlot::BrightBlue
    } else if position == 12 {
        MainSlot::BrightCyan
    } else if position == 13 {
        MainSlot::BrightYellow
    } else if position == 14 {
        MainSlot::BrightMagenta
    } else {
        MainSlot::BrightWhite
    }
}

/// Whether a slot holds the bright variant of a colour.
pub open spec fn is_bright(slot: MainSlot) -> bool {
    match slot {
        MainSlot::BrightBlack
        | MainSlot::BrightRed
        | MainSlot::BrightGreen
        | MainSlot::BrightBlue
        | MainSlot::BrightCyan
        | MainSlot::BrightYellow
        | MainSlot::BrightMagenta
        | MainSlot::BrightWhite => true,
        _ => false,
    }
}

/// The fixed colour that a main slot is derived from: half intensity for
/// the normal colours, full intensity for the bright ones, and grays of
/// one and two thirds for bright black and white.
pub open spec fn main_target_of(slot: MainSlot) -> Rgba {
    let none = 0;
    let half = level_of(1, 2);
    let full = level_of(1, 1);
    match slot {
        MainSlot::Black => opaque_of(none, none, none),
        MainSlot::Red => opaque_of(half, none, none),
        MainSlot::Green => opaque_of(none, half, none),
        MainSlot::Blue => opaque_of(none, none, half),
        MainSlot::Cyan => opaque_of(none, half, half),
        MainSlot::Yellow => opaque_of(half, half, none),
        MainSlot::Magenta => opaque_of(half, none, half),
        MainSlot::White => opaque_of(level_of(2, 3), level_of(2, 3), level_of(2, 3)),
        MainSlot::BrightBlack => opaque_of(level_of(1, 3), level_of(1, 3), level_of(1, 3)),
        MainSlot::BrightRed => opaque_of(full, none, none),
        MainSlot::BrightGreen => opaque_of(none, full, none),
        MainSlot::BrightBlue => opaque_of(none, none, full),
        MainSlot::BrightCyan => opaque_of(none, full, full),
        MainSlot::BrightYellow => opaque_of(full, full, none),
        MainSlot::BrightMagenta => opaque_of(full, none, full),
        MainSlot::BrightWhite => opaque_of(full, full, full),
    }
}

/// The fixed colour of an entry of the cube: red, green and blue each in
/// six even levels, blue changing fastest.
pub open spec fn gradient_target_of(index: int) -> Rgba {
    opaque_of(level_of(index / 36, 6), level_of((index / 6) % 6, 6), level_of(index % 6, 6))
}

/// The fixed colour of an entry of the ramp: 32 even levels of gray.
pub open spec fn grayscale_target_of(index: int) -> Rgba {
    opaque_of(level_of(index, 32), level_of(index, 32), level_of(index, 32))
}

/// The contrast asked of text.
pub open spec fn text_requirement_of(accessibility: AccessibilityConfig) -> Requirement {
    match accessibility {
        AccessibilityConfig::Normal => Requirement::MinimumText,
        AccessibilityConfig::HighContrast => Requirement::EnhancedText,
    }
}

/// The contrast asked of everything but text.
pub open spec fn graphics_requirement_of(accessibility: AccessibilityConfig) -> Requirement {
    match accessibility {
        AccessibilityConfig::Normal => Requirement::MinimumGraphics,
        AccessibilityConfig::HighContrast => Requirement::EnhancedLargeText,
    }
}

/// The contrast asked of a main slot: that of text for the two whites, that
/// of graphics for the others.
pub open spec fn slot_requirement_of(accessibility: AccessibilityConfig, slot: MainSlot) -> Requirement {
    match slot {
        MainSlot::White | MainSlot::BrightWhite => text_requirement_of(accessibility),
        _ => graphics_requirement_of(accessibility),
    }
}

/// The background that every other entry is made readable on: the first
/// darkest colour of the palette.
pub open spec fn background_of(palette: Seq<Rgba>) -> Rgba {
    palette[first_least(discrete_keys(Channel::Lightness, palette))]
}

/// A main colour before its contrast is corrected: the target matched by
/// hue, blended by hue and held inside the ranges of its variant.
pub open spec fn main_blend_of(config: AnsiAreaConfig, slot: MainSlot, palette: Seq<Rgba>) -> Rgba {
    let target = main_target_of(slot);
    let blend = hue_blend_of(
        target,
        hue_match_of(target, config.hue_tolerance as int, palette),
        config.mix_factor as int,
    );
    if is_bright(slot) {
        bounded_of(blend, config.bright_saturation_range, config.bright_lightness_range)
    } else {
        bounded_of(blend, config.saturation_range, config.lightness_range)
    }
}

/// An entry of the cube or the ramp before its contrast is corrected: the
/// target matched by distance and blended in full.
pub open spec fn area_blend_of(config: AnsiAreaConfig, target: Rgba, palette: Seq<Rgba>) -> Rgba {
    full_blend_of(target, distance_match_of(target, palette), config.mix_factor as int)
}

/// The main colour of a slot: the background for black, and for every other
/// slot its blend, corrected for the background.
#[verifier::opaque]
pub open spec fn main_entry_of(
    config: AnsiConfig,
    accessibility: AccessibilityConfig,
    slot: MainSlot,
    palette: Seq<Rgba>,
) -> Rgba {
    if slot == MainSlot::Black {
        background_of(palette)
    } else {
        correction_of(
            slot_requirement_of(accessibility, slot),
            background_of(palette),
            main_blend_of(config.main, slot, palette),
        )
    }
}

/// An entry of the cube: its blend, corrected for the background.
#[verifier::opaque]
pub open spec fn gradient_entry_of(
    config: AnsiConfig,
    accessibility: AccessibilityConfig,
    index: int,
    palette: Seq<Rgba>,
) -> Rgba {
    correction_of(
        graphics_requirement_of(accessibility),
        background_of(palette),
        area_blend_of(config.gradient, gradient_target_of(index), palette),
    )
}

/// An entry of the ramp: its blend, corrected for the background.
#[verifier::opaque]
pub open spec fn grayscale_entry_of(
    config: AnsiConfig,
    accessibility: AccessibilityConfig,
    index: int,
    palette: Seq<Rgba>,
) -> Rgba {
    correction_of(
        graphics_requirement_of(accessibility),
        background_of(palette),
        area_blend_of(config.grayscale, grayscale_target_of(index), palette),
    )
}

/// The palette derived from the colours `palette`: every entry in the
/// order of its targets, whatever the order of `palette`.
pub open spec fn palette_of(
    config: AnsiConfig,
    accessibility: AccessibilityConfig,
    palette: Seq<Rgba>,
) -> PaletteModel {
    PaletteModel {
        main: Seq::new(
            16,
            |position: int| main_entry_of(config, accessibility, slot_of(position), palette),
        ),
        gradient: Seq::new(
            216,
            |index: int| gradient_entry_of(config, accessibility, index, palette),
        ),
        grayscale: Seq::new(
            32,
            |index: int| grayscale_entry_of(config, accessibility, index, palette),
        ),
    }
}

/// The colours of `prominent` that take part in a derivation: those whose
/// saturation lies above a tenth. Colours nearer to gray are noise.
pub open spec fn participants_of(prominent: Seq<Rgba>) -> Seq<Rgba> {
    prominent.filter(
        |color: Rgba| keeps(Rule::Above { channel: Channel::Saturation, min: 6554 }, color),
    )
}

/// What a derivation gives for a configuration and a palette: the fault of
/// the configuration if it has one, else an error for an empty palette,
/// else the derived palette.
pub open spec fn derivation_of(
    config: AnsiConfig,
    accessibility: AccessibilityConfig,
    palette: Seq<Rgba>,
) -> Result<PaletteModel, ExtrapolateError> {
    match config.fault() {
        Some(error) => Err(ExtrapolateError::Config(error)),
        None => if palette.len() == 0 {
            Err(ExtrapolateError::EmptyPalette)
        } else {
            Ok(palette_of(config, accessibility, palette))
        },
    }
}

/// What a derivation ended in, its palette taken as what it holds.
pub open spec fn model_of(derived: Result<Palette, ExtrapolateError>) -> Result<
    PaletteModel,
    ExtrapolateError,
> {
    match derived {
        Ok(colors) => Ok(colors@),
        Err(error) => Err(error),
    }
}

/// Two derivations from the same configuration and the same colours hold
/// the same palette, entry by entry.
pub proof fn lemma_same_input_same_palette(
    config: AnsiConfig,
    accessibility: AccessibilityConfig,
    palette: Seq<Rgba>,
    first: Result<Palette, ExtrapolateError>,
    second: Result<Palette, ExtrapolateError>,
)
    requires
        model_of(first) == derivation_of(config, accessibility, palette),
        model_of(second) == derivation_of(config, accessibility, palette),
    ensures
        first is Ok <==> second is Ok,
        first is Ok ==> first->Ok_0@ == second->Ok_0@,
        first is Ok ==> (forall|slot: MainSlot| #[trigger]
            first->Ok_0.entry(slot) == second->Ok_0.entry(slot)),
        first is Ok ==> first->Ok_0.gradient@ == second->Ok_0.gradient@ && first->Ok_0.grayscale@
            == second->Ok_0.grayscale@,
        first is Err ==> first->Err_0 == second->Err_0,
{
    if first is Ok {
        let one = first->Ok_0;
        let other = second->Ok_0;
        assert forall|slot: MainSlot| #[trigger] one.entry(slot) == other.entry(slot) by {
            let position = position_of(slot);
            assert(slot_of(position) == slot);
            assert(one@.main[position] == one.entry(slot));
            assert(other@.main[position] == other.entry(slot));
        }
    }
}

/// The position of a slot among the main colours.
pub open spec fn position_of(slot: MainSlot) -> int {
    match slot {
        MainSlot::Black => 0,
        MainSlot::Red => 1,
        MainSlot::Green => 2,
        MainSlot::Blue => 3,
        MainSlot::Cyan => 4,
        MainSlot::Yellow => 5,
        MainSlot::Magenta => 6,
        MainSlot::White => 7,
        MainSlot::BrightBlack => 8,
        MainSlot::BrightRed => 9,
        MainSlot::BrightGreen => 10,
        MainSlot::BrightBlue => 11,
        MainSlot::BrightCyan => 12,
        MainSlot::BrightYellow => 13,
        MainSlot::BrightMagenta => 14,
        MainSlot::BrightWhite => 15,
    }
}

/// A derived palette has its sizes fixed, its first main colour is the
/// background, and every other entry meets the contrast asked of it on the
/// background or has its lightness at the bottom or the top of the range.
pub proof fn lemma_entries_readable_or_at_boundary(
    config: AnsiConfig,
    accessibility: AccessibilityConfig,
    palette: Seq<Rgba>,
)
    ensures
        ({
            let derived = palette_of(config, accessibility, palette);
            let background = background_of(palette);
            let graphics = graphics_requirement_of(accessibility);
            &&& derived.main.len() == 16
            &&& derived.gradient.len() == 216
            &&& derived.grayscale.len() == 32
            &&& derived.main[0] == background
            &&& forall|position: int|
                1 <= position < 16 ==> {
                    let entry = #[trigger] derived.main[position];
                    let blend = main_blend_of(config.main, slot_of(position), palette);
                    satisfies(
                        slot_requirement_of(accessibility, slot_of(position)),
                        entry,
                        background,
                    ) || entry == with_lightness_of(blend, 0) || entry == with_lightness_of(
                        blend,
                        65535,
                    )
                }
            &&& forall|index: int|
                0 <= index < 216 ==> {
                    let entry = #[trigger] derived.gradient[index];
                    let blend = area_blend_of(config.gradient, gradient_target_of(index), palette);
                    satisfies(graphics, entry, background) || entry == with_lightness_of(blend, 0)
                        || entry == with_lightness_of(blend, 65535)
                }
            &&& forall|index: int|
                0 <= index < 32 ==> {
                    let entry = #[trigger] derived.grayscale[index];
                    let blend = area_blend_of(config.grayscale, grayscale_target_of(index), palette);
                    satisfies(graphics, entry, background) || entry == with_lightness_of(blend, 0)
                        || entry == with_lightness_of(blend, 65535)
                }
        }),
{
    reveal(main_entry_of);
    reveal(gradient_entry_of);
    reveal(grayscale_entry_of);
    let derived = palette_of(config, accessibility, palette);
    let background = background_of(palette);
    let graphics = graphics_requirement_of(accessibility);
    assert forall|position: int| 1 <= position < 16 implies {
        let entry = #[trigger] derived.main[position];
        let blend = main_blend_of(config.main, slot_of(position), palette);
        satisfies(slot_requirement_of(accessibility, slot_of(position)), entry, background)
            || entry == with_lightness_of(blend, 0) || entry == with_lightness_of(blend, 65535)
    } by {
        lemma_correction_readable_or_at_boundary(
            slot_requirement_of(accessibility, slot_of(position)),
            background,
            main_blend_of(config.main, slot_of(position), palette),
        );
    }
    assert forall|index: int| 0 <= index < 216 implies {
        let entry = #[trigger] derived.gradient[index];
        let blend = area_blend_of(config.gradient, gradient_target_of(index), palette);
        satisfies(graphics, entry, background) || entry == with_lightness_of(blend, 0) || entry
            == with_lightness_of(blend, 65535)
    } by {
        lemma_correction_readable_or_at_boundary(
            graphics,
            background,
            area_blend_of(config.gradient, gradient_target_of(index), palette),
        );
    }
    assert forall|index: int| 0 <= index < 32 implies {
        let entry = #[trigger] derived.grayscale[index];
        let blend = area_blend_of(config.grayscale, grayscale_target_of(index), palette);
        satisfies(graphics, entry, background) || entry == with_lightness_of(blend, 0) || entry
            == with_lightness_of(blend, 65535)
    } by {
        lemma_correction_readable_or_at_boundary(
            graphics,
            background,
            area_blend_of(config.grayscale, grayscale_target_of(index), palette),
        );
    }
}

/// From one colour that is saturated enough to take part, that lies
/// further than the tolerance from the hue of a target and nearer to the
/// opposite hue, the main colour of the target's slot is derived by the
/// complementary hue: the colour is the background, and the entry is the
/// target with its hue moved by the mix factor towards the hue of the
/// colour turned to the opposite side, held inside its ranges and
/// corrected for the background.
pub proof fn lemma_complementary_fallback(
    config: AnsiConfig,
    accessibility: AccessibilityConfig,
    slot: MainSlot,
    color: Rgba,
)
    requires
        slot != MainSlot::Black,
        saturation_of(color) > 6554,
        hue_apart_of(color, main_target_of(slot)) > config.main.hue_tolerance,
        opposite_apart_of(color, main_target_of(slot)) < hue_apart_of(color, main_target_of(slot)),
    ensures
        participants_of(seq![color]) == seq![color],
        background_of(seq![color]) == color,
        hue_match_of(main_target_of(slot), config.main.hue_tolerance as int, seq![color])
            == rotated_of(color),
        ({
            let target = main_target_of(slot);
            let own = hsl_of(target);
            let blend = with_hsl_of(
                target,
                mix_degrees_of(own.0, hsl_of(rotated_of(color)).0, config.main.mix_factor as int),
                own.1,
                own.2,
            );
            let held = if is_bright(slot) {
                bounded_of(blend, config.main.bright_saturation_range, config.main.bright_lightness_range)
            } else {
                bounded_of(blend, config.main.saturation_range, config.main.lightness_range)
            };
            &&& main_blend_of(config.main, slot, seq![color]) == held
            &&& palette_of(config, accessibility, participants_of(seq![color])).main[position_of(
                slot,
            )] == correction_of(slot_requirement_of(accessibility, slot), color, held)
        }),
{
    let palette = seq![color];
    assert(palette.len() == 1);
    assert(palette[0] == color);
    assert(participants_of(palette) =~= palette) by {
        reveal(Seq::filter);
        assert(palette.drop_last() =~= Seq::<Rgba>::empty());
        assert(palette.last() == color);
    }
    lemma_first_least_unique(discrete_keys(Channel::Lightness, palette), 0);
    lemma_match_in_one(main_target_of(slot), config.main.hue_tolerance as int, color);
    reveal(main_entry_of);
    assert(slot_of(position_of(slot)) == slot);
}

/// In the cube and the ramp, a mix factor of nothing gives the target
/// itself and a mix factor of the whole gives the colour matched to it; in
/// the main area, a mix factor of nothing gives the target where no range
/// bounds it.
pub proof fn lemma_mixing_boundary(config: AnsiAreaConfig, slot: MainSlot, target: Rgba, palette: Seq<Rgba>)
    ensures
        config.mix_factor == 0 ==> area_blend_of(config, target, palette) == target,
        config.mix_factor == 65535 ==> area_blend_of(config, target, palette) == distance_match_of(
            target,
            palette,
        ),
        config.mix_factor == 0 && config.saturation_range is None && config.lightness_range is None
            && config.bright_saturation_range is None && config.bright_lightness_range is None
            ==> main_blend_of(config, slot, palette) == main_target_of(slot),
{
    let matched = distance_match_of(target, palette);
    super::blend::lemma_blend_by_nothing(target, matched);
    super::blend::lemma_blend_by_all(target, matched);
    let own = main_target_of(slot);
    super::blend::lemma_blend_by_nothing(own, hue_match_of(own, config.hue_tolerance as int, palette));
}

/// The fraction `step / steps` of the range.
pub fn level(step: u16, steps: u16) -> (parts: u16)
    requires
        0 < steps,
        step <= steps,
    ensures
        parts == level_of(step as int, steps as int),
{
    let above: u64 = 2 * step as u64 * 65535 + steps as u64;
    let below: u64 = 2 * steps as u64;
    assert(above < below * 65536) by (nonlinear_arith)
        requires
            above == 2 * step * 65535 + steps,
            below == 2 * steps,
            0 < steps,
            0 <= step <= steps,
    ;
    assert(above / below < 65536) by (nonlinear_arith)
        requires
            above < below * 65536,
            below > 0,
    ;
    (above / below) as u16
}

/// The opaque colour of the given red, green and blue parts.
pub fn opaque(red: u16, green: u16, blue: u16) -> (color: Rgba)
    ensures
        color == opaque_of(red as int, green as int, blue as int),
{
    Rgba {
        red: FloatingComponent(red),
        green: FloatingComponent(green),
        blue: FloatingComponent(blue),
        alpha: FloatingComponent(65535),
    }
}

impl MainSlot {
    /// Whether this slot holds the bright variant of a colour.
    pub fn bright(self) -> (bright: bool)
        ensures
            bright == is_bright(self),
    {
        match self {
            MainSlot::BrightBlack
            | MainSlot::BrightRed
            | MainSlot::BrightGreen
            | MainSlot::BrightBlue
            | MainSlot::BrightCyan
            | MainSlot::BrightYellow
            | MainSlot::BrightMagenta
            | MainSlot::BrightWhite => true,
            _ => false,
        }
    }

    /// The fixed colour that this slot is derived from.
    pub fn target(self) -> (target: Rgba)
        ensures
            target == main_target_of(self),
    {
        let none: u16 = 0;
        let half: u16 = level(1, 2);
        let full: u16 = level(1, 1);
        match self {
            MainSlot::Black => opaque(none, none, none),
            MainSlot::Red => opaque(half, none, none),
            MainSlot::Green => opaque(none, half, none),
            MainSlot::Blue => opaque(none, none, half),
            MainSlot::Cyan => opaque(none, half, half),
            MainSlot::Yellow => opaque(half, half, none),
            MainSlot::Magenta => opaque(half, none, half),
            MainSlot::White => opaque(level(2, 3), level(2, 3), level(2, 3)),
            MainSlot::BrightBlack => opaque(level(1, 3), level(1, 3), level(1, 3)),
            MainSlot::BrightRed => opaque(full, none, none),
            MainSlot::BrightGreen => opaque(none, full, none),
            MainSlot::BrightBlue => opaque(none, none, full),
            MainSlot::BrightCyan => opaque(none, full, full),
            MainSlot::BrightYellow => opaque(full, full, none),
            MainSlot::BrightMagenta => opaque(full, none, full),
            MainSlot::BrightWhite => opaque(full, full, full),
        }
    }

    /// The contrast asked of this slot.
    pub fn requirement(self, accessibility: AccessibilityConfig) -> (requirement: Requirement)
        ensures
            requirement == slot_requirement_of(accessibility, self),
    {
        match self {
            MainSlot::White | MainSlot::BrightWhite => text_requirement(accessibility),
            _ => graphics_requirement(accessibility),
        }
    }
}

/// The contrast asked of text.
pub fn text_requirement(accessibility: AccessibilityConfig) -> (requirement: Requirement)
    ensures
        requirement == text_requirement_of(accessibility),
{
    match accessibility {
        AccessibilityConfig::Normal => Requirement::MinimumText,
        AccessibilityConfig::HighContrast => Requirement::EnhancedText,
    }
}

/// The contrast asked of everything but text.
pub fn graphics_requirement(accessibility: AccessibilityConfig) -> (requirement: Requirement)
    ensures
        requirement == graphics_requirement_of(accessibility),
{
    match accessibility {
        AccessibilityConfig::Normal => Requirement::MinimumGraphics,
        AccessibilityConfig::HighContrast => Requirement::EnhancedLargeText,
    }
}

/// The fixed colour of an entry of the cube.
pub fn gradient_target(index: usize) -> (target: Rgba)
    requires
        index < 216,
    ensures
        target == gradient_target_of(index as int),
{
    opaque(
        level((index / 36) as u16, 6),
        level(((index / 6) % 6) as u16, 6),
        level((index % 6) as u16, 6),
    )
}

/// The fixed colour of an entry of the ramp.
pub fn grayscale_target(index: usize) -> (target: Rgba)
    requires
        index < 32,
    ensures
        target == grayscale_target_of(index as int),
{
    let gray: u16 = level(index as u16, 32);
    opaque(gray, gray, gray)
}

/// Derives a main colour, before its contrast is corrected.
pub fn main_blend(config: &AnsiAreaConfig, slot: MainSlot, palette: &Vec<Rgba>) -> (blend: Rgba)
    requires
        config.valid(),
        palette.len() > 0,
    ensures
        blend == main_blend_of(*config, slot, palette@),
{
    let target: Rgba = slot.target();
    let matched: Rgba = hue_match(target, config.hue_tolerance as u16, palette);
    let blend: Rgba = hue_blend(target, matched, config.mix_factor as u16);
    if slot.bright() {
        bounded(blend, config.bright_saturation_range, config.bright_lightness_range)
    } else {
        bounded(blend, config.saturation_range, config.lightness_range)
    }
}

/// Derives an entry of the cube or the ramp, before its contrast is
/// corrected.
pub fn area_blend(config: &AnsiAreaConfig, target: Rgba, palette: &Vec<Rgba>) -> (blend: Rgba)
    requires
        config.valid(),
        palette.len() > 0,
    ensures
        blend == area_blend_of(*config, target, palette@),
{
    full_blend(target, distance_match(target, palette), config.mix_factor as u16)
}

/// Derives the main colour of a slot on the background `background`.
fn main_entry(
    config: &AnsiConfig,
    accessibility: AccessibilityConfig,
    slot: MainSlot,
    palette: &Vec<Rgba>,
    background: Rgba,
) -> (entry: Rgba)
    requires
        config.valid(),
        palette.len() > 0,
        background == background_of(palette@),
        slot != MainSlot::Black,
    ensures
        entry == main_entry_of(*config, accessibility, slot, palette@),
{
    reveal(main_entry_of);
    correct_contrast(
        slot.requirement(accessibility),
        background,
        main_blend(&config.main, slot, palette),
    )
}

/// Derives the entries of the cube on the background `background`.
fn gradient_entries(
    config: &AnsiConfig,
    accessibility: AccessibilityConfig,
    palette: &Vec<Rgba>,
    background: Rgba,
) -> (entries: Vec<Rgba>)
    requires
        config.valid(),
        palette.len() > 0,
        background == background_of(palette@),
    ensures
        entries@ == palette_of(*config, accessibility, palette@).gradient,
{
    let graphics: Requirement = graphics_requirement(accessibility);
    let mut entries: Vec<Rgba> = Vec::new();
    let mut index: usize = 0;
    while index < GRADIENT_SIZE
        invariant
            config.valid(),
            palette.len() > 0,
            background == background_of(palette@),
            graphics == graphics_requirement_of(accessibility),
            index <= 216,
            entries.len() == index,
            forall|at: int|
                0 <= at < index ==> #[trigger] entries[at] == gradient_entry_of(
                    *config,
                    accessibility,
                    at,
                    palette@,
                ),
        decreases 216 - index,
    {
        reveal(gradient_entry_of);
        let blend: Rgba = area_blend(&config.gradient, gradient_target(index), palette);
        entries.push(correct_contrast(graphics, background, blend));
        index = index + 1;
    }
    assert(entries@ =~= palette_of(*config, accessibility, palette@).gradient);
    entries
}

/// Derives the entries of the ramp on the background `background`.
fn grayscale_entries(
    config: &AnsiConfig,
    accessibility: AccessibilityConfig,
    palette: &Vec<Rgba>,
    background: Rgba,
) -> (entries: Vec<Rgba>)
    requires
        config.valid(),
        palette.len() > 0,
        background == background_of(palette@),
    ensures
        entries@ == palette_of(*config, accessibility, palette@).grayscale,
{
    let graphics: Requirement = graphics_requirement(accessibility);
    let mut entries: Vec<Rgba> = Vec::new();
    let mut index: usize = 0;
    while index < GRAYSCALE_SIZE
        invariant
            config.valid(),
            palette.len() > 0,
            background == background_of(palette@),
            graphics == graphics_requirement_of(accessibility),
            index <= 32,
            entries.len() == index,
            forall|at: int|
                0 <= at < index ==> #[trigger] entries[at] == grayscale_entry_of(
                    *config,
                    accessibility,
                    at,
                    palette@,
                ),
        decreases 32 - index,
    {
        reveal(grayscale_entry_of);
        let blend: Rgba = area_blend(&config.grayscale, grayscale_target(index), palette);
        entries.push(correct_contrast(graphics, background, blend));
        index = index + 1;
    }
    assert(entries@ =~= palette_of(*config, accessibility, palette@).grayscale);
    entries
}

/// Derives the terminal palette from the colours `palette`.
///
/// A configuration with a fault is refused with that fault, and an empty
/// palette with `EmptyPalette`; otherwise every entry is derived from its
/// target, in the order of the targets. The result depends on nothing but
/// the arguments.
pub fn palette_from(
    config: &AnsiConfig,
    accessibility: AccessibilityConfig,
    palette: &Vec<Rgba>,
) -> (derived: Result<Palette, ExtrapolateError>)
    ensures
        model_of(derived) == derivation_of(*config, accessibility, palette@),
{
    match config.validate() {
        Err(error) => {
            return Err(ExtrapolateError::Config(error));
        },
        Ok(_) => {},
    }
    let background: Rgba = match lowest_by(Channel::Lightness, palette) {
        None => {
            return Err(ExtrapolateError::EmptyPalette);
        },
        Some(darkest) => {
            proof {
                lemma_first_least_unique(
                    discrete_keys(Channel::Lightness, palette@),
                    darkest as int,
                );
            }
            palette[darkest]
        },
    };
    let gradient: Vec<Rgba> = gradient_entries(config, accessibility, palette, background);
    let grayscale: Vec<Rgba> = grayscale_entries(config, accessibility, palette, background);
    let colors = Palette {
        black: background,
        red: main_entry(config, accessibility, MainSlot::Red, palette, background),
        green: main_entry(config, accessibility, MainSlot::Green, palette, background),
        blue: main_entry(config, accessibility, MainSlot::Blue, palette, background),
        cyan: main_entry(config, accessibility, MainSlot::Cyan, palette, background),
        yellow: main_entry(config, accessibility, MainSlot::Yellow, palette, background),
        magenta: main_entry(config, accessibility, MainSlot::Magenta, palette, background),
        white: main_entry(config, accessibility, MainSlot::White, palette, background),
        bright_black: main_entry(config, accessibility, MainSlot::BrightBlack, palette, background),
        bright_red: main_entry(config, accessibility, MainSlot::BrightRed, palette, background),
        bright_green: main_entry(config, accessibility, MainSlot::BrightGreen, palette, background),
        bright_blue: main_entry(config, accessibility, MainSlot::BrightBlue, palette, background),
        bright_cyan: main_entry(config, accessibility, MainSlot::BrightCyan, palette, background),
        bright_yellow: main_entry(
            config,
            accessibility,
            MainSlot::BrightYellow,
            palette,
            background,
        ),
        bright_magenta: main_entry(
            config,
            accessibility,
            MainSlot::BrightMagenta,
            palette,
            background,
        ),
        bright_white: main_entry(config, accessibility, MainSlot::BrightWhite, palette, background),
        gradient,
        grayscale,
    };
    proof {
        assert(main_entry_of(*config, accessibility, MainSlot::Black, palette@) == background) by {
            reveal(main_entry_of);
        }
        assert forall|slot: MainSlot| #[trigger]
            colors.entry(slot) == main_entry_of(*config, accessibility, slot, palette@) by {}
        assert(colors@.main =~= palette_of(*config, accessibility, palette@).main);
    }
    Ok(colors)
}

/// Derives terminal palettes from what an extractor found in an image.
#[derive(Debug, Clone, Copy)]
pub struct Extrapolator {
    pub config: AnsiConfig,
    pub accessibility: AccessibilityConfig,
}

impl Extrapolator {
    pub fn new(config: AnsiConfig, accessibility: AccessibilityConfig) -> (extrapolator: Self)
        ensures
            extrapolator.config == config,
            extrapolator.accessibility == accessibility,
    {
        Self { config, accessibility }
    }

    /// Derives the palette from the `PROMINENT_COUNT` most prominent
    /// colours of an image. Only the colours whose saturation lies above a
    /// tenth take part; where none does, the derivation fails as for an
    /// empty palette.
    pub fn extrapolate(&self, prominent: &Vec<Rgba>) -> (derived: Result<Palette, ExtrapolateError>)
        ensures
            model_of(derived) == derivation_of(
                self.config,
                self.accessibility,
                participants_of(prominent@),
            ),
    {
        let participants: Vec<Rgba> = filter_by(
            Rule::Above { channel: Channel::Saturation, min: SATURATION_FLOOR },
            prominent,
        );
        palette_from(&self.config, self.accessibility, &participants)
    }

    /// Derives the palette as `extrapolate` does, but gives `fallback`
    /// where no colour takes part. A faulty configuration is still an
    /// error.
    pub fn extrapolate_or(&self, prominent: &Vec<Rgba>, fallback: Palette) -> (derived: Result<
        Palette,
        ExtrapolateError,
    >)
        ensures
            model_of(derived) == (match derivation_of(
                self.config,
                self.accessibility,
                participants_of(prominent@),
            ) {
                Err(ExtrapolateError::EmptyPalette) => Ok(fallback@),
                other => other,
            }),
    {
        match self.extrapolate(prominent) {
            Err(ExtrapolateError::EmptyPalette) => Ok(fallback),
            other => other,
        }
    }
}

} // verus!
