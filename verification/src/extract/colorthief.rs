//! Extraction by a modified median cut over a histogram of the colours,
//! made by the `color-thief` crate.

use vstd::prelude::*;
use super::{color_from_bytes, color_of_bytes, viewed, ExtractError, Extractor};
use crate::color::Rgba;
use crate::config::ColorthiefConfig;

verus! {

/// The palette that `color-thief` finds in `pixels`, groups of red, green
/// and blue bytes: its colours as red, green and blue, or why it found
/// none.
pub uninterp spec fn thief_palette_of(pixels: Seq<u8>, quality: u8, max_colors: u8) -> Result<
    Seq<(u8, u8, u8)>,
    ExtractError,
>;

/// The most pixels that the backend may sample: it adds up, in 32 bits, a
/// weight of up to 252 for each.
pub const MAX_SAMPLED: usize = 8_521_760;

/// The number of pixels that the backend samples of `bytes` bytes: of the
/// groups of three bytes, one in every `3 * quality`, the first among them.
pub open spec fn sampled_of(bytes: int, quality: int) -> int {
    (bytes / 3 + 3 * quality - 1) / (3 * quality)
}

/// Finds a palette with `color_thief::get_palette`, reading the pixels as
/// red, green and blue. The contract names the result, and says what the
/// crate's source shows of it: that an error is one of the two that the
/// crate has, and that a palette has one colour at least and no more than
/// were asked for. Quality and number of colours are kept to what the crate
/// asserts, a quality from 1 to 10 and two colours or more, and the sampled
/// pixels to a number whose weights the crate can add up.
#[verifier::external_body]
pub(crate) fn thief_palette(pixels: &Vec<u8>, quality: u8, max_colors: u8) -> (found: Result<
    Vec<(u8, u8, u8)>,
    ExtractError,
>)
    requires
        1 <= quality <= 10,
        max_colors >= 2,
        sampled_of(pixels.len() as int, quality as int) <= MAX_SAMPLED,
    ensures
        viewed(found) == thief_palette_of(pixels@, quality, max_colors),
        found matches Err(error) ==> error == ExtractError::InvalidVBox || error
            == ExtractError::VBoxCutFailed,
        found matches Ok(colors) ==> 1 <= colors.len() <= max_colors,
{
    match color_thief::get_palette(pixels, color_thief::ColorFormat::Rgb, quality, max_colors) {
        Ok(colors) => Ok(colors.iter().map(|color| (color.r, color.g, color.b)).collect()),
        Err(color_thief::Error::InvalidVBox) => Err(ExtractError::InvalidVBox),
        Err(color_thief::Error::VBoxCutFailed) => Err(ExtractError::VBoxCutFailed),
    }
}

/// An extractor over the pixels of an image, held as groups of red, green
/// and blue bytes.
#[derive(Debug, Clone)]
pub struct Colorthief {
    pub config: ColorthiefConfig,
    pub bytes: Vec<u8>,
}

/// The opaque colours of red, green and blue triples.
pub open spec fn opaque_colors_of(triples: Seq<(u8, u8, u8)>) -> Seq<Rgba> {
    Seq::new(
        triples.len(),
        |index: int| color_of_bytes(triples[index].0, triples[index].1, triples[index].2, 255),
    )
}

/// What the extractor finds: an error where fewer than two colours are
/// asked for, the quality is out of range or the image has more pixels to
/// sample than the backend can count, else what the backend finds, its
/// colours made opaque.
pub open spec fn prominent_of(config: ColorthiefConfig, bytes: Seq<u8>, count: u8) -> Result<
    Seq<Rgba>,
    ExtractError,
> {
    if count < 2 {
        Err(ExtractError::TooFewColors)
    } else if !(1 <= config.quality <= 10) {
        Err(ExtractError::Quality)
    } else if sampled_of(bytes.len() as int, config.quality as int) > MAX_SAMPLED {
        Err(ExtractError::TooManyPixels)
    } else {
        match thief_palette_of(bytes, config.quality, count) {
            Ok(triples) => Ok(opaque_colors_of(triples)),
            Err(error) => Err(error),
        }
    }
}

/// The number of pixels that the backend samples of `bytes` bytes.
pub fn sampled(bytes: usize, quality: u8) -> (pixels: usize)
    requires
        1 <= quality,
    ensures
        pixels == sampled_of(bytes as int, quality as int),
{
    let stride: usize = 3 * quality as usize;
    (bytes / 3 + stride - 1) / stride
}

/// Makes opaque colours of red, green and blue triples.
pub fn opaque_colors(triples: &Vec<(u8, u8, u8)>) -> (colors: Vec<Rgba>)
    ensures
        colors@ == opaque_colors_of(triples@),
{
    let mut colors: Vec<Rgba> = Vec::new();
    let mut index: usize = 0;
    while index < triples.len()
        invariant
            index <= triples.len(),
            colors.len() == index,
            forall|at: int|
                0 <= at < index ==> #[trigger] colors[at] == color_of_bytes(
                    triples[at].0,
                    triples[at].1,
                    triples[at].2,
                    255,
                ),
        decreases triples.len() - index,
    {
        let triple = triples[index];
        colors.push(color_from_bytes(triple.0, triple.1, triple.2, 255));
        index = index + 1;
    }
    assert(colors@ =~= opaque_colors_of(triples@));
    colors
}

impl Colorthief {
    /// An extractor for decoded pixels.
    pub fn new(config: ColorthiefConfig, bytes: Vec<u8>) -> (extractor: Self)
        ensures
            extractor.config == config,
            extractor.bytes == bytes,
    {
        Self { config, bytes }
    }

    /// Up to `count` colours of the image.
    pub fn colors(&self, count: u8) -> (found: Result<Vec<Rgba>, ExtractError>)
        ensures
            viewed(found) == prominent_of(self.config, self.bytes@, count),
            found matches Ok(colors) ==> 1 <= colors.len() <= count,
    {
        if count < 2 {
            Err(ExtractError::TooFewColors)
        } else if self.config.quality < 1 || self.config.quality > 10 {
            Err(ExtractError::Quality)
        } else if sampled(self.bytes.len(), self.config.quality) > MAX_SAMPLED {
            Err(ExtractError::TooManyPixels)
        } else {
            match thief_palette(&self.bytes, self.config.quality, count) {
                Ok(triples) => Ok(opaque_colors(&triples)),
                Err(error) => Err(error),
            }
        }
    }
}

impl Extractor for Colorthief {
    open spec fn found(&self, count: u8) -> Result<Seq<Rgba>, ExtractError> {
        prominent_of(self.config, self.bytes@, count)
    }

    fn prominent(&self, count: u8) -> (colors: Result<Vec<Rgba>, ExtractError>) {
        self.colors(count)
    }
}

} // verus!
