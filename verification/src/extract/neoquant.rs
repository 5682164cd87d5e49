//! Extraction by a self-organising neural network, made by the
//! `color_quant` crate.

use vstd::prelude::*;
use super::{colors_from_bytes, colors_of_bytes, viewed, ExtractError, Extractor};
use crate::color::Rgba;
use crate::config::NeoquantConfig;

verus! {

/// The colour map that `color_quant` trains on `pixels`: `colors` groups of
/// red, green, blue and alpha bytes.
pub uninterp spec fn color_map_of(sample_faction: i32, colors: usize, pixels: Seq<u8>) -> Seq<u8>;

/// Trains a network with `color_quant::NeuQuant::new` and reads its colour
/// map with `color_quant::NeuQuant::color_map_rgba`. Of the map the
/// contract states its length, four bytes for each colour asked for, and
/// otherwise only names it. The sample faction is kept to the range that
/// the crate documents, and at least one colour is asked for.
#[verifier::external_body]
pub(crate) fn train_color_map(sample_faction: i32, colors: usize, pixels: &Vec<u8>) -> (map: Vec<u8>)
    requires
        1 <= sample_faction <= 30,
        1 <= colors <= 256,
    ensures
        map@ == color_map_of(sample_faction, colors, pixels@),
        map.len() == 4 * colors,
{
    color_quant::NeuQuant::new(sample_faction, colors, pixels).color_map_rgba()
}

/// An extractor that quantises the pixels of an image, held as groups of
/// red, green, blue and alpha bytes.
#[derive(Debug, Clone)]
pub struct Neoquant {
    pub config: NeoquantConfig,
    pub pixels: Vec<u8>,
}

/// What the extractor finds: an error where no colour is asked for or the
/// sample faction is out of range, else the colours of the trained map.
pub open spec fn prominent_of(config: NeoquantConfig, pixels: Seq<u8>, count: u8) -> Result<
    Seq<Rgba>,
    ExtractError,
> {
    if count == 0 {
        Err(ExtractError::NoColors)
    } else if !(1 <= config.sample_faction <= 30) {
        Err(ExtractError::SampleFaction)
    } else {
        Ok(colors_of_bytes(color_map_of(config.sample_faction, count as usize, pixels)))
    }
}

impl Neoquant {
    /// An extractor for decoded pixels.
    pub fn new(config: NeoquantConfig, pixels: Vec<u8>) -> (extractor: Self)
        ensures
            extractor.config == config,
            extractor.pixels == pixels,
    {
        Self { config, pixels }
    }

    /// The `count` colours of the map trained on the pixels.
    pub fn colors(&self, count: u8) -> (found: Result<Vec<Rgba>, ExtractError>)
        ensures
            viewed(found) == prominent_of(self.config, self.pixels@, count),
            found matches Ok(colors) ==> colors.len() == count,
    {
        if count == 0 {
            Err(ExtractError::NoColors)
        } else if self.config.sample_faction < 1 || self.config.sample_faction > 30 {
            Err(ExtractError::SampleFaction)
        } else {
            let map: Vec<u8> = train_color_map(
                self.config.sample_faction,
                count as usize,
                &self.pixels,
            );
            Ok(colors_from_bytes(&map))
        }
    }
}

impl Extractor for Neoquant {
    open spec fn found(&self, count: u8) -> Result<Seq<Rgba>, ExtractError> {
        prominent_of(self.config, self.pixels@, count)
    }

    fn prominent(&self, count: u8) -> (colors: Result<Vec<Rgba>, ExtractError>) {
        self.colors(count)
    }
}

} // verus!
