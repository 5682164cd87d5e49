//! Extraction by median cut, made by the `iris-lib` crate.

use vstd::prelude::*;
use super::{
    color_from_bytes, color_of_bytes, cut_iterations, root_ceiling_of, viewed, ExtractError,
    Extractor,
};
use crate::color::Rgba;
use crate::config::MedianCutConfig;

verus! {

/// The palette that `iris-lib` cuts out of `pixels` in `iterations` rounds
/// of halving, as red, green, blue and alpha; `None` for no pixels.
pub uninterp spec fn median_cut_of(pixels: Seq<(u8, u8, u8, u8)>, iterations: u8) -> Option<
    Seq<(u8, u8, u8, u8)>,
>;

/// What was found, its vector taken as a sequence.
pub open spec fn quadruples_of(found: Option<Vec<(u8, u8, u8, u8)>>) -> Option<Seq<(u8, u8, u8, u8)>> {
    match found {
        Some(colors) => Some(colors@),
        None => None,
    }
}

/// Fills a bucket with `iris_lib::color_bucket::ColorBucket::from_pixels`
/// and cuts it with `ColorBucket::make_palette`. The contract names the
/// result and says what the crate's source shows of it: that there is none
/// for no pixels, and that a palette has one colour at least and no more
/// than there are pixels, each the mean of a bucket of its own.
#[verifier::external_body]
pub(crate) fn median_cut(pixels: &Vec<(u8, u8, u8, u8)>, iterations: u8) -> (found: Option<
    Vec<(u8, u8, u8, u8)>,
>)
    ensures
        found is None <==> pixels.len() == 0,
        quadruples_of(found) == median_cut_of(pixels@, iterations),
        found matches Some(colors) ==> 1 <= colors.len() <= pixels.len(),
{
    let colors = pixels.iter().map(
        |pixel| iris_lib::color::Color { r: pixel.0, g: pixel.1, b: pixel.2, a: pixel.3 },
    ).collect();
    let mut bucket = iris_lib::color_bucket::ColorBucket::from_pixels(colors)?;
    let palette = bucket.make_palette(iterations);
    Some(palette.iter().map(|color| (color.r, color.g, color.b, color.a)).collect())
}

/// An extractor over the pixels of an image, held as red, green, blue and
/// alpha.
#[derive(Debug, Clone)]
pub struct MedianCut {
    pub config: MedianCutConfig,
    pub pixels: Vec<(u8, u8, u8, u8)>,
}

/// The colours of red, green, blue and alpha quadruples.
pub open spec fn colors_of(quadruples: Seq<(u8, u8, u8, u8)>) -> Seq<Rgba> {
    Seq::new(
        quadruples.len(),
        |index: int|
            color_of_bytes(
                quadruples[index].0,
                quadruples[index].1,
                quadruples[index].2,
                quadruples[index].3,
            ),
    )
}

/// What the extractor finds: the colours that the backend cuts the pixels
/// into in as many rounds as the square root of `count`, rounded up; an
/// error where the backend finds none.
pub open spec fn prominent_of(pixels: Seq<(u8, u8, u8, u8)>, count: u8) -> Result<
    Seq<Rgba>,
    ExtractError,
> {
    match median_cut_of(pixels, root_ceiling_of(count as int) as u8) {
        Some(quadruples) => Ok(colors_of(quadruples)),
        None => Err(ExtractError::EmptyImage),
    }
}

/// Makes colours of red, green, blue and alpha quadruples.
pub fn colors_from(quadruples: &Vec<(u8, u8, u8, u8)>) -> (colors: Vec<Rgba>)
    ensures
        colors@ == colors_of(quadruples@),
{
    let mut colors: Vec<Rgba> = Vec::new();
    let mut index: usize = 0;
    while index < quadruples.len()
        invariant
            index <= quadruples.len(),
            colors.len() == index,
            forall|at: int|
                0 <= at < index ==> #[trigger] colors[at] == color_of_bytes(
                    quadruples[at].0,
                    quadruples[at].1,
                    quadruples[at].2,
                    quadruples[at].3,
                ),
        decreases quadruples.len() - index,
    {
        let quadruple = quadruples[index];
        colors.push(color_from_bytes(quadruple.0, quadruple.1, quadruple.2, quadruple.3));
        index = index + 1;
    }
    assert(colors@ =~= colors_of(quadruples@));
    colors
}

impl MedianCut {
    /// An extractor for decoded pixels.
    pub fn new(config: MedianCutConfig, pixels: Vec<(u8, u8, u8, u8)>) -> (extractor: Self)
        ensures
            extractor.config == config,
            extractor.pixels == pixels,
    {
        Self { config, pixels }
    }

    /// The colours that the image is cut into, in as many rounds of
    /// halving as the square root of `count`, rounded up; an error for an
    /// image without pixels.
    pub fn colors(&self, count: u8) -> (found: Result<Vec<Rgba>, ExtractError>)
        ensures
            viewed(found) == prominent_of(self.pixels@, count),
            found is Err <==> self.pixels.len() == 0,
            found matches Ok(colors) ==> 1 <= colors.len() <= self.pixels.len(),
    {
        match median_cut(&self.pixels, cut_iterations(count)) {
            Some(palette) => Ok(colors_from(&palette)),
            None => Err(ExtractError::EmptyImage),
        }
    }
}

impl Extractor for MedianCut {
    open spec fn found(&self, count: u8) -> Result<Seq<Rgba>, ExtractError> {
        prominent_of(self.pixels@, count)
    }

    fn prominent(&self, count: u8) -> (colors: Result<Vec<Rgba>, ExtractError>) {
        self.colors(count)
    }
}

} // verus!
