//! Extraction of the prominent colours of an image.
//!
//! An extractor holds the decoded pixels of an image and is asked, once or
//! with several counts, for that many prominent colours, from the most to
//! the least significant.

pub mod colorthief;
pub mod kmeans;
pub mod median_cut;
pub mod neoquant;

use vstd::prelude::*;
use crate::color::component::FloatingComponent;
use crate::color::Rgba;

verus! {

/// Why an extractor gave no colours.
#[derive(Debug, Clone, Copy, PartialEq, Eq, Structural)]
pub enum ExtractError {
    /// No colour was asked for.
    NoColors,
    /// Fewer than two colours were asked for.
    TooFewColors,
    /// The share of the pixels to sample is not between 1 and 30.
    SampleFaction,
    /// The quality is not between 1 and 10.
    Quality,
    /// The image has more pixels than the backend can count.
    TooManyPixels,
    /// The image has no pixel.
    EmptyImage,
    /// The backend came upon a box of colours that holds none.
    InvalidVBox,
    /// The backend could not cut a box of colours in two.
    VBoxCutFailed,
}

/// What a result holds, its vector taken as a sequence.
pub open spec fn viewed<T, E>(found: Result<Vec<T>, E>) -> Result<Seq<T>, E> {
    match found {
        Ok(items) => Ok(items@),
        Err(error) => Err(error),
    }
}

/// Something that finds the prominent colours of an image.
pub trait Extractor {
    /// What asking for `count` colours gives.
    spec fn found(&self, count: u8) -> Result<Seq<Rgba>, ExtractError>;

    /// The prominent colours for `count`, from the most to the least
    /// significant.
    fn prominent(&self, count: u8) -> (colors: Result<Vec<Rgba>, ExtractError>)
        ensures
            viewed(colors) == self.found(count),
    ;
}

/// The colour whose channels are the four bytes from `at` of `bytes`.
pub open spec fn color_at(bytes: Seq<u8>, at: int) -> Rgba {
    Rgba {
        red: FloatingComponent((bytes[at] as int * 257) as u16),
        green: FloatingComponent((bytes[at + 1] as int * 257) as u16),
        blue: FloatingComponent((bytes[at + 2] as int * 257) as u16),
        alpha: FloatingComponent((bytes[at + 3] as int * 257) as u16),
    }
}

/// The colours that `bytes` hold as groups of red, green, blue and alpha;
/// bytes left over after the last whole group do not count.
pub open spec fn colors_of_bytes(bytes: Seq<u8>) -> Seq<Rgba> {
    Seq::new((bytes.len() / 4) as nat, |index: int| color_at(bytes, 4 * index))
}

/// The colour of the given bytes.
pub open spec fn color_of_bytes(red: u8, green: u8, blue: u8, alpha: u8) -> Rgba {
    Rgba {
        red: FloatingComponent((red as int * 257) as u16),
        green: FloatingComponent((green as int * 257) as u16),
        blue: FloatingComponent((blue as int * 257) as u16),
        alpha: FloatingComponent((alpha as int * 257) as u16),
    }
}

/// The colour of the given bytes.
pub fn color_from_bytes(red: u8, green: u8, blue: u8, alpha: u8) -> (color: Rgba)
    ensures
        color == color_of_bytes(red, green, blue, alpha),
{
    Rgba {
        red: FloatingComponent(red as u16 * 257),
        green: FloatingComponent(green as u16 * 257),
        blue: FloatingComponent(blue as u16 * 257),
        alpha: FloatingComponent(alpha as u16 * 257),
    }
}

/// Reads colours from groups of red, green, blue and alpha bytes.
pub fn colors_from_bytes(bytes: &Vec<u8>) -> (colors: Vec<Rgba>)
    ensures
        colors@ == colors_of_bytes(bytes@),
{
    let mut colors: Vec<Rgba> = Vec::new();
    let count: usize = bytes.len() / 4;
    let mut index: usize = 0;
    while index < count
        invariant
            count == bytes.len() / 4,
            index <= count,
            colors.len() == index,
            forall|at: int| 0 <= at < index ==> #[trigger] colors[at] == color_at(bytes@, 4 * at),
        decreases count - index,
    {
        let at: usize = 4 * index;
        colors.push(
            Rgba {
                red: FloatingComponent(bytes[at] as u16 * 257),
                green: FloatingComponent(bytes[at + 1] as u16 * 257),
                blue: FloatingComponent(bytes[at + 2] as u16 * 257),
                alpha: FloatingComponent(bytes[at + 3] as u16 * 257),
            },
        );
        index = index + 1;
    }
    assert(colors@ =~= colors_of_bytes(bytes@));
    colors
}

/// The square of a number.
pub fn square(number: u8) -> (squared: u16)
    ensures
        squared == number * number,
{
    assert(number * number <= 255 * 255) by (nonlinear_arith)
        requires
            0 <= number <= 255,
    ;
    (number as u16) * (number as u16)
}

/// The least number from `candidate` on whose square is `count` or more,
/// and 16 at most.
pub open spec fn root_from(count: int, candidate: int) -> int
    decreases 16 - candidate,
{
    if candidate >= 16 || candidate * candidate >= count {
        candidate
    } else {
        root_from(count, candidate + 1)
    }
}

/// The square root of `count`, rounded up, for a count below 257.
pub open spec fn root_ceiling_of(count: int) -> int {
    root_from(count, 0)
}

/// The number of times a median cut halves its buckets to reach `count`
/// colours: the square root of `count`, rounded up.
pub fn cut_iterations(count: u8) -> (iterations: u8)
    ensures
        iterations == root_ceiling_of(count as int),
        (iterations as int) * (iterations as int) >= count,
        iterations == 0 || (iterations as int - 1) * (iterations as int - 1) < count,
        iterations <= 16,
{
    let mut iterations: u8 = 0;
    while square(iterations) < count as u16
        invariant
            iterations <= 16,
            iterations == 0 || (iterations as int - 1) * (iterations as int - 1) < count,
            root_ceiling_of(count as int) == root_from(count as int, iterations as int),
        decreases 16 - iterations,
    {
        assert(iterations < 16) by (nonlinear_arith)
            requires
                iterations <= 16,
                (iterations as int) * (iterations as int) < 256,
        ;
        iterations = iterations + 1;
    }
    iterations
}

} // verus!
