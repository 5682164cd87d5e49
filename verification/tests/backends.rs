use lulezojne::color::component::IntegerComponent;
use lulezojne::color::{Color, Rgba};
use lulezojne::config::{ColorthiefConfig, MedianCutConfig};
use lulezojne::extract::colorthief::{opaque_colors, sampled, Colorthief, MAX_SAMPLED};
use lulezojne::extract::kmeans::{best_run, run_seed, Run};
use lulezojne::extract::median_cut::{colors_from, MedianCut};
use lulezojne::extract::{color_from_bytes, ExtractError, Extractor};

fn two_tone() -> Vec<(u8, u8, u8)> {
    let mut pixels = Vec::new();
    for index in 0..3000u32 {
        if index % 2 == 0 {
            pixels.push((200, 40, (index % 16) as u8));
        } else {
            pixels.push((20, (100 + index % 16) as u8, 220));
        }
    }
    pixels
}

#[test]
fn triples_and_quadruples_become_colours() {
    assert_eq!(
        opaque_colors(&vec![(1, 2, 3), (255, 0, 128)]),
        vec![color_from_bytes(1, 2, 3, 255), color_from_bytes(255, 0, 128, 255)]
    );
    assert_eq!(
        colors_from(&vec![(1, 2, 3, 4), (255, 0, 128, 0)]),
        vec![color_from_bytes(1, 2, 3, 4), color_from_bytes(255, 0, 128, 0)]
    );
    let color = color_from_bytes(1, 2, 3, 4);
    assert_eq!((color.red.0, color.green.0, color.blue.0, color.alpha.0), (257, 514, 771, 1028));
    assert_eq!(
        color,
        Rgba::transparent(
            IntegerComponent(1),
            IntegerComponent(2),
            IntegerComponent(3),
            IntegerComponent(4)
        )
    );
}

#[test]
fn the_thief_finds_the_tones_of_an_image() {
    let bytes: Vec<u8> =
        two_tone().iter().flat_map(|pixel| [pixel.0, pixel.1, pixel.2]).collect();
    let extractor = Colorthief::new(ColorthiefConfig { quality: 1 }, bytes.clone());
    let colors = extractor.colors(4).unwrap();
    assert!(!colors.is_empty() && colors.len() <= 4, "{colors:?}");
    assert!(colors.iter().all(|color| color.alpha.0 == 65535));
    assert!(colors.iter().any(|color| color.red::<IntegerComponent>().0 > 150), "{colors:?}");
    assert!(colors.iter().any(|color| color.blue::<IntegerComponent>().0 > 150), "{colors:?}");
    assert_eq!(extractor.colors(4), Ok(colors.clone()));
    assert_eq!(extractor.prominent(4), Ok(colors));
    assert_eq!(extractor.colors(1), Err(ExtractError::TooFewColors));
    assert_eq!(extractor.colors(0), Err(ExtractError::TooFewColors));
    for quality in [0u8, 11, 255] {
        let faulty = Colorthief::new(ColorthiefConfig { quality }, bytes.clone());
        assert_eq!(faulty.colors(4), Err(ExtractError::Quality));
        assert_eq!(faulty.colors(1), Err(ExtractError::TooFewColors));
    }
    // One group of three bytes in every `3 * quality` is sampled.
    assert_eq!(sampled(0, 1), 0);
    assert_eq!(sampled(2, 1), 0);
    assert_eq!(sampled(3, 1), 1);
    assert_eq!(sampled(9, 1), 1);
    assert_eq!(sampled(12, 1), 2);
    assert_eq!(sampled(3 * 31, 10), 2);
    assert_eq!(sampled(3 * 3 * 8_521_760, 1), MAX_SAMPLED);
    assert_eq!(sampled(3 * 3 * 8_521_760 + 3, 1), MAX_SAMPLED + 1);
    let empty = Colorthief::new(ColorthiefConfig::default(), Vec::new());
    // Of no pixels the backend makes one box, whose average is white.
    assert_eq!(empty.colors(4), Ok(vec![color_from_bytes(255, 255, 255, 255)]));
}

#[test]
fn the_median_cut_halves_an_image() {
    let pixels: Vec<(u8, u8, u8, u8)> =
        two_tone().iter().map(|pixel| (pixel.0, pixel.1, pixel.2, 255)).collect();
    let extractor = MedianCut::new(MedianCutConfig::default(), pixels.clone());
    // One round for one colour asked: the two tones.
    let colors = extractor.colors(1).unwrap();
    assert_eq!(colors.len(), 2);
    assert!(colors.iter().any(|color| color.red::<IntegerComponent>().0 == 200));
    assert!(colors.iter().any(|color| color.red::<IntegerComponent>().0 == 20));
    assert_ne!(colors, colors_from(&pixels));
    // No round for none asked: the mean of the whole image.
    assert_eq!(extractor.colors(0).map(|found| found.len()), Ok(1));
    // Three rounds for five to nine asked.
    let more = extractor.colors(9).unwrap();
    assert_eq!(extractor.colors(5), Ok(more.clone()));
    assert!(more.len() > 2 && more.len() <= 8);
    assert_eq!(extractor.prominent(9), Ok(more));
    let empty = MedianCut::new(MedianCutConfig::default(), Vec::new());
    assert_eq!(empty.colors(4), Err(ExtractError::EmptyImage));
    assert_eq!(empty.colors(0), Err(ExtractError::EmptyImage));
}

#[test]
fn the_run_of_the_least_score_is_chosen() {
    let run = |score: u32| Run { score, centroids: vec![color_from_bytes(1, 2, 3, 255)] };
    assert_eq!(best_run(&Vec::new()), None);
    assert_eq!(best_run(&vec![run(7)]), Some(0));
    assert_eq!(best_run(&vec![run(7), run(3), run(9), run(3)]), Some(1));
    assert_eq!(best_run(&vec![run(0), run(0)]), Some(0));
    assert_eq!(best_run(&vec![run(u32::MAX), run(5)]), Some(1));
    // The bits of scores that are not negative order as the scores do.
    let scores = [0.5f32, 0.25, 3.0, 0.25];
    let runs: Vec<Run> = scores.iter().map(|score| run(score.to_bits())).collect();
    assert_eq!(best_run(&runs), Some(1));
    assert_eq!(run_seed(5, 7), 12);
    assert_eq!(run_seed(u64::MAX, 2), 1);
}

#[test]
fn the_thief_refuses_more_pixels_than_it_can_count() {
    let bytes: Vec<u8> = vec![0; 3 * 3 * 8_521_760 + 3];
    let extractor = Colorthief::new(ColorthiefConfig { quality: 1 }, bytes);
    assert_eq!(extractor.colors(4), Err(ExtractError::TooManyPixels));
    assert_eq!(extractor.colors(1), Err(ExtractError::TooFewColors));
    // At a coarser quality fewer pixels are sampled.
    let coarser = Colorthief::new(ColorthiefConfig { quality: 2 }, extractor.bytes);
    assert_eq!(coarser.colors(4).map(|found| 1 <= found.len() && found.len() <= 4), Ok(true));
}
