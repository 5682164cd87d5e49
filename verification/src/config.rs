//! Configuration of the palette engine and of the extraction backends.

use vstd::prelude::*;

verus! {

/// How much contrast the derived colours are asked to have.
#[derive(Debug, Clone, Copy, PartialEq, Eq, Structural)]
pub enum AccessibilityConfig {
    Normal,
    HighContrast,
}

impl Default for AccessibilityConfig {
    fn default() -> (config: Self)
        ensures
            config == AccessibilityConfig::Normal,
    {
        AccessibilityConfig::Normal
    }
}

#[derive(Debug, Clone, Copy, PartialEq, Eq, Structural)]
pub enum KmeansGpuAlgorithm {
    Kmeans,
    Octree,
}

impl Default for KmeansGpuAlgorithm {
    fn default() -> (algorithm: Self)
        ensures
            algorithm == KmeansGpuAlgorithm::Kmeans,
    {
        KmeansGpuAlgorithm::Kmeans
    }
}

#[derive(Debug, Clone, Copy, PartialEq, Eq, Structural)]
pub struct KmeansGpuConfig {
    pub algorithm: KmeansGpuAlgorithm,
}

impl KmeansGpuConfig {
    pub fn default_algorithm() -> (algorithm: KmeansGpuAlgorithm)
        ensures
            algorithm == KmeansGpuAlgorithm::Kmeans,
    {
        KmeansGpuAlgorithm::Kmeans
    }
}

impl Default for KmeansGpuConfig {
    fn default() -> (config: Self)
        ensures
            config.algorithm == KmeansGpuAlgorithm::Kmeans,
    {
        Self { algorithm: Self::default_algorithm() }
    }
}

#[derive(Debug, Clone, Copy, PartialEq, Eq, Structural)]
pub struct ColorthiefConfig {
    pub quality: u8,
}

impl ColorthiefConfig {
    pub fn default_quality() -> (quality: u8)
        ensures
            quality == 10,
    {
        10
    }
}

impl Default for ColorthiefConfig {
    fn default() -> (config: Self)
        ensures
            config.quality == 10,
    {
        Self { quality: Self::default_quality() }
    }
}

#[derive(Debug, Clone, Copy, PartialEq, Eq, Structural)]
pub struct MedianCutConfig {}

impl Default for MedianCutConfig {
    fn default() -> (config: Self)
        ensures
            config == (MedianCutConfig {  }),
    {
        MedianCutConfig {  }
    }
}

#[derive(Debug, Clone, Copy, PartialEq, Eq, Structural)]
pub struct NeoquantConfig {
    pub sample_faction: i32,
}

impl NeoquantConfig {
    pub fn default_sample_faction() -> (sample_faction: i32)
        ensures
            sample_faction == 10,
    {
        10
    }
}

impl Default for NeoquantConfig {
    fn default() -> (config: Self)
        ensures
            config.sample_faction == 10,
    {
        Self { sample_faction: Self::default_sample_faction() }
    }
}

#[derive(Debug, Clone, Copy, PartialEq, Eq, Structural)]
pub enum ScolorqConfigFilter {
    One,
    Three,
    Five,
}

impl Default for ScolorqConfigFilter {
    fn default() -> (filter: Self)
        ensures
            filter == ScolorqConfigFilter::Three,
    {
        ScolorqConfigFilter::Three
    }
}

/// What is wrong with the configuration of an area.
#[derive(Debug, Clone, Copy, PartialEq, Eq, Structural)]
pub enum ConfigError {
    /// The mix factor is not between 0 and 65535 parts.
    MixFactor,
    /// The hue tolerance is not between 0 and half a turn.
    HueTolerance,
    /// A saturation range is not inside the range or has its bounds
    /// reversed.
    SaturationRange,
    /// A lightness range is not inside the range or has its bounds
    /// reversed.
    LightnessRange,
}

/// How the colours of one area are derived. Fractions are in 1/65535 parts;
/// the hue tolerance is a fraction of the full turn.
#[derive(Debug, Clone, Copy, PartialEq, Eq)]
pub struct AnsiAreaConfig {
    /// How far a target moves towards the colour matched to it: 0 keeps the
    /// target, 65535 takes the match.
    pub mix_factor: i32,
    /// The hue difference beyond which the complementary hue is tried.
    pub hue_tolerance: i32,
    /// Bounds of the saturation of normal colours.
    pub saturation_range: Option<(i32, i32)>,
    /// Bounds of the lightness of normal colours.
    pub lightness_range: Option<(i32, i32)>,
    /// Bounds of the saturation of bright colours.
    pub bright_saturation_range: Option<(i32, i32)>,
    /// Bounds of the lightness of bright colours.
    pub bright_lightness_range: Option<(i32, i32)>,
}

/// Half of the full turn, in parts, rounded up.
pub const HALF_TURN: i32 = 32768;

/// Whether a range lies inside `0..=65535` with its bounds in order.
pub open spec fn range_valid(range: Option<(i32, i32)>) -> bool {
    range matches Some(bounds) ==> 0 <= bounds.0 <= bounds.1 <= 65535
}

/// Decides whether a range lies inside `0..=65535` with its bounds in order.
pub fn check_range(range: Option<(i32, i32)>) -> (valid: bool)
    ensures
        valid == range_valid(range),
{
    match range {
        Some(bounds) => 0 <= bounds.0 && bounds.0 <= bounds.1 && bounds.1 <= 65535,
        None => true,
    }
}

impl AnsiAreaConfig {
    /// The first thing wrong with this configuration, if anything is: the
    /// mix factor, then the hue tolerance, then the saturation ranges, then
    /// the lightness ranges.
    pub open spec fn fault(self) -> Option<ConfigError> {
        if !(0 <= self.mix_factor <= 65535) {
            Some(ConfigError::MixFactor)
        } else if !(0 <= self.hue_tolerance <= 32768) {
            Some(ConfigError::HueTolerance)
        } else if !range_valid(self.saturation_range) || !range_valid(self.bright_saturation_range) {
            Some(ConfigError::SaturationRange)
        } else if !range_valid(self.lightness_range) || !range_valid(self.bright_lightness_range) {
            Some(ConfigError::LightnessRange)
        } else {
            None
        }
    }

    pub open spec fn valid(self) -> bool {
        self.fault() is None
    }

    /// Accepts the configuration, or says what is wrong with it.
    pub fn validate(&self) -> (checked: Result<(), ConfigError>)
        ensures
            checked is Ok <==> self.valid(),
            checked matches Err(error) ==> self.fault() == Some(error),
    {
        if self.mix_factor < 0 || self.mix_factor > 65535 {
            Err(ConfigError::MixFactor)
        } else if self.hue_tolerance < 0 || self.hue_tolerance > HALF_TURN {
            Err(ConfigError::HueTolerance)
        } else if !check_range(self.saturation_range) || !check_range(
            self.bright_saturation_range,
        ) {
            Err(ConfigError::SaturationRange)
        } else if !check_range(self.lightness_range) || !check_range(self.bright_lightness_range) {
            Err(ConfigError::LightnessRange)
        } else {
            Ok(())
        }
    }

    /// The configuration that mixes by `mix_factor`, tries the
    /// complementary hue beyond ten degrees and bounds nothing.
    pub open spec fn mixing_of(mix_factor: i32) -> AnsiAreaConfig {
        AnsiAreaConfig {
            mix_factor,
            hue_tolerance: 1820,
            saturation_range: None,
            lightness_range: None,
            bright_saturation_range: None,
            bright_lightness_range: None,
        }
    }

    /// A configuration that mixes by `mix_factor`, tries the complementary
    /// hue beyond ten degrees and bounds nothing.
    pub fn mixing(mix_factor: i32) -> (config: Self)
        ensures
            config == Self::mixing_of(mix_factor),
    {
        AnsiAreaConfig {
            mix_factor,
            hue_tolerance: 1820,
            saturation_range: None,
            lightness_range: None,
            bright_saturation_range: None,
            bright_lightness_range: None,
        }
    }
}

/// The configuration of the three areas of the terminal palette.
#[derive(Debug, Clone, Copy, PartialEq, Eq)]
pub struct AnsiConfig {
    pub main: AnsiAreaConfig,
    pub gradient: AnsiAreaConfig,
    pub grayscale: AnsiAreaConfig,
}

impl AnsiConfig {
    /// The configuration of the main area where none is given: a mix factor
    /// of six tenths, a hue tolerance of ten degrees and no bounds.
    pub fn default_main() -> (config: AnsiAreaConfig)
        ensures
            config == AnsiAreaConfig::mixing_of(39321),
            config.valid(),
    {
        AnsiAreaConfig::mixing(39321)
    }

    /// The configuration of the gradient area where none is given: a mix factor
    /// of two tenths, a hue tolerance of ten degrees and no bounds.
    pub fn default_gradient() -> (config: AnsiAreaConfig)
        ensures
            config == AnsiAreaConfig::mixing_of(13107),
            config.valid(),
    {
        AnsiAreaConfig::mixing(13107)
    }

    /// The configuration of the grayscale area where none is given: a mix factor
    /// of eight tenths, a hue tolerance of ten degrees and no bounds.
    pub fn default_grayscale() -> (config: AnsiAreaConfig)
        ensures
            config == AnsiAreaConfig::mixing_of(52428),
            config.valid(),
    {
        AnsiAreaConfig::mixing(52428)
    }

    /// The first thing wrong in the main, then the gradient, then the
    /// grayscale area.
    pub open spec fn fault(self) -> Option<ConfigError> {
        if self.main.fault() is Some {
            self.main.fault()
        } else if self.gradient.fault() is Some {
            self.gradient.fault()
        } else {
            self.grayscale.fault()
        }
    }

    pub open spec fn valid(self) -> bool {
        self.fault() is None
    }

    /// Accepts the configuration, or says what is wrong with it.
    pub fn validate(&self) -> (checked: Result<(), ConfigError>)
        ensures
            checked is Ok <==> self.valid(),
            checked matches Err(error) ==> self.fault() == Some(error),
    {
        match self.main.validate() {
            Err(error) => Err(error),
            Ok(_) => match self.gradient.validate() {
                Err(error) => Err(error),
                Ok(_) => self.grayscale.validate(),
            },
        }
    }
}

impl Default for AnsiConfig {
    fn default() -> (config: Self)
        ensures
            config == (AnsiConfig {
                main: AnsiAreaConfig::mixing_of(39321),
                gradient: AnsiAreaConfig::mixing_of(13107),
                grayscale: AnsiAreaConfig::mixing_of(52428),
            }),
            config.valid(),
    {
        Self {
            main: Self::default_main(),
            gradient: Self::default_gradient(),
            grayscale: Self::default_grayscale(),
        }
    }
}

#[derive(Debug, Clone, Copy, PartialEq, Eq, Structural)]
pub struct BootstrapConfig {}

impl Default for BootstrapConfig {
    fn default() -> (config: Self)
        ensures
            config == (BootstrapConfig {  }),
    {
        BootstrapConfig {  }
    }
}

/// A template to render, and where to.
#[derive(Debug, Clone)]
pub struct Plop {
    pub template: String,
    pub destination: String,
    pub then: Option<PlopExec>,
}

/// A command to run after a template was rendered.
#[derive(Debug, Clone)]
pub struct PlopExec {
    pub command: String,
    pub args: Option<Vec<String>>,
}

} // verus!
