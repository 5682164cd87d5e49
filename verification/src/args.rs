//! What the command line asks for.

use vstd::prelude::*;

verus! {

/// The command to run.
#[derive(Debug, Clone)]
pub enum Args {
    /// Render the templates of the configuration with the colours of an
    /// image.
    Plop { config: ConfigArgs, extraction: ExtractionArgs },
    /// Print the colours of an image.
    Print { config: ConfigArgs, extraction: ExtractionArgs, format: Format },
}

#[derive(Debug, Clone)]
pub struct ConfigArgs {
    /// Another place to read the configuration from.
    pub location: Option<String>,
}

#[derive(Debug, Clone)]
pub struct ExtractionArgs {
    /// The image to take the prominent colours from.
    pub image: String,
    /// The extractor to take them with.
    pub extractor: Extractor,
}

/// The backends that can extract the prominent colours of an image.
#[derive(Debug, Clone, Copy, PartialEq, Eq, Structural)]
pub enum Extractor {
    Colorthief,
    Kmeans,
    KmeansGpu,
    MedianCut,
    Neoquant,
    Scolorq,
}

impl Default for Extractor {
    fn default() -> (extractor: Self)
        ensures
            extractor == Extractor::Neoquant,
    {
        Extractor::Neoquant
    }
}

/// The forms in which colours are printed.
#[derive(Debug, Clone, Copy, PartialEq, Eq, Structural)]
pub enum Format {
    Json,
    List,
}

impl Default for Format {
    fn default() -> (format: Self)
        ensures
            format == Format::List,
    {
        Format::List
    }
}

impl Args {
    /// The arguments on the configuration, whatever the command.
    pub open spec fn config_of(self) -> ConfigArgs {
        match self {
            Args::Plop { config, .. } => config,
            Args::Print { config, .. } => config,
        }
    }

    /// The arguments on the extraction, whatever the command.
    pub open spec fn extraction_of(self) -> ExtractionArgs {
        match self {
            Args::Plop { extraction, .. } => extraction,
            Args::Print { extraction, .. } => extraction,
        }
    }

    /// The arguments on the configuration, whatever the command.
    pub fn config(&self) -> (config: &ConfigArgs)
        ensures
            *config == self.config_of(),
    {
        match self {
            Args::Plop { config, .. } => config,
            Args::Print { config, .. } => config,
        }
    }

    /// The arguments on the extraction, whatever the command.
    pub fn extraction(&self) -> (extraction: &ExtractionArgs)
        ensures
            *extraction == self.extraction_of(),
    {
        match self {
            Args::Plop { extraction, .. } => extraction,
            Args::Print { extraction, .. } => extraction,
        }
    }
}

} // verus!
