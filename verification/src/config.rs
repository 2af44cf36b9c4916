//! The immutable configuration of a packing run, validated up front.
//!
//! A malformed configuration is rejected before any loop starts: a driver
//! built from a validated configuration can neither divide by zero nor
//! loop forever.

use vstd::prelude::*;
use crate::geometry::COORD_LIMIT;

verus! {

/// Why a configuration was rejected.
#[derive(Clone, Copy, PartialEq, Eq, Structural, Debug)]
pub enum ConfigError {
    /// `min_radius` must be positive (and fit the coordinate grid).
    InvalidMinRadius,
    /// `padding` must be non-negative (and fit the coordinate grid).
    InvalidPadding,
    /// The palette must hold at least one color (index 0 is the background).
    EmptyPalette,
    /// The target fraction `target_num / target_den` must lie in (0, 1].
    InvalidTargetFraction,
    /// At least one consecutive stall must be allowed before giving up.
    InvalidStallLimit,
}

/// Settings of a packing run, fixed before the loop starts.
///
/// The target coverage fraction is the rational `target_num / target_den`;
/// geometry lives on the integer grid of [`crate::geometry`].
#[derive(Debug, PartialEq, Eq)]
pub struct PackingConfig {
    /// Smallest radius a candidate circle may have; positive.
    pub min_radius: i64,
    /// Minimum clearance kept between circles and to the container; non-negative.
    pub padding: i64,
    /// Whether sampled points must lie strictly inside the container.
    pub inside: bool,
    /// Ordered fill colors; index 0 is reserved for the background.
    pub palette: Vec<String>,
    /// Numerator of the target occupied-area fraction.
    pub target_num: u32,
    /// Denominator of the target occupied-area fraction.
    pub target_den: u32,
    /// How many consecutive stalls end the run; positive.
    pub max_stall_iterations: u32,
}

impl PackingConfig {
    /// A validated configuration.
    pub open spec fn wf(self) -> bool {
        &&& 0 < self.min_radius <= COORD_LIMIT
        &&& 0 <= self.padding <= COORD_LIMIT
        &&& self.palette@.len() > 0
        &&& 0 < self.target_num <= self.target_den
        &&& self.max_stall_iterations > 0
    }

    /// Validates the settings of a run; rejects each malformed field with
    /// its own error, checking the fields in declaration order.
    pub fn new(
        min_radius: i64,
        padding: i64,
        inside: bool,
        palette: Vec<String>,
        target_num: u32,
        target_den: u32,
        max_stall_iterations: u32,
    ) -> (result: Result<PackingConfig, ConfigError>)
        ensures
            result.is_ok() <==> (0 < min_radius <= COORD_LIMIT && 0 <= padding <= COORD_LIMIT
                && palette@.len() > 0 && 0 < target_num <= target_den && max_stall_iterations > 0),
            match result {
                Ok(config) => config.wf() && config == (PackingConfig {
                    min_radius,
                    padding,
                    inside,
                    palette,
                    target_num,
                    target_den,
                    max_stall_iterations,
                }),
                Err(error) => {
                    &&& (error == ConfigError::InvalidMinRadius
                        <==> !(0 < min_radius <= COORD_LIMIT))
                    &&& (error == ConfigError::InvalidPadding
                        <==> 0 < min_radius <= COORD_LIMIT && !(0 <= padding <= COORD_LIMIT))
                    &&& (error == ConfigError::EmptyPalette
                        <==> 0 < min_radius <= COORD_LIMIT && 0 <= padding <= COORD_LIMIT
                            && palette@.len() == 0)
                    &&& (error == ConfigError::InvalidTargetFraction
                        <==> 0 < min_radius <= COORD_LIMIT && 0 <= padding <= COORD_LIMIT
                            && palette@.len() > 0 && !(0 < target_num <= target_den))
                    &&& (error == ConfigError::InvalidStallLimit
                        <==> 0 < min_radius <= COORD_LIMIT && 0 <= padding <= COORD_LIMIT
                            && palette@.len() > 0 && 0 < target_num <= target_den
                            && max_stall_iterations == 0)
                },
            },
    {
        if !(0 < min_radius && min_radius <= COORD_LIMIT) {
            Err(ConfigError::InvalidMinRadius)
        } else if !(0 <= padding && padding <= COORD_LIMIT) {
            Err(ConfigError::InvalidPadding)
        } else if palette.len() == 0 {
            Err(ConfigError::EmptyPalette)
        } else if !(0 < target_num && target_num <= target_den) {
            Err(ConfigError::InvalidTargetFraction)
        } else if max_stall_iterations == 0 {
            Err(ConfigError::InvalidStallLimit)
        } else {
            Ok(PackingConfig {
                min_radius,
                padding,
                inside,
                palette,
                target_num,
                target_den,
                max_stall_iterations,
            })
        }
    }
}

} // verus!
