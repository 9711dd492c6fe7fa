//! Configuration and the per-sample decision step of the polling loop.

use crate::classifier::ActivationFlag;
use crate::classifier::classified;
use crate::classifier::consolidate_lights;
use crate::mapper::translate_checked;
use crate::mapper::translate_fits;
use crate::mapper::translated;
use vstd::prelude::*;

verus! {

/// A configuration that cannot drive the pipeline.
#[derive(Clone, Copy, Debug, PartialEq, Eq, Structural)]
pub enum ConfigError {
    /// The input bounds do not form an ascending span.
    DegenerateInputSpan,
    /// The output bounds do not form an ascending span.
    DegenerateOutputSpan,
    /// The dead-zone limit is negative.
    NegativeDeadZone,
}

/// The four bounds configuring one range mapping: readings in
/// `[in_min, in_max]` are rescaled to `[out_min, out_max]`.
#[derive(Clone, Copy, Debug, PartialEq, Eq, Structural)]
pub struct RangeSpec {
    pub in_min: i32,
    pub in_max: i32,
    pub out_min: i32,
    pub out_max: i32,
}

impl RangeSpec {
    /// Both spans are ascending; in particular the input span is
    /// non-degenerate, so the mapping never divides by zero.
    pub open spec fn wf(self) -> bool {
        &&& self.in_min < self.in_max
        &&& self.out_min < self.out_max
    }

    /// Builds a range specification, rejecting degenerate bounds
    /// before they can reach the division in the mapper.
    pub fn new(in_min: i32, in_max: i32, out_min: i32, out_max: i32) -> (r: Result<
        RangeSpec,
        ConfigError,
    >)
        ensures
            in_min >= in_max ==> r == Err::<RangeSpec, ConfigError>(
                ConfigError::DegenerateInputSpan,
            ),
            in_min < in_max && out_min >= out_max ==> r == Err::<RangeSpec, ConfigError>(
                ConfigError::DegenerateOutputSpan,
            ),
            in_min < in_max && out_min < out_max ==> r == Ok::<RangeSpec, ConfigError>(
                RangeSpec { in_min, in_max, out_min, out_max },
            ),
            r is Ok ==> r->Ok_0.wf(),
    {
        if in_min >= in_max {
            Err(ConfigError::DegenerateInputSpan)
        } else if out_min >= out_max {
            Err(ConfigError::DegenerateOutputSpan)
        } else {
            Ok(RangeSpec { in_min, in_max, out_min, out_max })
        }
    }
}

/// The fixed configuration of the whole pipeline: the range mapping
/// from raw axis readings to tilt angles, and the dead-zone limit of
/// the classifier.
#[derive(Clone, Copy, Debug, PartialEq, Eq, Structural)]
pub struct TiltConfig {
    pub range: RangeSpec,
    pub dead_zone: i32,
}

impl TiltConfig {
    /// The range is well formed and the dead-zone limit non-negative.
    pub open spec fn wf(self) -> bool {
        &&& self.range.wf()
        &&& self.dead_zone >= 0
    }

    /// Builds a pipeline configuration, rejecting degenerate range
    /// bounds and a negative dead-zone limit.
    pub fn new(in_min: i32, in_max: i32, out_min: i32, out_max: i32, dead_zone: i32) -> (r: Result<
        TiltConfig,
        ConfigError,
    >)
        ensures
            in_min >= in_max ==> r == Err::<TiltConfig, ConfigError>(
                ConfigError::DegenerateInputSpan,
            ),
            in_min < in_max && out_min >= out_max ==> r == Err::<TiltConfig, ConfigError>(
                ConfigError::DegenerateOutputSpan,
            ),
            in_min < in_max && out_min < out_max && dead_zone < 0 ==> r == Err::<
                TiltConfig,
                ConfigError,
            >(ConfigError::NegativeDeadZone),
            in_min < in_max && out_min < out_max && dead_zone >= 0 ==> r == Ok::<
                TiltConfig,
                ConfigError,
            >(TiltConfig { range: RangeSpec { in_min, in_max, out_min, out_max }, dead_zone }),
            r is Ok ==> r->Ok_0.wf(),
    {
        let range = match RangeSpec::new(in_min, in_max, out_min, out_max) {
            Ok(range) => range,
            Err(e) => {
                return Err(e);
            },
        };
        if dead_zone < 0 {
            Err(ConfigError::NegativeDeadZone)
        } else {
            Ok(TiltConfig { range, dead_zone })
        }
    }
}

/// One iteration of the sample loop's decision: maps a raw axis sample
/// to a tilt angle, classifies the angle against the dead-zone, and
/// returns the angle together with the three indicator flags.  `None`
/// exactly where the mapping's 32-bit arithmetic would overflow for
/// this sample, in which case no tilt state should be reported.
pub fn step(cfg: &TiltConfig, sample: i32) -> (r: Option<
    (i32, (ActivationFlag, ActivationFlag, ActivationFlag)),
>)
    requires
        cfg.wf(),
    ensures
        translate_fits(
            sample as int,
            cfg.range.in_min as int,
            cfg.range.in_max as int,
            cfg.range.out_min as int,
            cfg.range.out_max as int,
        ) ==> r == Some(
            (
                (translated(
                    sample as int,
                    cfg.range.in_min as int,
                    cfg.range.in_max as int,
                    cfg.range.out_min as int,
                    cfg.range.out_max as int,
                )) as i32,
                classified(
                    translated(
                        sample as int,
                        cfg.range.in_min as int,
                        cfg.range.in_max as int,
                        cfg.range.out_min as int,
                        cfg.range.out_max as int,
                    ),
                    cfg.dead_zone as int,
                ),
            ),
        ),
        !translate_fits(
            sample as int,
            cfg.range.in_min as int,
            cfg.range.in_max as int,
            cfg.range.out_min as int,
            cfg.range.out_max as int,
        ) ==> r is None,
{
    match translate_checked(
        sample,
        cfg.range.in_min,
        cfg.range.in_max,
        cfg.range.out_min,
        cfg.range.out_max,
    ) {
        Some(angle) => {
            let flags = consolidate_lights(angle, cfg.dead_zone);
            Some((angle, flags))
        },
        None => None,
    }
}

} // verus!
