//! Checks on the caller's quality window and speed, made before any work.
use vstd::prelude::*;
use crate::types::ParamProblem;

verus! {

/// Highest quality that the engine accepts.
pub const QUALITY_LIMIT: u8 = 100;
/// Slowest, most faithful speed setting.
pub const SPEED_SLOWEST: i32 = 1;
/// Fastest, least faithful speed setting.
pub const SPEED_FASTEST: i32 = 10;

/// Parameters are acceptable: both qualities in 0 to 100, ordered, and a
/// speed in 1 to 10.
pub open spec fn params_valid(quality_min: u8, quality_max: u8, speed: i32) -> bool {
    quality_min <= quality_max && quality_max <= 100 && 1 <= speed && speed <= 10
}

/// Checks the quality window and the speed; the error names what is wrong.
pub fn validate_params(quality_min: u8, quality_max: u8, speed: i32) -> (r: Result<(), ParamProblem>)
    ensures
        r is Ok <==> params_valid(quality_min, quality_max, speed),
        quality_min > quality_max ==> r == Err::<(), ParamProblem>(ParamProblem::QualityOrder),
        quality_min <= quality_max && quality_max > 100 ==> r == Err::<(), ParamProblem>(
            ParamProblem::QualityOutOfRange,
        ),
        quality_min <= quality_max && quality_max <= 100 && (speed < 1 || speed > 10) ==> r
            == Err::<(), ParamProblem>(ParamProblem::SpeedOutOfRange),
{
    if quality_min > quality_max {
        Err(ParamProblem::QualityOrder)
    } else if quality_max > QUALITY_LIMIT {
        Err(ParamProblem::QualityOutOfRange)
    } else if speed < SPEED_SLOWEST || speed > SPEED_FASTEST {
        Err(ParamProblem::SpeedOutOfRange)
    } else {
        Ok(())
    }
}

} // verus!
