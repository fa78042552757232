//! Indicator parameters, their validation, and the lookback of each indicator.
use vstd::prelude::*;

verus! {

/// Why an indicator evaluation was abandoned.
#[derive(Debug, Clone, Copy, PartialEq, Eq, Structural)]
pub enum IndicatorError {
    /// An input column could not be viewed as contiguous 64-bit values.
    Conversion,
    /// The `timeperiod` parameter lies outside the indicator's domain.
    Configuration { timeperiod: i32 },
    /// The numeric back end reported a failure; its native code is kept.
    Compute { code: i32 },
}

/// Status code with which the numeric back end reports success.
pub const SUCCESS_CODE: i32 = 0;

/// Smallest `timeperiod` accepted by the directional-movement indicator:
/// a Wilder smoothing over a single sample does not smooth at all.
pub const ADX_MIN_PERIOD: i32 = 2;

/// Smallest `timeperiod` accepted by the extreme-recency indicator.
pub const AROON_MIN_PERIOD: i32 = 1;

/// Number of leading undefined positions of the directional-movement
/// indicator: `2 * timeperiod - 1` samples feed its two chained smoothings.
pub open spec fn adx_lookback_of(timeperiod: int) -> int {
    2 * timeperiod - 1
}

/// Number of leading undefined positions of the extreme-recency indicator:
/// one full window of `timeperiod` earlier samples.
pub open spec fn aroon_lookback_of(timeperiod: int) -> int {
    timeperiod
}

/// Maps a back end status code to success or to a compute failure that
/// carries the code unchanged.
pub fn check_status(code: i32) -> (r: Result<(), IndicatorError>)
    ensures
        code == SUCCESS_CODE <==> r is Ok,
        code != SUCCESS_CODE ==> r == Err::<(), IndicatorError>(IndicatorError::Compute { code }),
{
    if code == SUCCESS_CODE {
        Ok(())
    } else {
        Err(IndicatorError::Compute { code })
    }
}

/// Parameters of the directional-movement strength (ADX) indicator.
#[derive(Debug, Clone, Copy, PartialEq, Eq, Structural)]
pub struct ADXKwargs {
    pub timeperiod: i32,
}

impl ADXKwargs {
    pub open spec fn valid(&self) -> bool {
        self.timeperiod >= ADX_MIN_PERIOD
    }

    /// The lookback of the indicator, or a configuration error when
    /// `timeperiod` is below the accepted floor.
    pub fn lookback(&self) -> (r: Result<usize, IndicatorError>)
        ensures
            self.valid() <==> r is Ok,
            r is Ok ==> r->Ok_0 == adx_lookback_of(self.timeperiod as int),
            !self.valid() ==> r == Err::<usize, IndicatorError>(
                IndicatorError::Configuration { timeperiod: self.timeperiod },
            ),
    {
        if self.timeperiod < ADX_MIN_PERIOD {
            Err(IndicatorError::Configuration { timeperiod: self.timeperiod })
        } else {
            let tp = self.timeperiod as usize;
            Ok(2 * tp - 1)
        }
    }
}

/// Parameters of the extreme-recency (Aroon) indicator.
#[derive(Debug, Clone, Copy, PartialEq, Eq, Structural)]
pub struct ArronKwargs {
    pub timeperiod: i32,
}

impl ArronKwargs {
    pub open spec fn valid(&self) -> bool {
        self.timeperiod >= AROON_MIN_PERIOD
    }

    /// The lookback of the indicator, or a configuration error when
    /// `timeperiod` is not positive.
    pub fn lookback(&self) -> (r: Result<usize, IndicatorError>)
        ensures
            self.valid() <==> r is Ok,
            r is Ok ==> r->Ok_0 == aroon_lookback_of(self.timeperiod as int),
            !self.valid() ==> r == Err::<usize, IndicatorError>(
                IndicatorError::Configuration { timeperiod: self.timeperiod },
            ),
    {
        if self.timeperiod < AROON_MIN_PERIOD {
            Err(IndicatorError::Configuration { timeperiod: self.timeperiod })
        } else {
            Ok(self.timeperiod as usize)
        }
    }
}

} // verus!
