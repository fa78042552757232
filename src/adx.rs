//! The directional-movement strength (ADX) indicator.
//!
//! Its values are floating-point Wilder smoothings computed by the numeric
//! back end; this module decides what becomes of the back end's answer.
use vstd::prelude::*;
use crate::packing::{pack, packed, raw_fits};
use crate::params::{adx_lookback_of, check_status, ADXKwargs, IndicatorError, SUCCESS_CODE};

verus! {

/// Completes a directional-movement evaluation over columns of length `n`
/// from the back end's status code and raw values: a configuration error
/// for a period below the floor, a compute error carrying any status other
/// than success, else the column of length `n`, undefined over the warm-up
/// (and throughout when the back end produced nothing).
pub fn adx_columns<T: Copy>(kwargs: &ADXKwargs, n: usize, status: i32, raw: &Vec<T>) -> (r: Result<
    Vec<Option<T>>,
    IndicatorError,
>)
    requires
        kwargs.valid() && status == SUCCESS_CODE ==> raw_fits(
            raw@,
            adx_lookback_of(kwargs.timeperiod as int),
            n as int,
        ),
    ensures
        !kwargs.valid() ==> r == Err::<Vec<Option<T>>, IndicatorError>(
            IndicatorError::Configuration { timeperiod: kwargs.timeperiod },
        ),
        kwargs.valid() && status != SUCCESS_CODE ==> r == Err::<Vec<Option<T>>, IndicatorError>(
            IndicatorError::Compute { code: status },
        ),
        kwargs.valid() && status == SUCCESS_CODE ==> r is Ok,
        r is Ok ==> r->Ok_0@ == packed(raw@, adx_lookback_of(kwargs.timeperiod as int), n as int),
{
    let lookback = match kwargs.lookback() {
        Ok(l) => l,
        Err(e) => {
            return Err(e);
        },
    };
    match check_status(status) {
        Ok(()) => Ok(pack(raw, lookback, n)),
        Err(e) => Err(e),
    }
}

} // verus!
