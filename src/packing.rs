//! Packing of raw kernel output into length-aligned columns.
use vstd::prelude::*;

verus! {

/// Raw kernel output fits a column of length `n` with `lookback` warm-up
/// positions: either the kernel produced nothing, or exactly one value for
/// each position after the warm-up.
pub open spec fn raw_fits<T>(raw: Seq<T>, lookback: int, n: int) -> bool {
    raw.len() == 0 || raw.len() + lookback == n
}

/// The column of length `n` built from raw kernel output: positions before
/// `lookback` are undefined and the rest hold `raw` in order; when the
/// kernel produced nothing, every position is undefined.
pub open spec fn packed<T>(raw: Seq<T>, lookback: int, n: int) -> Seq<Option<T>> {
    Seq::new(
        n as nat,
        |i: int|
            if raw.len() == 0 || i < lookback {
                None
            } else {
                Some(raw[i - lookback])
            },
    )
}

/// Builds the output column of length `n` from raw kernel output.
pub fn pack<T: Copy>(raw: &Vec<T>, lookback: usize, n: usize) -> (out: Vec<Option<T>>)
    requires
        raw_fits(raw@, lookback as int, n as int),
    ensures
        out@ == packed(raw@, lookback as int, n as int),
{
    let mut out: Vec<Option<T>> = Vec::with_capacity(n);
    let mut i: usize = 0;
    while i < n
        invariant
            i <= n,
            raw_fits(raw@, lookback as int, n as int),
            out@.len() == i,
            forall|j: int| 0 <= j < i ==> out@[j] == packed(raw@, lookback as int, n as int)[j],
        decreases n - i,
    {
        if raw.len() == 0 || i < lookback {
            out.push(None);
        } else {
            out.push(Some(raw[i - lookback]));
        }
        i = i + 1;
    }
    assert(out@ =~= packed(raw@, lookback as int, n as int));
    out
}

/// Every packed column has the length of the input columns; its warm-up
/// positions are undefined; every later position holds a value when the
/// kernel produced any; and a column no longer than its warm-up is
/// undefined throughout.
pub proof fn lemma_packed_shape<T>(raw: Seq<T>, lookback: nat, n: nat)
    requires
        raw_fits(raw, lookback as int, n as int),
    ensures
        packed(raw, lookback as int, n as int).len() == n,
        forall|i: int| 0 <= i < n && i < lookback ==> packed(raw, lookback as int, n as int)[i] is None,
        raw.len() > 0 ==> forall|i: int|
            lookback <= i < n ==> packed(raw, lookback as int, n as int)[i] is Some,
        n <= lookback ==> forall|i: int|
            0 <= i < n ==> packed(raw, lookback as int, n as int)[i] is None,
{
}

} // verus!
