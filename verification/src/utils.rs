use vstd::prelude::*;

verus! {

/// FFmpeg's `AV_NOPTS_VALUE`: the timestamp value that means "no timestamp".
pub const AV_NOPTS_VALUE: i64 = i64::MIN;

/// A raw timestamp as an option: `None` for `AV_NOPTS_VALUE`.
pub open spec fn spec_check_i64(val: i64) -> Option<i64> {
    if val == AV_NOPTS_VALUE {
        None
    } else {
        Some(val)
    }
}

/// An optional timestamp as a raw value: `AV_NOPTS_VALUE` for `None`.
pub open spec fn spec_or_nopts(val: Option<i64>) -> i64 {
    match val {
        Some(v) => v,
        None => AV_NOPTS_VALUE,
    }
}

/// Returns `None` when `val` is `AV_NOPTS_VALUE`, otherwise `Some(val)`.
pub fn check_i64(val: i64) -> (r: Option<i64>)
    ensures
        r == spec_check_i64(val),
{
    if val == AV_NOPTS_VALUE {
        None
    } else {
        Some(val)
    }
}

/// Returns the value in `val`, or `AV_NOPTS_VALUE` when there is none.
pub fn or_nopts(val: Option<i64>) -> (r: i64)
    ensures
        r == spec_or_nopts(val),
{
    match val {
        Some(v) => v,
        None => AV_NOPTS_VALUE,
    }
}

/// Storing an optional timestamp and reading it back gives it back, unless it is
/// `Some(AV_NOPTS_VALUE)`, which reads back as `None`.
pub proof fn lemma_timestamp_round_trip(val: Option<i64>)
    ensures
        val != Some(AV_NOPTS_VALUE) ==> spec_check_i64(spec_or_nopts(val)) == val,
        val == Some(AV_NOPTS_VALUE) ==> spec_check_i64(spec_or_nopts(val)) is None,
{
}

/// Reading a raw timestamp as an option and storing it again gives the same raw value.
pub proof fn lemma_raw_timestamp_round_trip(val: i64)
    ensures
        spec_or_nopts(spec_check_i64(val)) == val,
{
}

} // verus!
