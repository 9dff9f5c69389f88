//! Summing a list of numeric strings, in the forms that differ in what they
//! do with an element that is not a number: skip it, or report it.
use vstd::prelude::*;
use vstd::string::*;
use crate::integer::{parse_i32_between, parsed_i32};
use crate::text::{chars_of, decimal_of, decimal_string};

verus! {

/// The error of `sum_of_vecs`: some element was not a number.
#[derive(Debug, Clone, Copy, PartialEq, Eq, Structural)]
pub struct SummationError;

/// The value that an element contributes: its number, or 0 when it has none.
pub open spec fn value_or_zero(s: Seq<char>) -> int {
    match parsed_i32(s) {
        Some(v) => v as int,
        None => 0,
    }
}

/// The sum of what the first `k` elements contribute.
pub open spec fn sum_prefix(vs: Seq<String>, k: int) -> int
    decreases k,
{
    if k <= 0 {
        0
    } else {
        sum_prefix(vs, k - 1) + value_or_zero(vs[k - 1]@)
    }
}

/// Each of the first `k` elements denotes an `i32`.
pub open spec fn numeric_before(vs: Seq<String>, k: int) -> bool {
    forall|j: int| 0 <= j < k ==> (#[trigger] parsed_i32(vs[j]@)) is Some
}

pub open spec fn fits_i32(x: int) -> bool {
    i32::MIN <= x <= i32::MAX
}

/// Every running total fits in `i32`.
pub open spec fn running_sums_fit(vs: Seq<String>) -> bool {
    forall|k: int| 0 <= k <= vs.len() ==> fits_i32(#[trigger] sum_prefix(vs, k))
}

/// Every running total over a run of numeric elements from the start fits
/// in `i32`: what is summed before a non-numeric element is met.
pub open spec fn numeric_sums_fit(vs: Seq<String>) -> bool {
    forall|k: int|
        0 <= k <= vs.len() && numeric_before(vs, k) ==> fits_i32(#[trigger] sum_prefix(vs, k))
}

/// Parses `s` as an `i32`: digits with an optional sign, nothing else, and a
/// value within the range of `i32`.
pub fn to_int(s: &str) -> (r: Option<i32>)
    ensures
        r == parsed_i32(s@),
{
    let cs = chars_of(s);
    assert(cs@.subrange(0, cs@.len() as int) =~= s@);
    parse_i32_between(&cs, 0, cs.len())
}

/// The sum of a list in which every element is a number, in decimal.
pub fn sum_of_numeric_vecs(vs: Vec<String>) -> (r: String)
    requires
        numeric_before(vs@, vs@.len() as int),
        running_sums_fit(vs@),
    ensures
        r@ == decimal_of(sum_prefix(vs@, vs@.len() as int)),
{
    let mut acc: i32 = 0;
    let mut i: usize = 0;
    while i < vs.len()
        invariant
            i <= vs.len(),
            numeric_before(vs@, vs@.len() as int),
            running_sums_fit(vs@),
            acc == sum_prefix(vs@, i as int),
        decreases vs.len() - i,
    {
        let n = to_int(vs[i].as_str());
        assert(parsed_i32(vs@[i as int]@) is Some);
        let v = match n {
            Some(v) => v,
            None => 0,
        };
        assert(fits_i32(sum_prefix(vs@, i + 1)));
        acc = acc + v;
        i = i + 1;
    }
    decimal_string(acc as i64)
}

/// The sum of the numeric elements of a list, in decimal; the others are
/// skipped.
pub fn sum_of_vecs_skipping(vs: Vec<String>) -> (r: String)
    requires
        running_sums_fit(vs@),
    ensures
        r@ == decimal_of(sum_prefix(vs@, vs@.len() as int)),
{
    let mut acc: i32 = 0;
    let mut i: usize = 0;
    while i < vs.len()
        invariant
            i <= vs.len(),
            running_sums_fit(vs@),
            acc == sum_prefix(vs@, i as int),
        decreases vs.len() - i,
    {
        let v = match to_int(vs[i].as_str()) {
            Some(v) => v,
            None => 0,
        };
        assert(fits_i32(sum_prefix(vs@, i + 1)));
        acc = acc + v;
        i = i + 1;
    }
    decimal_string(acc as i64)
}

/// The sum of a list of numbers, in decimal, or `None` when an element is
/// not a number.
pub fn sum_of_vecs_or_none(vs: Vec<String>) -> (r: Option<String>)
    requires
        numeric_sums_fit(vs@),
    ensures
        numeric_before(vs@, vs@.len() as int) <==> r is Some,
        r matches Some(t) ==> t@ == decimal_of(sum_prefix(vs@, vs@.len() as int)),
{
    let mut acc: i32 = 0;
    let mut i: usize = 0;
    while i < vs.len()
        invariant
            i <= vs.len(),
            numeric_sums_fit(vs@),
            numeric_before(vs@, i as int),
            acc == sum_prefix(vs@, i as int),
        decreases vs.len() - i,
    {
        let v = match to_int(vs[i].as_str()) {
            Some(v) => v,
            None => {
                assert(!numeric_before(vs@, vs@.len() as int));
                return None;
            },
        };
        assert(numeric_before(vs@, i + 1));
        assert(fits_i32(sum_prefix(vs@, i + 1)));
        acc = acc + v;
        i = i + 1;
    }
    Some(decimal_string(acc as i64))
}

/// The sum of a list of numbers, in decimal, or `SummationError` when an
/// element is not a number.
pub fn sum_of_vecs(vs: Vec<String>) -> (r: Result<String, SummationError>)
    requires
        numeric_sums_fit(vs@),
    ensures
        numeric_before(vs@, vs@.len() as int) <==> r is Ok,
        r matches Ok(t) ==> t@ == decimal_of(sum_prefix(vs@, vs@.len() as int)),
{
    match sum_of_vecs_or_none(vs) {
        Some(t) => Ok(t),
        None => Err(SummationError),
    }
}

} // verus!
