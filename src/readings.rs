//! Normalisation of raw sensor values.
use vstd::prelude::*;

use crate::discovery::Category;
use crate::error::CycleError;
use crate::mappings::sensor::State;

verus! {

/// The number written by the first two decimal digits of `n`
/// (all of `n` when it has fewer than three digits).
pub open spec fn first_two_digits(n: nat) -> nat
    decreases n,
{
    if n < 100 {
        n
    } else {
        first_two_digits(n / 10)
    }
}

/// The decimal digits of `n`, most significant first, without leading zeros
/// (a single `0` for zero).
pub open spec fn decimal_digits(n: nat) -> Seq<nat>
    decreases n,
{
    if n < 10 {
        seq![n]
    } else {
        decimal_digits(n / 10).push(n % 10)
    }
}

proof fn lemma_decimal_digits_len(n: nat)
    ensures
        decimal_digits(n).len() >= 1,
        n >= 10 ==> decimal_digits(n).len() >= 2,
    decreases n,
{
    if n >= 10 {
        lemma_decimal_digits_len(n / 10);
    }
}

/// Normalisation keeps the leading two decimal digits of a value, as text
/// would show them, and all digits of a value with fewer.
pub proof fn lemma_first_two_digits_is_prefix(n: nat)
    ensures
        decimal_digits(first_two_digits(n)) == decimal_digits(n).take(
            if decimal_digits(n).len() < 2 { decimal_digits(n).len() as int } else { 2 },
        ),
    decreases n,
{
    if n >= 100 {
        lemma_first_two_digits_is_prefix(n / 10);
        lemma_decimal_digits_len(n / 10);
        let d = decimal_digits(n / 10);
        assert(decimal_digits(n) == d.push(n % 10));
        assert(d.push(n % 10).take(2) =~= d.take(2));
    } else {
        assert(decimal_digits(n).take(decimal_digits(n).len() as int) =~= decimal_digits(n));
        lemma_decimal_digits_len(n);
        if n >= 10 {
            assert(n / 10 < 10);
            assert(decimal_digits(n / 10).len() == 1);
            assert(decimal_digits(n) == decimal_digits(n / 10).push(n % 10));
        }
    }
}

/// Temperature and humidity arrive as integers with two decimal places
/// shifted in (`2502` for 25.02). The value kept is the one written by the
/// first two decimal digits of the raw integer: `2502` gives 25, `999`
/// gives 99, and a value under 100 is kept as it is.
pub fn trim_temp(value: u32) -> (r: u32)
    ensures
        r == first_two_digits(value as nat),
        r < 100,
{
    let mut v: u32 = value;
    while v >= 100
        invariant
            first_two_digits(v as nat) == first_two_digits(value as nat),
        decreases v,
    {
        v = v / 10;
    }
    v
}

/// The raw value of kind `c` in a sensor's state.
pub open spec fn raw_reading(c: Category, st: State) -> Option<u32> {
    match c {
        Category::Temperature => st.temperature,
        Category::Humidity => st.humidity,
        Category::Pressure => st.pressure,
        Category::Lux => st.lux,
    }
}

/// The reading that raw value `v` of kind `c` stands for: temperature and
/// humidity keep their first two digits, pressure and light level are
/// taken as they are.
pub open spec fn scaled(c: Category, v: u32) -> nat {
    match c {
        Category::Temperature | Category::Humidity => first_two_digits(v as nat),
        Category::Pressure | Category::Lux => v as nat,
    }
}

/// Extracts the reading of kind `c` from a sensor's state, or reports that
/// the state lacks it.
pub fn read_value(c: Category, state: &State) -> (r: Result<u32, CycleError>)
    ensures
        raw_reading(c, *state) is None ==> r == Err::<u32, CycleError>(CycleError::MissingField(c)),
        raw_reading(c, *state) matches Some(v) ==> (r matches Ok(x) && x as nat == scaled(c, v)),
{
    let raw = match c {
        Category::Temperature => state.temperature,
        Category::Humidity => state.humidity,
        Category::Pressure => state.pressure,
        Category::Lux => state.lux,
    };
    match raw {
        None => Err(CycleError::MissingField(c)),
        Some(v) => match c {
            Category::Temperature | Category::Humidity => Ok(trim_temp(v)),
            Category::Pressure | Category::Lux => Ok(v),
        },
    }
}

} // verus!
