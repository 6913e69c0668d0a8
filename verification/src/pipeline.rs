//! The two fallible stages and their composition.
//!
//! The Fizz stage rejects multiples of 3 and otherwise adds 3; the Buzz
//! stage rejects multiples of 5 and otherwise adds 5. The pipeline runs
//! Fizz first and hands its successful value to Buzz; the first failure
//! short-circuits the rest.

use vstd::prelude::*;

verus! {

/// The two ways a stage can fail. A failure carries nothing beyond its tag.
#[derive(Clone, Copy, Debug, PartialEq, Eq, Structural)]
pub enum StageError {
    Fizz,
    Buzz,
}

/// What the Fizz stage returns: rejects multiples of 3, otherwise adds 3.
pub open spec fn spec_fizz(n: int) -> Result<int, StageError> {
    if n % 3 == 0 {
        Err(StageError::Fizz)
    } else {
        Ok(n + 3)
    }
}

/// What the Buzz stage returns: rejects multiples of 5, otherwise adds 5.
pub open spec fn spec_buzz(n: int) -> Result<int, StageError> {
    if n % 5 == 0 {
        Err(StageError::Buzz)
    } else {
        Ok(n + 5)
    }
}

/// Widens a machine-level stage result to the mathematical model.
pub open spec fn widen_result(r: Result<i32, StageError>) -> Result<int, StageError> {
    match r {
        Ok(v) => Ok(v as int),
        Err(e) => Err(e),
    }
}

/// The Fizz stage: fails on every multiple of 3, otherwise returns `num + 3`.
pub fn fizz(num: i32) -> (r: Result<i32, StageError>)
    requires
        num % 3 != 0 ==> num + 3 <= i32::MAX,
    ensures
        widen_result(r) == spec_fizz(num as int),
{
    if num % 3 == 0 {
        Err(StageError::Fizz)
    } else {
        Ok(num + 3)
    }
}

/// The Buzz stage: fails on every multiple of 5, otherwise returns `num + 5`.
pub fn buzz(num: i32) -> (r: Result<i32, StageError>)
    requires
        num % 5 != 0 ==> num + 5 <= i32::MAX,
    ensures
        widen_result(r) == spec_buzz(num as int),
{
    if num % 5 == 0 {
        Err(StageError::Buzz)
    } else {
        Ok(num + 5)
    }
}

/// What the whole pipeline returns: Fizz first, then Buzz on Fizz's
/// successful value; the first failure propagates unchanged.
pub open spec fn spec_fizzbuzz(n: int) -> Result<int, StageError> {
    match spec_fizz(n) {
        Ok(m) => spec_buzz(m),
        Err(e) => Err(e),
    }
}

/// The pipeline: runs the Fizz stage, and on success hands its value to
/// the Buzz stage; a Fizz failure short-circuits the Buzz stage.
pub fn fizzbuzz(num: i32) -> (r: Result<i32, StageError>)
    requires
        num % 3 != 0 ==> num + 3 <= i32::MAX,
        num % 3 != 0 && (num + 3) % 5 != 0 ==> num + 8 <= i32::MAX,
    ensures
        widen_result(r) == spec_fizzbuzz(num as int),
{
    match fizz(num) {
        Ok(m) => buzz(m),
        Err(e) => Err(e),
    }
}

/// The tag under which each failure is reported.
pub open spec fn spec_tag(e: StageError) -> Seq<char> {
    match e {
        StageError::Fizz => "fizz"@,
        StageError::Buzz => "buzz"@,
    }
}

impl StageError {
    /// The literal tag under which this failure is reported.
    pub fn tag(&self) -> (r: String)
        ensures
            r@ == spec_tag(*self),
    {
        match self {
            StageError::Fizz => "fizz".to_string(),
            StageError::Buzz => "buzz".to_string(),
        }
    }
}

/// A multiple of 3 always fails as `Fizz`, whether or not it is also a
/// multiple of 5: the Fizz stage runs first and short-circuits the rest.
pub proof fn lemma_fizz_precedence(n: int)
    requires
        n % 3 == 0,
    ensures
        spec_fizzbuzz(n) == Err::<int, StageError>(StageError::Fizz),
{
}

/// Exhaustive case analysis of the pipeline: a multiple of 3 fails as
/// `Fizz`; any other input whose Fizz value `n + 3` is a multiple of 5
/// fails as `Buzz`; every remaining input succeeds with `n + 3 + 5`.
pub proof fn lemma_pipeline_cases(n: int)
    ensures
        n % 3 == 0 ==> spec_fizzbuzz(n) == Err::<int, StageError>(StageError::Fizz),
        n % 3 != 0 && (n + 3) % 5 == 0 ==> spec_fizzbuzz(n) == Err::<int, StageError>(
            StageError::Buzz,
        ),
        n % 3 != 0 && (n + 3) % 5 != 0 ==> spec_fizzbuzz(n) == Ok::<int, StageError>(n + 8),
{
}

/// An input that neither stage rejects succeeds with `n + 3 + 5`. The
/// Buzz stage examines the Fizz stage's value `n + 3`, so the premise on
/// multiples of 5 speaks of that value as well as of `n` itself.
pub proof fn lemma_pipeline_success(n: int)
    requires
        n % 3 != 0,
        n % 5 != 0,
        (n + 3) % 5 != 0,
    ensures
        spec_fizzbuzz(n) == Ok::<int, StageError>(n + 8),
{
}

/// The pipeline is pure: its result is a function of the input alone, so
/// any two results obtained for one input are equal.
pub proof fn lemma_pipeline_deterministic(
    n: int,
    r1: Result<int, StageError>,
    r2: Result<int, StageError>,
)
    requires
        r1 == spec_fizzbuzz(n),
        r2 == spec_fizzbuzz(n),
    ensures
        r1 == r2,
{
}

} // verus!
