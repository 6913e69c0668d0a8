//! The driver: runs the pipeline over the fixed input range and renders
//! one output line per input.

use crate::decimal::i32_decimal;
use crate::decimal::spec_signed_decimal;
use crate::pipeline::{fizzbuzz, spec_fizzbuzz, spec_tag, widen_result, StageError};
use vstd::prelude::*;
use vstd::string::StringExecFns;

verus! {

/// Runs the pipeline on each of the 99 inputs 1 through 99 inclusive and
/// collects one result per input, in ascending input order: the result at
/// position `j` belongs to the input `j + 1`.
pub fn run_pipeline() -> (results: Vec<Result<i32, StageError>>)
    ensures
        results@.len() == 99,
        forall|j: int|
            0 <= j < 99 ==> widen_result(#[trigger] results@[j]) == spec_fizzbuzz(j + 1),
{
    let mut results: Vec<Result<i32, StageError>> = Vec::new();
    let mut i: i32 = 1;
    while i < 100
        invariant
            1 <= i <= 100,
            results@.len() == i - 1,
            forall|j: int|
                0 <= j < i - 1 ==> widen_result(#[trigger] results@[j]) == spec_fizzbuzz(j + 1),
        decreases 100 - i,
    {
        results.push(fizzbuzz(i));
        i = i + 1;
    }
    results
}

/// One output line: the input, then either its transformed value or the
/// tag of its failure behind an error marker.
pub open spec fn spec_line(i: int, r: Result<int, StageError>) -> Seq<char> {
    match r {
        Ok(v) => spec_signed_decimal(i) + " => "@ + spec_signed_decimal(v),
        Err(e) => spec_signed_decimal(i) + " => Error: "@ + spec_tag(e),
    }
}

/// Renders the output line for one input and its pipeline result.
pub fn render_line(i: i32, r: &Result<i32, StageError>) -> (line: String)
    ensures
        line@ == spec_line(i as int, widen_result(*r)),
{
    let mut line = i32_decimal(i);
    match r {
        Ok(v) => {
            line.append(" => ");
            let value = i32_decimal(*v);
            line.append(value.as_str());
        },
        Err(e) => {
            line.append(" => Error: ");
            let t = e.tag();
            line.append(t.as_str());
        },
    }
    line
}

/// Runs the pipeline on each of the 99 inputs 1 through 99 inclusive and
/// renders one output line per input, in ascending input order: the line
/// at position `j` belongs to the input `j + 1`.
pub fn run_lines() -> (lines: Vec<String>)
    ensures
        lines@.len() == 99,
        forall|j: int|
            0 <= j < 99 ==> (#[trigger] lines@[j])@ == spec_line(j + 1, spec_fizzbuzz(j + 1)),
{
    let mut lines: Vec<String> = Vec::new();
    let mut i: i32 = 1;
    while i < 100
        invariant
            1 <= i <= 100,
            lines@.len() == i - 1,
            forall|j: int|
                0 <= j < i - 1 ==> (#[trigger] lines@[j])@ == spec_line(j + 1, spec_fizzbuzz(j + 1)),
        decreases 100 - i,
    {
        let r = fizzbuzz(i);
        lines.push(render_line(i, &r));
        i = i + 1;
    }
    lines
}

} // verus!
