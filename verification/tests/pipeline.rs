use fizz_propagate::driver::run_pipeline;
use fizz_propagate::pipeline::buzz;
use fizz_propagate::pipeline::fizz;
use fizz_propagate::pipeline::fizzbuzz;
use fizz_propagate::pipeline::StageError;

#[test]
fn fizz_accepts_and_adds_three() {
    assert_eq!(fizz(1), Ok(4));
    assert_eq!(fizz(4), Ok(7));
    assert_eq!(fizz(-2), Ok(1));
}

#[test]
fn fizz_rejects_multiples_of_three() {
    assert_eq!(fizz(0), Err(StageError::Fizz));
    assert_eq!(fizz(6), Err(StageError::Fizz));
    assert_eq!(fizz(-9), Err(StageError::Fizz));
}

#[test]
fn buzz_accepts_and_adds_five() {
    assert_eq!(buzz(4), Ok(9));
    assert_eq!(buzz(8), Ok(13));
    assert_eq!(buzz(-3), Ok(2));
}

#[test]
fn buzz_rejects_multiples_of_five() {
    assert_eq!(buzz(0), Err(StageError::Buzz));
    assert_eq!(buzz(10), Err(StageError::Buzz));
    assert_eq!(buzz(-15), Err(StageError::Buzz));
}

#[test]
fn pipeline_concrete_cases() {
    assert_eq!(fizzbuzz(1), Ok(9));
    assert_eq!(fizzbuzz(3), Err(StageError::Fizz));
    assert_eq!(fizzbuzz(15), Err(StageError::Fizz));
    // The Buzz stage examines the Fizz stage's value `n + 3`, so 5 sails
    // through (5 + 3 = 8 is no multiple of 5) while 7 is rejected
    // (7 + 3 = 10 is one).
    assert_eq!(fizzbuzz(5), Ok(13));
    assert_eq!(fizzbuzz(7), Err(StageError::Buzz));
}

#[test]
fn pipeline_fizz_takes_precedence() {
    // Multiples of 3 fail as Fizz even when the Buzz stage would also
    // have rejected their Fizz value.
    assert_eq!(fizzbuzz(12), Err(StageError::Fizz));
    assert_eq!(fizzbuzz(27), Err(StageError::Fizz));
    assert_eq!(fizzbuzz(30), Err(StageError::Fizz));
    assert_eq!(fizzbuzz(-3), Err(StageError::Fizz));
}

#[test]
fn pipeline_buzz_failures() {
    // Inputs two below a multiple of 5: their Fizz value is a multiple of 5.
    assert_eq!(fizzbuzz(2), Err(StageError::Buzz));
    assert_eq!(fizzbuzz(22), Err(StageError::Buzz));
}

#[test]
fn pipeline_successes_add_eight() {
    assert_eq!(fizzbuzz(11), Ok(19));
    assert_eq!(fizzbuzz(41), Ok(49));
    assert_eq!(fizzbuzz(-1), Ok(7));
}

#[test]
fn pipeline_at_the_integer_edges() {
    // The largest input whose success value still fits in an i32.
    assert_eq!(fizzbuzz(2147483639), Ok(2147483647));
    // The smallest input: its Fizz value -2147483645 is a multiple of 5.
    assert_eq!(fizzbuzz(i32::MIN), Err(StageError::Buzz));
}

#[test]
fn pipeline_is_deterministic() {
    assert_eq!(fizzbuzz(41), fizzbuzz(41));
    assert_eq!(fizzbuzz(3), fizzbuzz(3));
    assert_eq!(fizzbuzz(7), fizzbuzz(7));
}

#[test]
fn error_tags() {
    assert_eq!(StageError::Fizz.tag(), "fizz");
    assert_eq!(StageError::Buzz.tag(), "buzz");
}

#[test]
fn driver_covers_the_whole_range() {
    let results = run_pipeline();
    assert_eq!(results.len(), 99);
    for (j, r) in results.iter().enumerate() {
        let i = j as i32 + 1;
        let expected = if i % 3 == 0 {
            Err(StageError::Fizz)
        } else if (i + 3) % 5 == 0 {
            Err(StageError::Buzz)
        } else {
            Ok(i + 8)
        };
        assert_eq!(*r, expected);
    }
}

#[test]
fn driver_results_in_ascending_input_order() {
    let results = run_pipeline();
    assert_eq!(results[0], Ok(9));
    assert_eq!(results[2], Err(StageError::Fizz));
    assert_eq!(results[4], Ok(13));
    assert_eq!(results[6], Err(StageError::Buzz));
    assert_eq!(results[14], Err(StageError::Fizz));
    assert_eq!(results[98], Err(StageError::Fizz));
}
