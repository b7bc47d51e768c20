use conv1080::protocol::{
    decode_progress, encode_progress, evaluate_message, PollError, ProgressUpdate,
};

#[test]
fn encode_wire_format() {
    assert_eq!(encode_progress(4, 12), "Progress|4|12");
    assert_eq!(encode_progress(0, 1), "Progress|0|1");
    assert_eq!(encode_progress(1234567890, 9876543210), "Progress|1234567890|9876543210");
}

#[test]
fn decode_valid_message() {
    assert_eq!(decode_progress("Progress|7|20"), Ok((7, 20)));
    assert_eq!(decode_progress("Progress|0|0"), Ok((0, 0)));
}

#[test]
fn round_trip_percent_is_exact() {
    let wire = encode_progress(7, 20);
    let update = evaluate_message(wire.as_str()).unwrap();
    assert_eq!(update, ProgressUpdate { processed: 7, total: 20 });
    let percent = update.percent_numerator() as f32 / update.percent_denominator() as f32;
    assert_eq!(percent, 35.0);
}

#[test]
fn wrong_field_count_is_malformed() {
    assert_eq!(decode_progress("Progress|1"), Err(PollError::MalformedMessage));
    assert_eq!(decode_progress("Progress|1|2|3"), Err(PollError::MalformedMessage));
    assert_eq!(decode_progress(""), Err(PollError::MalformedMessage));
    assert_eq!(decode_progress("Progress"), Err(PollError::MalformedMessage));
}

#[test]
fn wrong_tag_is_malformed() {
    assert_eq!(decode_progress("Hello|1|2"), Err(PollError::MalformedMessage));
    assert_eq!(decode_progress("progress|1|2"), Err(PollError::MalformedMessage));
}

#[test]
fn non_numeric_field_is_reported() {
    assert_eq!(evaluate_message("Progress|x|10"), Err(PollError::NonNumericField));
    assert_eq!(evaluate_message("Progress|1|y"), Err(PollError::NonNumericField));
    assert_eq!(evaluate_message("Progress||10"), Err(PollError::NonNumericField));
    assert_eq!(evaluate_message("Progress|-1|10"), Err(PollError::NonNumericField));
    assert_eq!(evaluate_message("Progress|+1|10"), Err(PollError::NonNumericField));
}

#[test]
fn oversized_field_is_non_numeric() {
    assert_eq!(evaluate_message("Progress|99999999999|10"), Err(PollError::NonNumericField));
    assert_eq!(evaluate_message("Progress|4294967296|10"), Err(PollError::NonNumericField));
    assert_eq!(
        evaluate_message("Progress|4294967295|4294967295"),
        Ok(ProgressUpdate { processed: 4294967295, total: 4294967295 })
    );
}

#[test]
fn zero_total_is_a_defined_error() {
    assert_eq!(evaluate_message("Progress|3|0"), Err(PollError::ZeroTotal));
    assert_eq!(evaluate_message("Progress|0|0"), Err(PollError::ZeroTotal));
}
