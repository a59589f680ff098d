use tone_meter::devices::{get_channel_index_from_name, get_channel_indexes_from_channel_names};
use tone_meter::errors::LocalError;

#[test]
fn return_correct_index_from_valid_channel_name() {
    let test_str = "3";
    let expected_result = 2;
    let result = get_channel_index_from_name(test_str).unwrap();
    assert_eq!(result, expected_result);
}

#[test]
fn return_zero_index_from_channel_name_that_produces_a_negative_index() {
    let test_str = "0";
    let expected_result = 0;
    let result = get_channel_index_from_name(test_str).unwrap();
    assert_eq!(result, expected_result);
}

#[test]
fn return_correct_error_from_alpha_channel_name() {
    let test_str = "abc";
    let expected_result = LocalError::ChannelIndex("invalid digit found in string".to_string());
    let result = get_channel_index_from_name(test_str).unwrap_err();
    assert_eq!(result, expected_result);
}

#[test]
fn return_correct_channel_indexes_from_valid_channel_names() {
    let test_left = "2";
    let test_right = Some(3.to_string());
    let (left, right) = get_channel_indexes_from_channel_names(test_left, &test_right).unwrap();
    assert_eq!(left, 1);
    assert_eq!(right, Some(2));
}

#[test]
fn return_correct_channel_indexes_from_only_left_channel_name() {
    let test_left = "2";
    let test_right = None;
    let (left, right) = get_channel_indexes_from_channel_names(test_left, &test_right).unwrap();
    assert_eq!(left, 1);
    assert_eq!(right, None);
}

#[test]
fn return_error_with_empty_string_message_from_empty_channel_name() {
    let expected = LocalError::ChannelIndex("cannot parse integer from empty string".to_string());
    assert_eq!(get_channel_index_from_name("").unwrap_err(), expected);
}

#[test]
fn return_overflow_error_from_oversized_channel_name() {
    let expected =
        LocalError::ChannelIndex("number too large to fit in target type".to_string());
    assert_eq!(
        get_channel_index_from_name("99999999999999999999999999").unwrap_err(),
        expected
    );
}

#[test]
fn return_invalid_digit_error_from_lone_plus_sign() {
    let expected = LocalError::ChannelIndex("invalid digit found in string".to_string());
    assert_eq!(get_channel_index_from_name("+").unwrap_err(), expected);
}

#[test]
fn accept_leading_plus_sign_in_channel_name() {
    assert_eq!(get_channel_index_from_name("+5").unwrap(), 4);
}

#[test]
fn accept_leading_zeros_in_channel_name() {
    assert_eq!(get_channel_index_from_name("007").unwrap(), 6);
}

#[test]
fn accept_the_largest_value_that_fits() {
    let label = usize::MAX.to_string();
    assert_eq!(get_channel_index_from_name(&label).unwrap(), usize::MAX - 1);
}

#[test]
fn reject_the_first_value_that_does_not_fit() {
    let label = "18446744073709551616";
    let expected =
        LocalError::ChannelIndex("number too large to fit in target type".to_string());
    assert_eq!(get_channel_index_from_name(label).unwrap_err(), expected);
}

#[test]
fn report_the_error_a_std_parse_reports() {
    for label in ["", "abc", "+", "-3", "1 2", "4.5", "99999999999999999999999999", "+64"] {
        let ours = get_channel_index_from_name(label);
        let std_parse = label.parse::<usize>();
        match (ours, std_parse) {
            (Ok(index), Ok(value)) => assert_eq!(index, value.saturating_sub(1)),
            (Err(LocalError::ChannelIndex(message)), Err(error)) => {
                assert_eq!(message, error.to_string())
            }
            (ours, std_parse) => panic!("diverged on {:?}: {:?} vs {:?}", label, ours, std_parse),
        }
    }
}

#[test]
fn resolve_every_valid_channel_label_to_the_offset_below_it() {
    for n in 1..=64usize {
        let label = n.to_string();
        let (left, right) =
            get_channel_indexes_from_channel_names(&label, &None).unwrap();
        assert_eq!(left, n - 1);
        assert_eq!(right, None);
    }
}
