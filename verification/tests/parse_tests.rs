use ramdis::parse::parse_index;

#[test]
fn parses_zero_and_plain_numbers() {
    assert_eq!(parse_index(&vec!['0']), Some(0));
    assert_eq!(parse_index(&vec!['4', '2']), Some(42));
}

#[test]
fn leading_zeroes_are_accepted() {
    assert_eq!(parse_index(&vec!['0', '0', '7']), Some(7));
}

#[test]
fn empty_input_is_rejected() {
    assert_eq!(parse_index(&Vec::new()), None);
}

#[test]
fn non_digit_is_rejected() {
    assert_eq!(parse_index(&vec!['1', '2', 'a']), None);
    assert_eq!(parse_index(&vec!['-', '1']), None);
}

#[test]
fn value_past_machine_word_is_rejected() {
    let huge: Vec<char> = "99999999999999999999999999".chars().collect();
    assert_eq!(parse_index(&huge), None);
}

#[test]
fn largest_value_parses() {
    let max: Vec<char> = usize::MAX.to_string().chars().collect();
    assert_eq!(parse_index(&max), Some(usize::MAX));
}
