use teleton::download::parse_range_header;

#[test]
fn start_only() {
    assert_eq!(parse_range_header("bytes=0-".to_string()), (0, 0));
    assert_eq!(parse_range_header("bytes=123456-".to_string()), (123456, 0));
}

#[test]
fn start_and_end() {
    assert_eq!(parse_range_header("bytes=0-1".to_string()), (0, 1));
    assert_eq!(parse_range_header("bytes=1234-5678".to_string()), (1234, 5678));
}

#[test]
fn garbage_parses_as_zero_pair() {
    assert_eq!(parse_range_header("garbage".to_string()), (0, 0));
    assert_eq!(parse_range_header("".to_string()), (0, 0));
    assert_eq!(parse_range_header("bytes".to_string()), (0, 0));
    assert_eq!(parse_range_header("bytes=".to_string()), (0, 0));
    assert_eq!(parse_range_header("bytes=-5".to_string()), (0, 0));
    assert_eq!(parse_range_header("items=3-9".to_string()), (0, 0));
}

#[test]
fn stray_characters_fall_back_to_zero() {
    assert_eq!(parse_range_header("bytes=12a-34".to_string()), (0, 34));
    assert_eq!(parse_range_header("bytes=12-3x4".to_string()), (12, 0));
    assert_eq!(parse_range_header("bytes=+10-20".to_string()), (10, 20));
}

#[test]
fn overflowing_number_falls_back_to_zero() {
    assert_eq!(
        parse_range_header("bytes=99999999999999999999999999-7".to_string()),
        (0, 7)
    );
}
