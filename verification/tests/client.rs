use wgslsmith::harness::client::{exit_code_of, parse_i32, request_text};

#[test]
fn request_carries_metadata_length_and_shader() {
    assert_eq!(request_text("fn main() {}", "{}"), "{}\n12\nfn main() {}\n");
    // the length is in bytes
    assert_eq!(request_text("é", "m"), "m\n2\né\n");
}

#[test]
fn integers_are_read_as_str_parse_reads_them() {
    for s in ["0", "-5", "+7", "-+5", "+-5", "", "-", "+", "2147483647", "2147483648", "-2147483648", "-2147483649", "1a", " 1"] {
        assert_eq!(parse_i32(s), s.parse::<i32>().ok(), "input {s:?}");
    }
}

#[test]
fn exit_code_ignores_surrounding_white_space() {
    assert_eq!(exit_code_of(" 101\n"), Some(101));
    assert_eq!(exit_code_of("1\r\n"), Some(1));
    assert_eq!(exit_code_of("x\n"), None);
}
