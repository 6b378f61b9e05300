use wren::ErrorType;
use wren::report::default_error;
use wren::report::format_int;

#[test]
fn compile_errors_carry_module_and_line() {
    let line = default_error(ErrorType::Compile, "main", 3, "Error at 'x': expected ')'");
    assert_eq!(line, Vec::from("[main line 3] Error at 'x': expected ')'".as_bytes()));
}

#[test]
fn runtime_errors_carry_the_message_alone() {
    let line = default_error(ErrorType::Runtime, "", -1, "divide by zero");
    assert_eq!(line, Vec::from("divide by zero".as_bytes()));
}

#[test]
fn stack_frames_name_their_location() {
    let line = default_error(ErrorType::StackTrace, "main", 7, "method f(_)");
    assert_eq!(line, Vec::from("[main line 7] in method f(_)".as_bytes()));
}

#[test]
fn decimal_rendering_is_exact() {
    assert_eq!(format_int(0), Vec::from("0".as_bytes()));
    assert_eq!(format_int(9), Vec::from("9".as_bytes()));
    assert_eq!(format_int(10), Vec::from("10".as_bytes()));
    assert_eq!(format_int(123), Vec::from("123".as_bytes()));
    assert_eq!(format_int(-1), Vec::from("-1".as_bytes()));
    assert_eq!(format_int(2147483647), Vec::from("2147483647".as_bytes()));
    assert_eq!(format_int(-2147483648), Vec::from("-2147483648".as_bytes()));
}
