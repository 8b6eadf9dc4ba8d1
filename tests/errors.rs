use gal_errors::{decimal_string, error_line, error_string, legacy_message, Error, ErrorCode};

fn report(code: ErrorCode, line: u32) -> String {
    error_line(Error { code, line })
}

#[test]
fn every_named_kind_has_its_message() {
    let expected: Vec<(ErrorCode, &str)> = vec![
        (ErrorCode::ARSP_AS_PIN_NAME, "GAL22V10: AR and SP is not allowed as pinname"),
        (ErrorCode::ARSP_SUFFIX, "AR, SP: no suffix allowed"),
        (ErrorCode::BAD_ARSP, "use of AR and SP is not allowed in equations"),
        (ErrorCode::BAD_NC, "NC (Not Connected) is not allowed in logic equations"),
        (ErrorCode::BAD_CHAR, "bad character in input"),
        (ErrorCode::BAD_EOF, "unexpected end of file"),
        (ErrorCode::BAD_GAL_TYPE, "Line  1: type of GAL expected"),
        (ErrorCode::BAD_PIN, "illegal character in pin declaration"),
        (ErrorCode::BAD_PIN_COUNT, "wrong number of pins"),
        (ErrorCode::BAD_POWER, "use of VCC and GND is not allowed in equations"),
        (ErrorCode::BAD_SUFFIX, "unknown suffix found"),
        (ErrorCode::BAD_TOKEN, "unexpected token"),
        (ErrorCode::INVERTED_ARSP, "negation of AR and SP is not allowed"),
        (ErrorCode::INVALID_CONTROL, "use of .CLK, .ARST, .APRST only allowed for registered outputs"),
        (ErrorCode::INVERTED_CONTROL, ".E, .CLK, .ARST and .APRST is not allowed to be negated"),
        (ErrorCode::INVERTED_POWER, "use GND, VCC instead of /VCC, /GND"),
        (ErrorCode::NOT_AN_INPUT, "pin not allowed in equations"),
        (ErrorCode::NOT_AN_OUTPUT, "this pin can't be used as output"),
        (ErrorCode::NO_CLK, "missing clock definition (.CLK) of registered output"),
        (ErrorCode::NO_PIN_NAME, "pinname expected after '/'"),
        (ErrorCode::NO_EQUALS, "'=' expected"),
        (ErrorCode::PREMATURE_APRST, "before using .APRST the output must be defined"),
        (ErrorCode::PREMATURE_ARST, "before using .ARST, the output must be defined"),
        (ErrorCode::PREMATURE_CLK, "before using .CLK, the output must be defined"),
        (ErrorCode::PREMATURE_ENABLE, "before using .E, the output must be defined"),
        (ErrorCode::REPEATED_APRST, "several .APRST definitions for the same output found"),
        (ErrorCode::REPEATED_ARST, "several .ARST definitions for the same output found"),
        (ErrorCode::REPEATED_AR_SP, "AR or SP is defined twice"),
        (ErrorCode::REPEATED_CLK, "several .CLK definitions for the same output found"),
        (ErrorCode::REPEATED_OUTPUT, "same pin is defined multible as output"),
        (ErrorCode::REPEATED_TRISTATE, "tristate control is defined twice"),
        (ErrorCode::TOO_MANY_PRODUCTS, "too many product terms"),
        (ErrorCode::TRISTATE_REG, "GAL16V8/20V8: tri. control for reg. output is not allowed"),
        (ErrorCode::UNKNOWN_PIN, "unknown pinname"),
        (ErrorCode::UNMATCHED_TRISTATE, "tristate control without previous '.T'"),
    ];
    assert_eq!(expected.len(), 35);
    for (code, text) in expected {
        let got = error_string(code);
        assert!(!got.is_empty());
        assert_eq!(got, text);
    }
}

#[test]
fn legacy_table_is_verbatim_and_ordered() {
    let expected: Vec<&str> = vec![
        "error in source file found",
        "Line  1: type of GAL expected",
        "unexpected end of file",
        "pinname expected after '/'",
        "max. length of pinname is 8 characters",
        "illegal character in pin declaration",
        "illegal VCC/GND assignment",
        "pin declaration: expected VCC at VCC pin",
        "pin declaration: expected GND at GND pin",
        "pinname defined twice",
        "illegal use of '/'",
        "unknown pinname",
        "NC (Not Connected) is not allowed in logic equations",
        "unknown suffix found",
        "'=' expected",
        "this pin can't be used as output",
        "same pin is defined multible as output",
        "before using .E, the output must be defined",
        "GAL22V10: AR and SP is not allowed as pinname",
        ".E, .CLK, .ARST and .APRST is not allowed to be negated",
        "mode 2: pins 12, 19 can't be used as input",
        "mode 2: pins 15, 22 can't be used as input",
        "tristate control is defined twice",
        "GAL16V8/20V8: tri. control for reg. output is not allowed",
        "tristate control without previous '.T'",
        "use GND, VCC instead of /VCC, /GND",
        "pin not allowed in equations",
        "mode 3: pins 1,13 are reserved for 'Clock' and '/OE'",
        "use of VCC and GND is not allowed in equations",
        "only one product term allowed (no OR)",
        "too many product terms",
        "use of AR and SP is not allowed in equations",
        "negation of AR and SP is not allowed",
        "no equations found",
        ".CLK is not allowed when this type of GAL is used",
        ".ARST is not allowed when this type of GAL is used",
        ".APRST is not allowed when this type of GAL is used",
        "GAL20RA10: pin 1 can't be used in equations",
        "GAL20RA10: pin 13 can't be used in equations",
        "AR, SP: no suffix allowed",
        "AR or SP is defined twice",
        "missing clock definition (.CLK) of registered output",
        "before using .CLK, the output must be defined",
        "before using .ARST, the output must be defined",
        "before using .APRST the output must be defined",
        "several .CLK definitions for the same output found",
        "several .ARST definitions for the same output found",
        "several .APRST definitions for the same output found",
        "use of .CLK, .ARST, .APRST only allowed for registered outputs",
    ];
    assert_eq!(expected.len(), 49);
    for (i, text) in expected.iter().enumerate() {
        assert_eq!(legacy_message(i), *text);
        assert_eq!(error_string(ErrorCode::Code(i as i32)), *text);
    }
}

#[test]
fn legacy_positions_are_bounded() {
    assert!(ErrorCode::Code(0).is_valid());
    assert!(ErrorCode::Code(48).is_valid());
    assert!(!ErrorCode::Code(49).is_valid());
    assert!(!ErrorCode::Code(-1).is_valid());
    assert!(!ErrorCode::Code(i32::MAX).is_valid());
    assert!(!ErrorCode::Code(i32::MIN).is_valid());
    assert!(ErrorCode::BAD_EOF.is_valid());
    assert!(ErrorCode::UNMATCHED_TRISTATE.is_valid());
}

#[test]
fn named_and_legacy_agree() {
    let pairs: Vec<(ErrorCode, i32)> = vec![
        (ErrorCode::ARSP_AS_PIN_NAME, 18),
        (ErrorCode::ARSP_SUFFIX, 39),
        (ErrorCode::BAD_ARSP, 31),
        (ErrorCode::BAD_NC, 12),
        (ErrorCode::BAD_EOF, 2),
        (ErrorCode::BAD_GAL_TYPE, 1),
        (ErrorCode::BAD_PIN, 5),
        (ErrorCode::BAD_POWER, 28),
        (ErrorCode::BAD_SUFFIX, 13),
        (ErrorCode::INVERTED_ARSP, 32),
        (ErrorCode::INVALID_CONTROL, 48),
        (ErrorCode::INVERTED_CONTROL, 19),
        (ErrorCode::INVERTED_POWER, 25),
        (ErrorCode::NOT_AN_INPUT, 26),
        (ErrorCode::NOT_AN_OUTPUT, 15),
        (ErrorCode::NO_CLK, 41),
        (ErrorCode::NO_PIN_NAME, 3),
        (ErrorCode::NO_EQUALS, 14),
        (ErrorCode::PREMATURE_APRST, 44),
        (ErrorCode::PREMATURE_ARST, 43),
        (ErrorCode::PREMATURE_CLK, 42),
        (ErrorCode::PREMATURE_ENABLE, 17),
        (ErrorCode::REPEATED_APRST, 47),
        (ErrorCode::REPEATED_ARST, 46),
        (ErrorCode::REPEATED_AR_SP, 40),
        (ErrorCode::REPEATED_CLK, 45),
        (ErrorCode::REPEATED_OUTPUT, 16),
        (ErrorCode::REPEATED_TRISTATE, 22),
        (ErrorCode::TOO_MANY_PRODUCTS, 30),
        (ErrorCode::TRISTATE_REG, 23),
        (ErrorCode::UNKNOWN_PIN, 11),
        (ErrorCode::UNMATCHED_TRISTATE, 24),
    ];
    for (code, i) in pairs {
        assert_eq!(error_string(code), error_string(ErrorCode::Code(i)));
        assert_eq!(report(code, 3), report(ErrorCode::Code(i), 3));
    }
}

#[test]
fn named_only_messages() {
    assert_eq!(error_string(ErrorCode::BAD_CHAR), "bad character in input");
    assert_eq!(error_string(ErrorCode::BAD_PIN_COUNT), "wrong number of pins");
    assert_eq!(error_string(ErrorCode::BAD_TOKEN), "unexpected token");
}

#[test]
fn report_named_eof() {
    assert_eq!(report(ErrorCode::BAD_EOF, 7), "Error in line 7: unexpected end of file");
}

#[test]
fn report_legacy_keeps_double_space() {
    assert_eq!(
        report(ErrorCode::Code(1), 1),
        "Error in line 1: Line  1: type of GAL expected"
    );
}

#[test]
fn report_keeps_misspelling() {
    assert_eq!(
        report(ErrorCode::REPEATED_OUTPUT, 42),
        "Error in line 42: same pin is defined multible as output"
    );
}

#[test]
fn report_last_legacy_position() {
    assert_eq!(
        report(ErrorCode::Code(48), 1000),
        "Error in line 1000: use of .CLK, .ARST, .APRST only allowed for registered outputs"
    );
}

#[test]
fn report_largest_line() {
    assert_eq!(
        report(ErrorCode::BAD_TOKEN, u32::MAX),
        "Error in line 4294967295: unexpected token"
    );
}

#[test]
fn report_twice_is_identical() {
    let err = Error { code: ErrorCode::NO_CLK, line: 19 };
    let first = error_line(err);
    let second = error_line(err);
    assert_eq!(first, second);
    assert_eq!(
        first,
        "Error in line 19: missing clock definition (.CLK) of registered output"
    );
}

#[test]
fn decimal_rendering() {
    assert_eq!(decimal_string(0), "0");
    assert_eq!(decimal_string(9), "9");
    assert_eq!(decimal_string(10), "10");
    assert_eq!(decimal_string(305), "305");
    assert_eq!(decimal_string(u32::MAX), "4294967295");
}
