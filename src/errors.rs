use vstd::prelude::*;

verus! {

/// Number of messages in the legacy table, addressed by position `0..49`.
pub const LEGACY_COUNT: usize = 49;

/// An error found while compiling a PLD description: its kind and the 1-based
/// source line at which it was detected.
#[derive(Clone, Copy, Debug)]
pub struct Error {
    pub code: ErrorCode,
    pub line: u32,
}

/// The closed set of error kinds. `Code(i)` addresses position `i` of the
/// legacy message table; every other variant names one rule violation.
#[allow(non_camel_case_types)]
#[derive(Clone, Copy, Debug)]
pub enum ErrorCode {
    Code(i32),
    ARSP_SUFFIX,
    ARSP_AS_PIN_NAME,
    BAD_ARSP,
    BAD_CHAR,
    BAD_EOF,
    BAD_NC,
    BAD_PIN,
    BAD_PIN_COUNT,
    BAD_POWER,
    BAD_GAL_TYPE,
    BAD_SUFFIX,
    BAD_TOKEN,
    INVALID_CONTROL,
    INVERTED_ARSP,
    INVERTED_CONTROL,
    INVERTED_POWER,
    NOT_AN_INPUT,
    NOT_AN_OUTPUT,
    NO_CLK,
    NO_EQUALS,
    NO_PIN_NAME,
    PREMATURE_APRST,
    PREMATURE_ARST,
    PREMATURE_CLK,
    PREMATURE_ENABLE,
    REPEATED_APRST,
    REPEATED_ARST,
    REPEATED_AR_SP,
    REPEATED_CLK,
    REPEATED_OUTPUT,
    REPEATED_TRISTATE,
    TOO_MANY_PRODUCTS,
    TRISTATE_REG,
    UNKNOWN_PIN,
    UNMATCHED_TRISTATE,
}

/// The legacy message at position `i` (meaningful for `0 <= i < 49`).
pub open spec fn legacy_text(i: int) -> Seq<char> {
    if i == 0 {
        "error in source file found"@
    } else if i == 1 {
        "Line  1: type of GAL expected"@
    } else if i == 2 {
        "unexpected end of file"@
    } else if i == 3 {
        "pinname expected after '/'"@
    } else if i == 4 {
        "max. length of pinname is 8 characters"@
    } else if i == 5 {
        "illegal character in pin declaration"@
    } else if i == 6 {
        "illegal VCC/GND assignment"@
    } else if i == 7 {
        "pin declaration: expected VCC at VCC pin"@
    } else if i == 8 {
        "pin declaration: expected GND at GND pin"@
    } else if i == 9 {
        "pinname defined twice"@
    } else if i == 10 {
        "illegal use of '/'"@
    } else if i == 11 {
        "unknown pinname"@
    } else if i == 12 {
        "NC (Not Connected) is not allowed in logic equations"@
    } else if i == 13 {
        "unknown suffix found"@
    } else if i == 14 {
        "'=' expected"@
    } else if i == 15 {
        "this pin can't be used as output"@
    } else if i == 16 {
        "same pin is defined multible as output"@
    } else if i == 17 {
        "before using .E, the output must be defined"@
    } else if i == 18 {
        "GAL22V10: AR and SP is not allowed as pinname"@
    } else if i == 19 {
        ".E, .CLK, .ARST and .APRST is not allowed to be negated"@
    } else if i == 20 {
        "mode 2: pins 12, 19 can't be used as input"@
    } else if i == 21 {
        "mode 2: pins 15, 22 can't be used as input"@
    } else if i == 22 {
        "tristate control is defined twice"@
    } else if i == 23 {
        "GAL16V8/20V8: tri. control for reg. output is not allowed"@
    } else if i == 24 {
        "tristate control without previous '.T'"@
    } else if i == 25 {
        "use GND, VCC instead of /VCC, /GND"@
    } else if i == 26 {
        "pin not allowed in equations"@
    } else if i == 27 {
        "mode 3: pins 1,13 are reserved for 'Clock' and '/OE'"@
    } else if i == 28 {
        "use of VCC and GND is not allowed in equations"@
    } else if i == 29 {
        "only one product term allowed (no OR)"@
    } else if i == 30 {
        "too many product terms"@
    } else if i == 31 {
        "use of AR and SP is not allowed in equations"@
    } else if i == 32 {
        "negation of AR and SP is not allowed"@
    } else if i == 33 {
        "no equations found"@
    } else if i == 34 {
        ".CLK is not allowed when this type of GAL is used"@
    } else if i == 35 {
        ".ARST is not allowed when this type of GAL is used"@
    } else if i == 36 {
        ".APRST is not allowed when this type of GAL is used"@
    } else if i == 37 {
        "GAL20RA10: pin 1 can't be used in equations"@
    } else if i == 38 {
        "GAL20RA10: pin 13 can't be used in equations"@
    } else if i == 39 {
        "AR, SP: no suffix allowed"@
    } else if i == 40 {
        "AR or SP is defined twice"@
    } else if i == 41 {
        "missing clock definition (.CLK) of registered output"@
    } else if i == 42 {
        "before using .CLK, the output must be defined"@
    } else if i == 43 {
        "before using .ARST, the output must be defined"@
    } else if i == 44 {
        "before using .APRST the output must be defined"@
    } else if i == 45 {
        "several .CLK definitions for the same output found"@
    } else if i == 46 {
        "several .ARST definitions for the same output found"@
    } else if i == 47 {
        "several .APRST definitions for the same output found"@
    } else {
        "use of .CLK, .ARST, .APRST only allowed for registered outputs"@
    }
}

/// The legacy message table: 49 messages in their fixed order.
pub open spec fn legacy_table() -> Seq<Seq<char>> {
    Seq::new(LEGACY_COUNT as nat, |i: int| legacy_text(i))
}

/// The message of a named (non-`Code`) error kind.
pub open spec fn named_text(code: ErrorCode) -> Seq<char> {
    match code {
        ErrorCode::Code(_) => Seq::empty(),
        ErrorCode::ARSP_AS_PIN_NAME => "GAL22V10: AR and SP is not allowed as pinname"@,
        ErrorCode::ARSP_SUFFIX => "AR, SP: no suffix allowed"@,
        ErrorCode::BAD_ARSP => "use of AR and SP is not allowed in equations"@,
        ErrorCode::BAD_NC => "NC (Not Connected) is not allowed in logic equations"@,
        ErrorCode::BAD_CHAR => "bad character in input"@,
        ErrorCode::BAD_EOF => "unexpected end of file"@,
        ErrorCode::BAD_GAL_TYPE => "Line  1: type of GAL expected"@,
        ErrorCode::BAD_PIN => "illegal character in pin declaration"@,
        ErrorCode::BAD_PIN_COUNT => "wrong number of pins"@,
        ErrorCode::BAD_POWER => "use of VCC and GND is not allowed in equations"@,
        ErrorCode::BAD_SUFFIX => "unknown suffix found"@,
        ErrorCode::BAD_TOKEN => "unexpected token"@,
        ErrorCode::INVERTED_ARSP => "negation of AR and SP is not allowed"@,
        ErrorCode::INVALID_CONTROL => "use of .CLK, .ARST, .APRST only allowed for registered outputs"@,
        ErrorCode::INVERTED_CONTROL => ".E, .CLK, .ARST and .APRST is not allowed to be negated"@,
        ErrorCode::INVERTED_POWER => "use GND, VCC instead of /VCC, /GND"@,
        ErrorCode::NOT_AN_INPUT => "pin not allowed in equations"@,
        ErrorCode::NOT_AN_OUTPUT => "this pin can't be used as output"@,
        ErrorCode::NO_CLK => "missing clock definition (.CLK) of registered output"@,
        ErrorCode::NO_PIN_NAME => "pinname expected after '/'"@,
        ErrorCode::NO_EQUALS => "'=' expected"@,
        ErrorCode::PREMATURE_APRST => "before using .APRST the output must be defined"@,
        ErrorCode::PREMATURE_ARST => "before using .ARST, the output must be defined"@,
        ErrorCode::PREMATURE_CLK => "before using .CLK, the output must be defined"@,
        ErrorCode::PREMATURE_ENABLE => "before using .E, the output must be defined"@,
        ErrorCode::REPEATED_APRST => "several .APRST definitions for the same output found"@,
        ErrorCode::REPEATED_ARST => "several .ARST definitions for the same output found"@,
        ErrorCode::REPEATED_AR_SP => "AR or SP is defined twice"@,
        ErrorCode::REPEATED_CLK => "several .CLK definitions for the same output found"@,
        ErrorCode::REPEATED_OUTPUT => "same pin is defined multible as output"@,
        ErrorCode::REPEATED_TRISTATE => "tristate control is defined twice"@,
        ErrorCode::TOO_MANY_PRODUCTS => "too many product terms"@,
        ErrorCode::TRISTATE_REG => "GAL16V8/20V8: tri. control for reg. output is not allowed"@,
        ErrorCode::UNKNOWN_PIN => "unknown pinname"@,
        ErrorCode::UNMATCHED_TRISTATE => "tristate control without previous '.T'"@,
    }
}

impl ErrorCode {
    /// A kind is valid when it is named, or when its legacy position lies in
    /// the table.
    pub open spec fn valid(self) -> bool {
        match self {
            ErrorCode::Code(i) => 0 <= i < LEGACY_COUNT,
            _ => true,
        }
    }

    /// The message text of a valid kind.
    pub open spec fn message(self) -> Seq<char> {
        match self {
            ErrorCode::Code(i) => legacy_table()[i as int],
            _ => named_text(self),
        }
    }

    /// Tells whether `self` is valid, so that a caller can refuse an
    /// out-of-range legacy position before resolving it.
    pub fn is_valid(&self) -> (r: bool)
        ensures
            r == self.valid(),
    {
        match *self {
            ErrorCode::Code(i) => 0 <= i && i < LEGACY_COUNT as i32,
            _ => true,
        }
    }
}

/// The legacy message at `index`, verbatim.
pub fn legacy_message(index: usize) -> (r: &'static str)
    requires
        index < LEGACY_COUNT,
    ensures
        r@ == legacy_table()[index as int],
{
    match index {
        0 => "error in source file found",
        1 => "Line  1: type of GAL expected",
        2 => "unexpected end of file",
        3 => "pinname expected after '/'",
        4 => "max. length of pinname is 8 characters",
        5 => "illegal character in pin declaration",
        6 => "illegal VCC/GND assignment",
        7 => "pin declaration: expected VCC at VCC pin",
        8 => "pin declaration: expected GND at GND pin",
        9 => "pinname defined twice",
        10 => "illegal use of '/'",
        11 => "unknown pinname",
        12 => "NC (Not Connected) is not allowed in logic equations",
        13 => "unknown suffix found",
        14 => "'=' expected",
        15 => "this pin can't be used as output",
        16 => "same pin is defined multible as output",
        17 => "before using .E, the output must be defined",
        18 => "GAL22V10: AR and SP is not allowed as pinname",
        19 => ".E, .CLK, .ARST and .APRST is not allowed to be negated",
        20 => "mode 2: pins 12, 19 can't be used as input",
        21 => "mode 2: pins 15, 22 can't be used as input",
        22 => "tristate control is defined twice",
        23 => "GAL16V8/20V8: tri. control for reg. output is not allowed",
        24 => "tristate control without previous '.T'",
        25 => "use GND, VCC instead of /VCC, /GND",
        26 => "pin not allowed in equations",
        27 => "mode 3: pins 1,13 are reserved for 'Clock' and '/OE'",
        28 => "use of VCC and GND is not allowed in equations",
        29 => "only one product term allowed (no OR)",
        30 => "too many product terms",
        31 => "use of AR and SP is not allowed in equations",
        32 => "negation of AR and SP is not allowed",
        33 => "no equations found",
        34 => ".CLK is not allowed when this type of GAL is used",
        35 => ".ARST is not allowed when this type of GAL is used",
        36 => ".APRST is not allowed when this type of GAL is used",
        37 => "GAL20RA10: pin 1 can't be used in equations",
        38 => "GAL20RA10: pin 13 can't be used in equations",
        39 => "AR, SP: no suffix allowed",
        40 => "AR or SP is defined twice",
        41 => "missing clock definition (.CLK) of registered output",
        42 => "before using .CLK, the output must be defined",
        43 => "before using .ARST, the output must be defined",
        44 => "before using .APRST the output must be defined",
        45 => "several .CLK definitions for the same output found",
        46 => "several .ARST definitions for the same output found",
        47 => "several .APRST definitions for the same output found",
        // the last position, 48: `requires` leaves out every larger one
        _ => "use of .CLK, .ARST, .APRST only allowed for registered outputs",
    }
}

/// The message of an error kind. A legacy position outside the table is a
/// defect of the caller and is excluded.
pub fn error_string(err_code: ErrorCode) -> (r: &'static str)
    requires
        err_code.valid(),
    ensures
        r@ == err_code.message(),
{
    match err_code {
        ErrorCode::Code(i) => legacy_message(i as usize),
        ErrorCode::ARSP_AS_PIN_NAME => "GAL22V10: AR and SP is not allowed as pinname",
        ErrorCode::ARSP_SUFFIX => "AR, SP: no suffix allowed",
        ErrorCode::BAD_ARSP => "use of AR and SP is not allowed in equations",
        ErrorCode::BAD_NC => "NC (Not Connected) is not allowed in logic equations",
        ErrorCode::BAD_CHAR => "bad character in input",
        ErrorCode::BAD_EOF => "unexpected end of file",
        ErrorCode::BAD_GAL_TYPE => "Line  1: type of GAL expected",
        ErrorCode::BAD_PIN => "illegal character in pin declaration",
        ErrorCode::BAD_PIN_COUNT => "wrong number of pins",
        ErrorCode::BAD_POWER => "use of VCC and GND is not allowed in equations",
        ErrorCode::BAD_SUFFIX => "unknown suffix found",
        ErrorCode::BAD_TOKEN => "unexpected token",
        ErrorCode::INVERTED_ARSP => "negation of AR and SP is not allowed",
        ErrorCode::INVALID_CONTROL => "use of .CLK, .ARST, .APRST only allowed for registered outputs",
        ErrorCode::INVERTED_CONTROL => ".E, .CLK, .ARST and .APRST is not allowed to be negated",
        ErrorCode::INVERTED_POWER => "use GND, VCC instead of /VCC, /GND",
        ErrorCode::NOT_AN_INPUT => "pin not allowed in equations",
        ErrorCode::NOT_AN_OUTPUT => "this pin can't be used as output",
        ErrorCode::NO_CLK => "missing clock definition (.CLK) of registered output",
        ErrorCode::NO_PIN_NAME => "pinname expected after '/'",
        ErrorCode::NO_EQUALS => "'=' expected",
        ErrorCode::PREMATURE_APRST => "before using .APRST the output must be defined",
        ErrorCode::PREMATURE_ARST => "before using .ARST, the output must be defined",
        ErrorCode::PREMATURE_CLK => "before using .CLK, the output must be defined",
        ErrorCode::PREMATURE_ENABLE => "before using .E, the output must be defined",
        ErrorCode::REPEATED_APRST => "several .APRST definitions for the same output found",
        ErrorCode::REPEATED_ARST => "several .ARST definitions for the same output found",
        ErrorCode::REPEATED_AR_SP => "AR or SP is defined twice",
        ErrorCode::REPEATED_CLK => "several .CLK definitions for the same output found",
        ErrorCode::REPEATED_OUTPUT => "same pin is defined multible as output",
        ErrorCode::REPEATED_TRISTATE => "tristate control is defined twice",
        ErrorCode::TOO_MANY_PRODUCTS => "too many product terms",
        ErrorCode::TRISTATE_REG => "GAL16V8/20V8: tri. control for reg. output is not allowed",
        ErrorCode::UNKNOWN_PIN => "unknown pinname",
        ErrorCode::UNMATCHED_TRISTATE => "tristate control without previous '.T'",
    }
}

/// The decimal digit for `d < 10`.
pub open spec fn digit_char(d: nat) -> char {
    if d == 0 {
        '0'
    } else if d == 1 {
        '1'
    } else if d == 2 {
        '2'
    } else if d == 3 {
        '3'
    } else if d == 4 {
        '4'
    } else if d == 5 {
        '5'
    } else if d == 6 {
        '6'
    } else if d == 7 {
        '7'
    } else if d == 8 {
        '8'
    } else {
        '9'
    }
}

/// The decimal rendering of `n`, most significant digit first, without
/// leading zeros.
pub open spec fn decimal(n: nat) -> Seq<char>
    decreases n,
{
    if n < 10 {
        seq![digit_char(n)]
    } else {
        decimal(n / 10).push(digit_char(n % 10))
    }
}

/// The one line that reports `err`: `Error in line <line>: <message>`.
pub open spec fn report_text(err: Error) -> Seq<char> {
    "Error in line "@ + decimal(err.line as nat) + ": "@ + err.code.message()
}

fn digit_text(d: u32) -> (r: &'static str)
    requires
        d < 10,
    ensures
        r@ == seq![digit_char(d as nat)],
{
    proof {
        reveal_strlit("0");
        reveal_strlit("1");
        reveal_strlit("2");
        reveal_strlit("3");
        reveal_strlit("4");
        reveal_strlit("5");
        reveal_strlit("6");
        reveal_strlit("7");
        reveal_strlit("8");
        reveal_strlit("9");
    }
    match d {
        0 => "0",
        1 => "1",
        2 => "2",
        3 => "3",
        4 => "4",
        5 => "5",
        6 => "6",
        7 => "7",
        8 => "8",
        // `requires` leaves only 9
        _ => "9",
    }
}

/// The decimal rendering of `n`.
pub fn decimal_string(n: u32) -> (r: String)
    ensures
        r@ == decimal(n as nat),
    decreases n,
{
    if n < 10 {
        let r = String::from_str(digit_text(n));
        proof {
            assert(r@ =~= decimal(n as nat));
        }
        r
    } else {
        let mut r = decimal_string(n / 10);
        r.append(digit_text(n % 10));
        proof {
            assert(r@ =~= decimal(n as nat));
        }
        r
    }
}

/// The report line of `err`: `Error in line <line>: <message>`, with the
/// message verbatim. The kind must be valid.
pub fn error_line(err: Error) -> (r: String)
    requires
        err.code.valid(),
    ensures
        r@ == report_text(err),
{
    let mut r = String::from_str("Error in line ");
    let n = decimal_string(err.line);
    r.append(n.as_str());
    r.append(": ");
    r.append(error_string(err.code));
    r
}

/// The legacy position that reports the same condition as a named kind, where
/// the legacy table has one.
pub open spec fn legacy_position(code: ErrorCode) -> Option<int> {
    match code {
        ErrorCode::ARSP_AS_PIN_NAME => Some(18),
        ErrorCode::ARSP_SUFFIX => Some(39),
        ErrorCode::BAD_ARSP => Some(31),
        ErrorCode::BAD_NC => Some(12),
        ErrorCode::BAD_EOF => Some(2),
        ErrorCode::BAD_GAL_TYPE => Some(1),
        ErrorCode::BAD_PIN => Some(5),
        ErrorCode::BAD_POWER => Some(28),
        ErrorCode::BAD_SUFFIX => Some(13),
        ErrorCode::INVERTED_ARSP => Some(32),
        ErrorCode::INVALID_CONTROL => Some(48),
        ErrorCode::INVERTED_CONTROL => Some(19),
        ErrorCode::INVERTED_POWER => Some(25),
        ErrorCode::NOT_AN_INPUT => Some(26),
        ErrorCode::NOT_AN_OUTPUT => Some(15),
        ErrorCode::NO_CLK => Some(41),
        ErrorCode::NO_PIN_NAME => Some(3),
        ErrorCode::NO_EQUALS => Some(14),
        ErrorCode::PREMATURE_APRST => Some(44),
        ErrorCode::PREMATURE_ARST => Some(43),
        ErrorCode::PREMATURE_CLK => Some(42),
        ErrorCode::PREMATURE_ENABLE => Some(17),
        ErrorCode::REPEATED_APRST => Some(47),
        ErrorCode::REPEATED_ARST => Some(46),
        ErrorCode::REPEATED_AR_SP => Some(40),
        ErrorCode::REPEATED_CLK => Some(45),
        ErrorCode::REPEATED_OUTPUT => Some(16),
        ErrorCode::REPEATED_TRISTATE => Some(22),
        ErrorCode::TOO_MANY_PRODUCTS => Some(30),
        ErrorCode::TRISTATE_REG => Some(23),
        ErrorCode::UNKNOWN_PIN => Some(11),
        ErrorCode::UNMATCHED_TRISTATE => Some(24),
        _ => None,
    }
}

/// Every named kind resolves to a non-empty message.
pub proof fn lemma_named_message_nonempty(code: ErrorCode)
    requires
        !(code is Code),
    ensures
        code.message().len() > 0,
{
    match code {
        ErrorCode::Code(_) => {}
        ErrorCode::ARSP_AS_PIN_NAME => {
            reveal_strlit("GAL22V10: AR and SP is not allowed as pinname");
        }
        ErrorCode::ARSP_SUFFIX => {
            reveal_strlit("AR, SP: no suffix allowed");
        }
        ErrorCode::BAD_ARSP => {
            reveal_strlit("use of AR and SP is not allowed in equations");
        }
        ErrorCode::BAD_NC => {
            reveal_strlit("NC (Not Connected) is not allowed in logic equations");
        }
        ErrorCode::BAD_CHAR => {
            reveal_strlit("bad character in input");
        }
        ErrorCode::BAD_EOF => {
            reveal_strlit("unexpected end of file");
        }
        ErrorCode::BAD_GAL_TYPE => {
            reveal_strlit("Line  1: type of GAL expected");
        }
        ErrorCode::BAD_PIN => {
            reveal_strlit("illegal character in pin declaration");
        }
        ErrorCode::BAD_PIN_COUNT => {
            reveal_strlit("wrong number of pins");
        }
        ErrorCode::BAD_POWER => {
            reveal_strlit("use of VCC and GND is not allowed in equations");
        }
        ErrorCode::BAD_SUFFIX => {
            reveal_strlit("unknown suffix found");
        }
        ErrorCode::BAD_TOKEN => {
            reveal_strlit("unexpected token");
        }
        ErrorCode::INVERTED_ARSP => {
            reveal_strlit("negation of AR and SP is not allowed");
        }
        ErrorCode::INVALID_CONTROL => {
            reveal_strlit("use of .CLK, .ARST, .APRST only allowed for registered outputs");
        }
        ErrorCode::INVERTED_CONTROL => {
            reveal_strlit(".E, .CLK, .ARST and .APRST is not allowed to be negated");
        }
        ErrorCode::INVERTED_POWER => {
            reveal_strlit("use GND, VCC instead of /VCC, /GND");
        }
        ErrorCode::NOT_AN_INPUT => {
            reveal_strlit("pin not allowed in equations");
        }
        ErrorCode::NOT_AN_OUTPUT => {
            reveal_strlit("this pin can't be used as output");
        }
        ErrorCode::NO_CLK => {
            reveal_strlit("missing clock definition (.CLK) of registered output");
        }
        ErrorCode::NO_PIN_NAME => {
            reveal_strlit("pinname expected after '/'");
        }
        ErrorCode::NO_EQUALS => {
            reveal_strlit("'=' expected");
        }
        ErrorCode::PREMATURE_APRST => {
            reveal_strlit("before using .APRST the output must be defined");
        }
        ErrorCode::PREMATURE_ARST => {
            reveal_strlit("before using .ARST, the output must be defined");
        }
        ErrorCode::PREMATURE_CLK => {
            reveal_strlit("before using .CLK, the output must be defined");
        }
        ErrorCode::PREMATURE_ENABLE => {
            reveal_strlit("before using .E, the output must be defined");
        }
        ErrorCode::REPEATED_APRST => {
            reveal_strlit("several .APRST definitions for the same output found");
        }
        ErrorCode::REPEATED_ARST => {
            reveal_strlit("several .ARST definitions for the same output found");
        }
        ErrorCode::REPEATED_AR_SP => {
            reveal_strlit("AR or SP is defined twice");
        }
        ErrorCode::REPEATED_CLK => {
            reveal_strlit("several .CLK definitions for the same output found");
        }
        ErrorCode::REPEATED_OUTPUT => {
            reveal_strlit("same pin is defined multible as output");
        }
        ErrorCode::REPEATED_TRISTATE => {
            reveal_strlit("tristate control is defined twice");
        }
        ErrorCode::TOO_MANY_PRODUCTS => {
            reveal_strlit("too many product terms");
        }
        ErrorCode::TRISTATE_REG => {
            reveal_strlit("GAL16V8/20V8: tri. control for reg. output is not allowed");
        }
        ErrorCode::UNKNOWN_PIN => {
            reveal_strlit("unknown pinname");
        }
        ErrorCode::UNMATCHED_TRISTATE => {
            reveal_strlit("tristate control without previous '.T'");
        }
    }
}

/// A named kind and the legacy position that reports the same condition
/// resolve to identical text.
pub proof fn lemma_named_agrees_with_legacy(code: ErrorCode)
    requires
        legacy_position(code) is Some,
    ensures
        0 <= legacy_position(code)->0 < LEGACY_COUNT,
        ErrorCode::Code(legacy_position(code)->0 as i32).message() == code.message(),
{
}

/// The report depends on the line and the message text alone: two errors on
/// one line whose kinds resolve to the same text, and in particular the same
/// error reported twice, give the same line.
pub proof fn lemma_report_deterministic(a: Error, b: Error)
    requires
        a.line == b.line,
        a.code.message() == b.code.message(),
    ensures
        report_text(a) == report_text(b),
{
}

} // verus!
