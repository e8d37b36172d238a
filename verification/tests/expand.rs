//! Expansion of parameterized capability strings.

use terminfo::error::Expand as ExpandError;
use terminfo::expand::expand;
use terminfo::{Context, Error, Expand, Parameter, Value};

fn run(input: &[u8], params: &[Parameter]) -> Result<Vec<u8>, Error> {
    let mut context: Context = Default::default();
    expand(input, params, &mut context)
}

fn run_ok(input: &[u8], params: &[Parameter]) -> Vec<u8> {
    run(input, params).unwrap()
}

fn run_err(input: &[u8], params: &[Parameter]) -> ExpandError {
    match run(input, params) {
        Ok(out) => panic!("expected an error, got {:?}", out),
        Err(Error::Expand(e)) => e,
        Err(other) => panic!("unexpected error {:?}", other),
    }
}

#[test]
fn test_basic_setabf() {
    assert_eq!(
        b"\\E[48;5;1m".to_vec(),
        Expand::expand(
            &b"\\E[48;5;%p1%dm"[..],
            &[Parameter::Number(1)],
            &mut Default::default()
        )
        .unwrap()
    );
}

#[test]
fn plain_bytes_pass_through() {
    let input = b"\x1b[H\x1b[2J plain text \xfe\xff";
    assert_eq!(input.to_vec(), run_ok(input, &[]));
}

#[test]
fn escape_color_sequence() {
    assert_eq!(
        b"\x1b[48;5;1m".to_vec(),
        run_ok(b"\x1b[48;5;%p1%dm", &[Parameter::Number(1)])
    );
}

#[test]
fn push_and_add() {
    assert_eq!(
        b"5".to_vec(),
        run_ok(b"%p1%p2%+%d", &[Parameter::Number(2), Parameter::Number(3)])
    );
}

#[test]
fn add_wraps_on_overflow() {
    assert_eq!(
        b"-2147483648".to_vec(),
        run_ok(
            b"%p1%p2%+%d",
            &[Parameter::Number(i32::MAX), Parameter::Number(1)]
        )
    );
}

#[test]
fn decimal_round_trip() {
    assert_eq!(b"0".to_vec(), run_ok(b"%p1%d", &[Parameter::Number(0)]));
    assert_eq!(
        b"2147483647".to_vec(),
        run_ok(b"%p1%d", &[Parameter::Number(i32::MAX)])
    );
    assert_eq!(b"-17".to_vec(), run_ok(b"%p1%d", &[Parameter::Number(-17)]));
}

#[test]
fn string_round_trip() {
    assert_eq!(
        b"hello".to_vec(),
        run_ok(b"%p1%s", &[Parameter::String(b"hello".to_vec())])
    );
}

#[test]
fn conditional_then_else() {
    assert_eq!(
        b" yes".to_vec(),
        run_ok(b"%?%p1%t yes%e no%;", &[Parameter::Number(1)])
    );
    assert_eq!(
        b" no".to_vec(),
        run_ok(b"%?%p1%t yes%e no%;", &[Parameter::Number(0)])
    );
}

#[test]
fn nested_conditionals_skip_matching_end() {
    let input = b"%?%p1%t%?%p2%tA%eB%;%eC%;";
    assert_eq!(
        b"A".to_vec(),
        run_ok(input, &[Parameter::Number(1), Parameter::Number(1)])
    );
    assert_eq!(
        b"B".to_vec(),
        run_ok(input, &[Parameter::Number(1), Parameter::Number(0)])
    );
    assert_eq!(
        b"C".to_vec(),
        run_ok(input, &[Parameter::Number(0), Parameter::Number(1)])
    );
    let skipping = b"%?%p1%tX%e%?%p2%tY%eZ%;%;";
    assert_eq!(
        b"Z".to_vec(),
        run_ok(skipping, &[Parameter::Number(0), Parameter::Number(0)])
    );
}

#[test]
fn character_constant() {
    assert_eq!(b"A".to_vec(), run_ok(b"%'A'%c", &[]));
}

#[test]
fn integer_constants_add() {
    assert_eq!(b"17".to_vec(), run_ok(b"%{9}%{8}%+%d", &[]));
}

#[test]
fn char_output_zero_becomes_high_bit() {
    assert_eq!(vec![0x80u8], run_ok(b"%p1%c", &[Parameter::Number(0)]));
    assert_eq!(b"B".to_vec(), run_ok(b"%p1%c", &[Parameter::Number(66)]));
}

#[test]
fn left_justified_width() {
    assert_eq!(
        b"42        ".to_vec(),
        run_ok(b"%p1%:-10d", &[Parameter::Number(42)])
    );
}

#[test]
fn right_justified_width() {
    assert_eq!(
        b"        42".to_vec(),
        run_ok(b"%p1%10d", &[Parameter::Number(42)])
    );
}

#[test]
fn alternate_hex() {
    assert_eq!(b"0".to_vec(), run_ok(b"%p1%#x", &[Parameter::Number(0)]));
    assert_eq!(
        b"0xff".to_vec(),
        run_ok(b"%p1%#x", &[Parameter::Number(255)])
    );
}

#[test]
fn other_number_formats() {
    assert_eq!(b"755".to_vec(), run_ok(b"%p1%o", &[Parameter::Number(0o755)]));
    assert_eq!(b"2a".to_vec(), run_ok(b"%p1%x", &[Parameter::Number(42)]));
    assert_eq!(b"2A".to_vec(), run_ok(b"%p1%X", &[Parameter::Number(42)]));
    assert_eq!(b"005".to_vec(), run_ok(b"%p1%.3d", &[Parameter::Number(5)]));
    assert_eq!(b"+42".to_vec(), run_ok(b"%p1%:+d", &[Parameter::Number(42)]));
    assert_eq!(b" 42".to_vec(), run_ok(b"%p1% d", &[Parameter::Number(42)]));
}

#[test]
fn string_precision_truncates() {
    assert_eq!(
        b"he".to_vec(),
        run_ok(b"%p1%.2s", &[Parameter::String(b"hello".to_vec())])
    );
    assert_eq!(
        b"   hi".to_vec(),
        run_ok(b"%p1%5s", &[Parameter::String(b"hi".to_vec())])
    );
}

#[test]
fn percent_literal() {
    assert_eq!(b"50%".to_vec(), run_ok(b"%p1%d%%", &[Parameter::Number(50)]));
}

#[test]
fn increment_first_two_parameters() {
    assert_eq!(
        b"46".to_vec(),
        run_ok(
            b"%i%p1%d%p2%d",
            &[Parameter::Number(3), Parameter::Number(5)]
        )
    );
}

#[test]
fn arithmetic_family() {
    assert_eq!(b"6".to_vec(), run_ok(b"%{2}%{3}%*%d", &[]));
    assert_eq!(b"2".to_vec(), run_ok(b"%{7}%{5}%-%d", &[]));
    assert_eq!(b"3".to_vec(), run_ok(b"%{7}%{2}%/%d", &[]));
    assert_eq!(b"1".to_vec(), run_ok(b"%{7}%{2}%m%d", &[]));
    assert_eq!(b"0".to_vec(), run_ok(b"%{7}%{0}%/%d", &[]));
    assert_eq!(b"6".to_vec(), run_ok(b"%{2}%{4}%|%d", &[]));
    assert_eq!(b"0".to_vec(), run_ok(b"%{2}%{4}%&%d", &[]));
    assert_eq!(b"6".to_vec(), run_ok(b"%{2}%{4}%^%d", &[]));
    assert_eq!(b"-8".to_vec(), run_ok(b"%{7}%~%d", &[]));
}

#[test]
fn comparisons_and_logic() {
    assert_eq!(b"1".to_vec(), run_ok(b"%{2}%{2}%=%d", &[]));
    assert_eq!(b"0".to_vec(), run_ok(b"%{2}%{3}%>%d", &[]));
    assert_eq!(b"1".to_vec(), run_ok(b"%{2}%{3}%<%d", &[]));
    assert_eq!(b"1".to_vec(), run_ok(b"%{1}%{1}%A%d", &[]));
    assert_eq!(b"1".to_vec(), run_ok(b"%{0}%{1}%O%d", &[]));
    assert_eq!(b"0".to_vec(), run_ok(b"%{1}%!%d", &[]));
    assert_eq!(b"1".to_vec(), run_ok(b"%{0}%!%d", &[]));
}

#[test]
fn variables_static_and_dynamic() {
    assert_eq!(
        b"42".to_vec(),
        run_ok(b"%p1%Pa%ga%ga%+%d", &[Parameter::Number(21)])
    );
    let mut context: Context = Default::default();
    assert_eq!(
        b"".to_vec(),
        expand(b"%p1%PX", &[Parameter::Number(7)], &mut context).unwrap()
    );
    assert_eq!(b"7".to_vec(), expand(b"%gX%d", &[], &mut context).unwrap());
}

#[test]
fn integer_constant_overflow_is_reported() {
    assert_eq!(
        ExpandError::IntegerConstantOverflow,
        run_err(b"%{99999999999}%d", &[])
    );
}

#[test]
fn error_variants() {
    assert_eq!(ExpandError::StackUnderflow, run_err(b"%d", &[]));
    assert_eq!(
        ExpandError::TypeMismatch,
        run_err(b"%p1%d", &[Parameter::String(b"x".to_vec())])
    );
    assert_eq!(
        ExpandError::UnrecognizedFormatOption(b'q'),
        run_err(b"%q", &[])
    );
    assert_eq!(ExpandError::InvalidVariableName(b'1'), run_err(b"%g1", &[]));
    assert_eq!(
        ExpandError::InvalidParameterIndex(b'0'),
        run_err(b"%p0", &[])
    );
    assert_eq!(
        ExpandError::MalformedCharacterConstant,
        run_err(b"%'ab'", &[])
    );
    assert_eq!(ExpandError::MalformedIntegerConstant, run_err(b"%{1a}", &[]));
    assert_eq!(
        ExpandError::FormatWidthOverflow,
        run_err(b"%p1%99999999999d", &[Parameter::Number(1)])
    );
    assert_eq!(
        ExpandError::FormatPrecisionOverflow,
        run_err(b"%p1%.99999999999d", &[Parameter::Number(1)])
    );
}

#[test]
fn errors_discard_partial_output() {
    assert_eq!(ExpandError::StackUnderflow, run_err(b"before%d", &[]));
}

#[test]
fn value_expand() {
    let value = Value::String(b"ok:%p1%d".to_vec());
    let mut context: Context = Default::default();
    assert_eq!(
        b"ok:3".to_vec(),
        value.expand(&[Parameter::Number(3)], &mut context).unwrap()
    );
    let number = Value::Number(5);
    match number.expand(&[], &mut context) {
        Err(Error::Expand(ExpandError::TypeMismatch)) => {}
        other => panic!("unexpected {:?}", other),
    }
}

#[test]
fn error_descriptions() {
    assert_eq!(
        "Not enough elements on the stack.",
        ExpandError::StackUnderflow.description()
    );
    assert_eq!(
        "Failed to parse capability database.",
        Error::Parse.description()
    );
    assert_eq!(
        "Capability database not found.",
        Error::NotFound.description()
    );
}
