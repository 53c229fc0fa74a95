use exec::marshal::{marshal, marshal_one};
use exec::{classify_return, Command, Error};

fn bytes(s: &str) -> Vec<u8> {
    s.as_bytes().to_vec()
}

#[test]
fn marshal_one_appends_terminator() {
    let r = marshal_one(&bytes("hello"));
    assert_eq!(r.unwrap(), b"hello\0".to_vec());
}

#[test]
fn marshal_one_empty_string() {
    let r = marshal_one(&bytes(""));
    assert_eq!(r.unwrap(), b"\0".to_vec());
}

#[test]
fn marshal_one_rejects_interior_nul() {
    let r = marshal_one(&bytes("bad\u{0}arg"));
    assert!(matches!(r, Err(Error::NullByteInArgument)));
}

#[test]
fn marshal_echo_hello_world() {
    let program = bytes("echo");
    let args = vec![bytes("echo"), bytes("hello"), bytes("world")];
    let m = marshal(&program, &args).unwrap();
    assert_eq!(m.program, b"echo\0".to_vec());
    assert_eq!(m.args.len(), 3);
    assert_eq!(m.args[0], b"echo\0".to_vec());
    assert_eq!(m.args[1], b"hello\0".to_vec());
    assert_eq!(m.args[2], b"world\0".to_vec());
}

#[test]
fn marshal_empty_argument_list() {
    let program = bytes("prog");
    let args: Vec<Vec<u8>> = Vec::new();
    let m = marshal(&program, &args).unwrap();
    assert_eq!(m.program, b"prog\0".to_vec());
    assert_eq!(m.args.len(), 0);
}

#[test]
fn unresolvable_name_is_still_marshalable() {
    let program = bytes("definitely-not-a-real-binary-xyz");
    let args = vec![bytes("definitely-not-a-real-binary-xyz")];
    let m = marshal(&program, &args).unwrap();
    assert_eq!(m.program, b"definitely-not-a-real-binary-xyz\0".to_vec());
}

#[test]
fn tainted_argument_rejected() {
    let program = bytes("ok");
    let args = vec![bytes("ok"), bytes("bad\u{0}arg")];
    let r = marshal(&program, &args);
    assert!(matches!(r, Err(Error::NullByteInArgument)));
}

#[test]
fn tainted_program_rejected() {
    let program = bytes("bad\u{0}prog");
    let args = vec![bytes("fine"), bytes("also-fine")];
    let r = marshal(&program, &args);
    assert!(matches!(r, Err(Error::NullByteInArgument)));
}

#[test]
fn first_offender_decides_outcome() {
    let program = bytes("bad\u{0}prog");
    let tainted_args = vec![bytes("also\u{0}bad")];
    let clean_args = vec![bytes("fine")];
    let r_both = marshal(&program, &tainted_args);
    let r_program_only = marshal(&program, &clean_args);
    let e_both = r_both.err().unwrap();
    let e_program_only = r_program_only.err().unwrap();
    assert_eq!(e_both, e_program_only);
    assert_eq!(e_both, Error::NullByteInArgument);
}

#[test]
fn builder_arg_matches_args() {
    let mut one_at_a_time = Command::new(bytes("x"));
    one_at_a_time.arg(bytes("a")).arg(bytes("b"));
    let mut all_at_once = Command::new(bytes("x"));
    all_at_once.args(&vec![bytes("a"), bytes("b")]);
    assert_eq!(one_at_a_time.argv(), all_at_once.argv());
}

#[test]
fn builder_starts_with_program_name() {
    let c = Command::new(bytes("echo"));
    assert_eq!(c.len(), 1);
    assert_eq!(c.argv(), &vec![bytes("echo")]);
}

#[test]
fn builder_prepare_marshals_whole_argv() {
    let mut c = Command::new(bytes("echo"));
    c.arg(bytes("hello")).arg(bytes("world"));
    let m = c.prepare().unwrap();
    assert_eq!(m.program, b"echo\0".to_vec());
    assert_eq!(m.args.len(), 3);
    assert_eq!(m.args[0], b"echo\0".to_vec());
    assert_eq!(m.args[1], b"hello\0".to_vec());
    assert_eq!(m.args[2], b"world\0".to_vec());
}

#[test]
fn builder_prepare_rejects_tainted_argument() {
    let mut c = Command::new(bytes("ok"));
    c.arg(bytes("bad\u{0}arg"));
    let r = c.prepare();
    assert!(matches!(r, Err(Error::NullByteInArgument)));
}

fn wide(s: &str) -> Vec<u16> {
    s.encode_utf16().collect()
}

#[test]
fn marshal_one_wide_appends_terminator() {
    let r = exec::wide::marshal_one_wide(&wide("echo"));
    let mut expected = wide("echo");
    expected.push(0);
    assert_eq!(r.unwrap(), expected);
}

#[test]
fn marshal_one_wide_rejects_interior_zero() {
    let r = exec::wide::marshal_one_wide(&wide("bad\u{0}arg"));
    assert!(matches!(r, Err(Error::NullByteInArgument)));
}

#[test]
fn marshal_wide_whole_vector() {
    let program = wide("echo");
    let args = vec![wide("echo"), wide("hello")];
    let m = exec::wide::marshal_wide(&program, &args).unwrap();
    let mut expected_program = wide("echo");
    expected_program.push(0);
    assert_eq!(m.program, expected_program);
    assert_eq!(m.args.len(), 2);
    let mut expected_arg = wide("hello");
    expected_arg.push(0);
    assert_eq!(m.args[1], expected_arg);
}

#[test]
fn marshal_wide_tainted_argument_rejected() {
    let program = wide("ok");
    let args = vec![wide("ok"), wide("bad\u{0}arg")];
    let r = exec::wide::marshal_wide(&program, &args);
    assert!(matches!(r, Err(Error::NullByteInArgument)));
}

#[test]
fn classify_return_wraps_error_code() {
    let e = classify_return(-1, 2);
    assert_eq!(e, Error::Errno(2));
}

#[test]
fn error_from_code() {
    let e = Error::from(2);
    assert_eq!(e, Error::Errno(2));
}

#[test]
fn invalid_argument_message() {
    let m = Error::NullByteInArgument.message();
    assert_eq!(m, "interior NUL byte in string argument to exec");
}

#[test]
fn os_rejection_message_carries_description() {
    let m = Error::Errno(2).message();
    assert!(m.starts_with("couldn't exec process: "));
    assert!(m.len() > "couldn't exec process: ".len());
}
