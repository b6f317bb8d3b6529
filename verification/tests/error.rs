use lib_shared::error::GameError;
use lib_shared::{game_result, send_err, send_err_result, GameResult, ToGameResult};

#[test]
fn game_error_new_and_display() {
    let e = GameError::new(3, "bad");
    assert_eq!(e.error_code, 3);
    assert_eq!(e.msg.as_deref(), Some("bad"));
    assert_eq!(e.to_display_string(), "{error_code: 3, msg: Some(\"bad\") backtrace \"\"}");
    assert_eq!(
        e.to_debug_string(),
        "GameError { error_code: 3, msg: Some(\"bad\"), backtrace: \"\" }"
    );
}

#[test]
fn game_error_backtrace_lines_are_joined() {
    let mut e = GameError::new(-12, String::from("a \"quoted\" word"));
    e.backtrace("first".to_string());
    e.backtrace("second".to_string());
    assert_eq!(
        e.to_display_string(),
        "{error_code: -12, msg: Some(\"a \\\"quoted\\\" word\") backtrace \"first\\r\\nsecond\"}"
    );
}

#[test]
fn game_error_default_has_no_message() {
    let e = GameError::default();
    assert_eq!(e.error_code, 0);
    assert_eq!(e.msg, None);
    assert_eq!(e.to_display_string(), "{error_code: 0, msg: None backtrace \"\"}");
    let m = GameError::new(i32::MIN, "x");
    assert_eq!(m.to_display_string(), "{error_code: -2147483648, msg: Some(\"x\") backtrace \"\"}");
}

#[test]
fn game_error_conversions() {
    let a = GameError::from("text");
    assert_eq!((a.error_code, a.msg.as_deref()), (-1, Some("text")));
    let b = GameError::from(String::from("owned"));
    assert_eq!((b.error_code, b.msg.as_deref()), (-1, Some("owned")));
    let c = GameError::from((String::from("pair"), 42));
    assert_eq!((c.error_code, c.msg.as_deref()), (42, Some("pair")));
    let s = String::from("borrowed");
    let d = GameError::from(&s);
    assert_eq!((d.error_code, d.msg.as_deref()), (-1, Some("borrowed")));
}

#[test]
fn send_err_is_code_minus_one() {
    let e = send_err();
    assert_eq!(e.error_code, -1);
    assert_eq!(e.msg.as_deref(), Some("fail to send msg"));
    let r: GameResult<u8> = send_err_result();
    assert_eq!(r.err().unwrap().msg.as_deref(), Some("fail to send msg"));
}

#[test]
fn to_result_and_game_result() {
    let some: GameResult<u8> = Some(4u8).to_result(|| "missing");
    assert_eq!(some.ok(), Some(4));
    let none: GameResult<u8> = None.to_result(|| (String::from("missing"), 7));
    let e = none.err().unwrap();
    assert_eq!((e.error_code, e.msg.as_deref()), (7, Some("missing")));
    let g: GameResult<()> = game_result("boom");
    let e = g.err().unwrap();
    assert_eq!((e.error_code, e.msg.as_deref()), (-1, Some("boom")));
}

#[test]
fn game_error_backtrace_joined_by_crlf() {
    let mut e = GameError::new(1, "m");
    assert_eq!(e.joined_trace(), "");
    e.backtrace("a".to_string());
    e.backtrace("b".to_string());
    assert_eq!(e.joined_trace(), "a\r\nb");
}
