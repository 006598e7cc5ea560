use ft_kalman::error::KalmanError;
use ft_kalman::literal::check_float_literal;
use ft_kalman::message::{Message, Number, Vector3, HEADER_LEN};

fn number(text: &str) -> Number {
    Number::new(text.as_bytes()).expect("a float literal")
}

fn vector(x: &str, y: &str, z: &str) -> Vector3 {
    Vector3 { x: number(x), y: number(y), z: number(z) }
}

fn framed(body: &str) -> Vec<u8> {
    let mut frame = b"[00:00:00.000]".to_vec();
    assert_eq!(frame.len(), HEADER_LEN);
    frame.extend_from_slice(body.as_bytes());
    frame
}

fn value(n: &Number) -> f32 {
    std::str::from_utf8(n.as_bytes()).unwrap().parse::<f32>().unwrap()
}

#[test]
fn sentinels_decode_to_control_messages() {
    assert_eq!(Message::decode(b"MSG_START"), Ok(Message::Start));
    assert_eq!(Message::decode(b"MSG_END"), Ok(Message::End));
    assert_eq!(Message::decode(b"GOODBYE."), Ok(Message::Goodbye));
    assert_eq!(
        Message::decode(b"Trajectory Generated!\nSending Info. . .\n"),
        Ok(Message::Generation)
    );
}

#[test]
fn sentinels_are_matched_whole() {
    assert_eq!(Message::decode(b"MSG_START\n"), Err(KalmanError::Parsing));
    assert_eq!(Message::decode(b"msg_start"), Err(KalmanError::Parsing));
    assert_eq!(Message::decode(b"GOODBYE"), Err(KalmanError::Parsing));
    assert_eq!(
        Message::decode(b"Trajectory Generated!\nSending Info. . .\n\n"),
        Err(KalmanError::Parsing)
    );
}

#[test]
fn position_frame_decodes() {
    let frame = framed("POSITION\n1.5\n-2\n3e2");
    assert_eq!(Message::decode(&frame), Ok(Message::Position(vector("1.5", "-2", "3e2"))));
}

#[test]
fn true_position_frame_decodes() {
    let frame = framed("TRUE POSITION\n0.25\n0.5\n0.75");
    assert_eq!(
        Message::decode(&frame),
        Ok(Message::TruePosition(vector("0.25", "0.5", "0.75")))
    );
}

#[test]
fn acceleration_frame_decodes() {
    let frame = framed("ACCELERATION\n-0.001\n+9.81\n.5");
    assert_eq!(
        Message::decode(&frame),
        Ok(Message::Acceleration(vector("-0.001", "+9.81", ".5")))
    );
}

#[test]
fn direction_frame_decodes() {
    let frame = framed("DIRECTION\n0\n0.1\n3.14");
    assert_eq!(Message::decode(&frame), Ok(Message::Direction(vector("0", "0.1", "3.14"))));
}

#[test]
fn speed_frame_decodes() {
    let frame = framed("SPEED\n36");
    assert_eq!(Message::decode(&frame), Ok(Message::Speed(number("36"))));
}

#[test]
fn header_content_is_ignored() {
    let mut a = vec![0xffu8; HEADER_LEN];
    a.extend_from_slice(b"SPEED\n1");
    let mut b = b"\n\n\n\n\n\n\n\n\n\n\n\n\n\n".to_vec();
    b.extend_from_slice(b"SPEED\n1");
    assert_eq!(Message::decode(&a), Ok(Message::Speed(number("1"))));
    assert_eq!(Message::decode(&b), Ok(Message::Speed(number("1"))));
}

#[test]
fn tokens_after_the_payload_are_ignored() {
    let frame = framed("POSITION\n1\n2\n3\nrest\n");
    assert_eq!(Message::decode(&frame), Ok(Message::Position(vector("1", "2", "3"))));
    let frame = framed("SPEED\n4\n5");
    assert_eq!(Message::decode(&frame), Ok(Message::Speed(number("4"))));
}

#[test]
fn round_trip_recovers_kind_and_values() {
    let values = [(1.5f32, -2.25f32, 1024.0f32), (0.0, 1e-3, -7.5e4)];
    for (x, y, z) in values {
        for kind in ["POSITION", "TRUE POSITION", "ACCELERATION", "DIRECTION"] {
            let frame = framed(&format!("{}\n{}\n{}\n{}", kind, x, y, z));
            let v = match (kind, Message::decode(&frame)) {
                ("POSITION", Ok(Message::Position(v))) => v,
                ("TRUE POSITION", Ok(Message::TruePosition(v))) => v,
                ("ACCELERATION", Ok(Message::Acceleration(v))) => v,
                ("DIRECTION", Ok(Message::Direction(v))) => v,
                (_, other) => panic!("{} decoded to {:?}", kind, other),
            };
            assert_eq!(value(&v.x), x);
            assert_eq!(value(&v.y), y);
            assert_eq!(value(&v.z), z);
        }
    }
}

#[test]
fn short_frames_are_parse_errors() {
    assert_eq!(Message::decode(b""), Err(KalmanError::Parsing));
    assert_eq!(Message::decode(b"POSITION"), Err(KalmanError::Parsing));
    assert_eq!(Message::decode(b"[00:00:00.000]"), Err(KalmanError::Parsing));
}

#[test]
fn unknown_kind_is_a_parse_error() {
    assert_eq!(Message::decode(&framed("VELOCITY\n1\n2\n3")), Err(KalmanError::Parsing));
    assert_eq!(Message::decode(&framed("position\n1\n2\n3")), Err(KalmanError::Parsing));
    assert_eq!(Message::decode(&framed("POSITION 1 2 3")), Err(KalmanError::Parsing));
    assert_eq!(Message::decode(&framed("")), Err(KalmanError::Parsing));
}

#[test]
fn missing_tokens_are_parse_errors() {
    assert_eq!(Message::decode(&framed("POSITION")), Err(KalmanError::Parsing));
    assert_eq!(Message::decode(&framed("POSITION\n1")), Err(KalmanError::Parsing));
    assert_eq!(Message::decode(&framed("POSITION\n1\n2")), Err(KalmanError::Parsing));
    assert_eq!(Message::decode(&framed("POSITION\n1\n2\n")), Err(KalmanError::Parsing));
    assert_eq!(Message::decode(&framed("SPEED")), Err(KalmanError::Parsing));
    assert_eq!(Message::decode(&framed("SPEED\n")), Err(KalmanError::Parsing));
}

#[test]
fn bad_numbers_are_parse_errors() {
    assert_eq!(Message::decode(&framed("POSITION\n1\ntwo\n3")), Err(KalmanError::Parsing));
    assert_eq!(Message::decode(&framed("POSITION\n1\n2\n3 ")), Err(KalmanError::Parsing));
    assert_eq!(Message::decode(&framed("POSITION\n 1\n2\n3")), Err(KalmanError::Parsing));
    assert_eq!(Message::decode(&framed("ACCELERATION\n1\n\n3")), Err(KalmanError::Parsing));
    assert_eq!(Message::decode(&framed("SPEED\n36km/h")), Err(KalmanError::Parsing));
}

#[test]
fn float_literals_are_those_that_parse() {
    let cases = [
        "0", "1", "-1", "+1", "1.", ".5", "1.5", "-0.001", "1e5", "1E5", "1e+5", "1e-5", "1.e5",
        ".5e1", "inf", "-inf", "+infinity", "INF", "Infinity", "nan", "NaN", "-nan", "007",
        "123456789012345678901234567890", "", "+", "-", ".", "e5", "1e", "1e+", "1e-", ".e1",
        "1..2", "1.2.3", "1e5.0", "1e5e5", "--1", "+-1", " 1", "1 ", "1_000", "0x10", "1f32",
        "in", "infinit", "infinityy", "na", "nann", "1,5", "1\n", "e", "+.", "-.e1", "5.e", "５",
    ];
    for text in cases {
        assert_eq!(
            check_float_literal(text.as_bytes()),
            text.parse::<f32>().is_ok(),
            "{:?}",
            text
        );
        assert_eq!(Number::new(text.as_bytes()).is_some(), text.parse::<f32>().is_ok());
    }
}

#[test]
fn number_keeps_its_text() {
    let n = number("-12.5e-3");
    assert_eq!(n.as_bytes(), b"-12.5e-3");
    assert_eq!(value(&n), -12.5e-3);
    assert_eq!(Number::new(b"12,5"), None);
}
