use ft_kalman::client::MAX_LEN;
use ft_kalman::error::KalmanError;
use ft_kalman::message::{Number, Vector3};
use ft_kalman::orchestrator::{Action, Orchestrator, Phase, Publication, State};

fn number(text: &str) -> Number {
    Number::new(text.as_bytes()).expect("a float literal")
}

fn vector(x: &str, y: &str, z: &str) -> Vector3 {
    Vector3 { x: number(x), y: number(y), z: number(z) }
}

fn framed(body: &str) -> Vec<u8> {
    let mut frame = b"[12:34:56.789]".to_vec();
    frame.extend_from_slice(body.as_bytes());
    frame
}

fn handshake() -> Vec<Vec<u8>> {
    vec![
        b"MSG_START".to_vec(),
        framed("TRUE POSITION\n1\n2\n3"),
        framed("SPEED\n36"),
        framed("ACCELERATION\n0.1\n0.2\n0.3"),
        framed("DIRECTION\n0\n0\n0"),
        b"MSG_END".to_vec(),
    ]
}

fn steady() -> Orchestrator {
    let mut session = Orchestrator::new();
    for frame in handshake() {
        session.step(&frame).expect("the handshake");
    }
    assert_eq!(session.phase(), Phase::SteadyState);
    session
}

#[test]
fn new_session_awaits_the_handshake() {
    let session = Orchestrator::new();
    assert_eq!(*session.state(), State::AwaitingStart);
    assert_eq!(session.phase(), Phase::AwaitingHandshake);
}

#[test]
fn handshake_in_order_initialises_the_filter() {
    let mut session = Orchestrator::new();
    let frames = handshake();
    for frame in &frames[..5] {
        assert_eq!(session.step(frame), Ok(Action::Continue));
        assert_eq!(session.phase(), Phase::AwaitingHandshake);
    }
    assert_eq!(
        session.step(&frames[5]),
        Ok(Action::Init {
            position: vector("1", "2", "3"),
            speed: number("36"),
            heading: vector("0", "0", "0"),
        })
    );
    assert_eq!(session.phase(), Phase::SteadyState);
}

#[test]
fn handshake_keeps_what_it_received() {
    let mut session = Orchestrator::new();
    let frames = handshake();
    session.step(&frames[0]).unwrap();
    assert_eq!(*session.state(), State::AwaitingTruePosition);
    session.step(&frames[1]).unwrap();
    assert_eq!(*session.state(), State::AwaitingSpeed { position: vector("1", "2", "3") });
    session.step(&frames[2]).unwrap();
    assert_eq!(
        *session.state(),
        State::AwaitingAcceleration { position: vector("1", "2", "3"), speed: number("36") }
    );
    session.step(&frames[3]).unwrap();
    assert_eq!(
        *session.state(),
        State::AwaitingDirection { position: vector("1", "2", "3"), speed: number("36") }
    );
    session.step(&frames[4]).unwrap();
    assert_eq!(
        *session.state(),
        State::AwaitingEnd {
            position: vector("1", "2", "3"),
            speed: number("36"),
            heading: vector("0", "0", "0"),
        }
    );
}

#[test]
fn handshake_out_of_order_is_a_parsing_error() {
    let frames = handshake();
    for i in 0..6 {
        for j in 0..6 {
            if i == j {
                continue;
            }
            let mut order: Vec<usize> = (0..6).collect();
            order.swap(i, j);
            let mut session = Orchestrator::new();
            let mut failed = false;
            for k in order {
                match session.step(&frames[k]) {
                    Ok(Action::Continue) => assert!(!failed),
                    Ok(Action::Break) => assert!(failed),
                    Err(e) => {
                        assert!(!failed);
                        assert_eq!(e, KalmanError::Parsing);
                        failed = true;
                    }
                    Ok(other) => panic!("{:?} asked for during a bad handshake", other),
                }
            }
            assert!(failed);
            assert_eq!(session.phase(), Phase::Terminated);
        }
    }
}

#[test]
fn handshake_refuses_a_position_fix_in_place_of_the_true_position() {
    let mut session = Orchestrator::new();
    session.step(b"MSG_START").unwrap();
    assert_eq!(session.step(&framed("POSITION\n1\n2\n3")), Err(KalmanError::Parsing));
    assert_eq!(session.phase(), Phase::Terminated);
}

#[test]
fn handshake_refuses_a_frame_that_does_not_decode() {
    let mut session = Orchestrator::new();
    assert_eq!(session.step(b"HELLO"), Err(KalmanError::Parsing));
    assert_eq!(session.phase(), Phase::Terminated);
    let mut session = Orchestrator::new();
    session.step(b"MSG_START").unwrap();
    assert_eq!(session.step(&framed("TRUE POSITION\n1\n2")), Err(KalmanError::Parsing));
    assert_eq!(*session.state(), State::Terminated);
}

#[test]
fn acceleration_asks_for_a_prediction() {
    let mut session = steady();
    assert_eq!(
        session.step(&framed("ACCELERATION\n0.5\n-0.5\n9.81")),
        Ok(Action::Predict(vector("0.5", "-0.5", "9.81")))
    );
    assert_eq!(session.phase(), Phase::SteadyState);
}

#[test]
fn positions_ask_for_a_correction() {
    let mut session = steady();
    assert_eq!(
        session.step(&framed("POSITION\n10\n20\n30")),
        Ok(Action::Correct(vector("10", "20", "30")))
    );
    assert_eq!(
        session.step(&framed("TRUE POSITION\n11\n21\n31")),
        Ok(Action::Correct(vector("11", "21", "31")))
    );
    assert_eq!(session.phase(), Phase::SteadyState);
}

#[test]
fn end_marker_asks_for_a_report() {
    let mut session = steady();
    assert_eq!(session.step(b"MSG_END"), Ok(Action::Report));
    assert_eq!(session.phase(), Phase::SteadyState);
}

#[test]
fn administrative_messages_ask_for_nothing() {
    let mut session = steady();
    assert_eq!(session.step(b"MSG_START"), Ok(Action::Continue));
    assert_eq!(session.step(&framed("SPEED\n12")), Ok(Action::Continue));
    assert_eq!(session.step(&framed("DIRECTION\n1\n2\n3")), Ok(Action::Continue));
    assert_eq!(
        session.step(b"Trajectory Generated!\nSending Info. . .\n"),
        Ok(Action::Continue)
    );
    assert_eq!(session.phase(), Phase::SteadyState);
}

#[test]
fn goodbye_ends_the_session() {
    let mut session = steady();
    assert_eq!(session.step(b"GOODBYE."), Ok(Action::Break));
    assert_eq!(session.phase(), Phase::Terminated);
    assert_eq!(session.step(&framed("POSITION\n1\n2\n3")), Ok(Action::Break));
    assert_eq!(session.step(b"not a frame"), Ok(Action::Break));
    assert_eq!(session.phase(), Phase::Terminated);
}

#[test]
fn abort_ends_the_session() {
    let mut session = steady();
    session.abort();
    assert_eq!(session.phase(), Phase::Terminated);
    assert_eq!(session.step(b"MSG_END"), Ok(Action::Break));
    let mut session = Orchestrator::new();
    session.abort();
    assert_eq!(*session.state(), State::Terminated);
}

#[test]
fn bad_frame_ends_a_steady_session() {
    let mut session = steady();
    assert_eq!(session.step(&framed("POSITION\n1\nx\n3")), Err(KalmanError::Parsing));
    assert_eq!(session.phase(), Phase::Terminated);
}

#[test]
fn receive_takes_the_frame_from_the_buffer() {
    let mut session = steady();
    let frame = framed("ACCELERATION\n1\n2\n3");
    let mut buf = [b'9'; MAX_LEN];
    buf[..frame.len()].copy_from_slice(&frame);
    assert_eq!(
        session.receive(&buf, frame.len()),
        Ok(Action::Predict(vector("1", "2", "3")))
    );
    assert_eq!(
        session.receive(&buf, frame.len() + 2),
        Ok(Action::Predict(vector("1", "2", "399")))
    );
}

#[test]
fn oversized_datagram_ends_the_session_undecoded() {
    let mut session = steady();
    let mut buf = [0u8; MAX_LEN];
    buf[..8].copy_from_slice(b"GOODBYE.");
    assert_eq!(session.receive(&buf, MAX_LEN), Err(KalmanError::MessageTooLong(MAX_LEN)));
    assert_eq!(session.phase(), Phase::Terminated);
    let mut session = Orchestrator::new();
    let small = *b"MSG_START";
    assert_eq!(session.receive(&small, 9), Err(KalmanError::MessageTooLong(9)));
    assert_eq!(session.phase(), Phase::Terminated);
    assert_eq!(session.receive(&small, 9), Ok(Action::Break));
}

#[test]
fn datagram_that_is_not_utf8_ends_the_session() {
    let mut session = steady();
    let mut buf = [0u8; MAX_LEN];
    buf[..4].copy_from_slice(&[0xf0, 0x28, 0x8c, 0x28]);
    assert_eq!(session.receive(&buf, 4), Err(KalmanError::InvalidUtf8));
    assert_eq!(session.phase(), Phase::Terminated);
}

#[test]
fn corrections_are_published_and_predictions_when_streaming() {
    let predict = Action::Predict(vector("1", "2", "3"));
    let correct = Action::Correct(vector("1", "2", "3"));
    let init = Action::Init {
        position: vector("1", "2", "3"),
        speed: number("4"),
        heading: vector("5", "6", "7"),
    };
    assert_eq!(predict.publication(true), Publication::Estimate);
    assert_eq!(predict.publication(false), Publication::Nothing);
    assert_eq!(correct.publication(true), Publication::EstimateAndFix);
    assert_eq!(correct.publication(false), Publication::EstimateAndFix);
    for stream in [true, false] {
        assert_eq!(init.publication(stream), Publication::Nothing);
        assert_eq!(Action::Continue.publication(stream), Publication::Nothing);
        assert_eq!(Action::Report.publication(stream), Publication::Nothing);
        assert_eq!(Action::Break.publication(stream), Publication::Nothing);
    }
}
