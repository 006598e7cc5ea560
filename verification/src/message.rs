use vstd::prelude::*;
use vstd::slice::{slice_subrange, slice_to_vec};
use crate::error::KalmanError;
use crate::literal::{check_float_literal, is_float_literal};
use crate::text::{ascii, is_text};

verus! {

/// Every frame that is not a sentinel starts with a header of this many bytes.
pub const HEADER_LEN: usize = 14;

/// The byte that separates the tokens of a frame.
pub const NEWLINE: u8 = 10;

/// A number as it came over the wire: the text of a floating-point literal.
#[derive(Debug, Clone, PartialEq, Eq)]
pub struct Number {
    pub text: Vec<u8>,
}

impl View for Number {
    type V = Seq<u8>;

    open spec fn view(&self) -> Seq<u8> {
        self.text@
    }
}

impl Number {
    /// The text is a floating-point literal.
    pub open spec fn wf(&self) -> bool {
        is_float_literal(self@)
    }

    /// Takes `token` as a number, if it is the text of a floating-point literal.
    pub fn new(token: &[u8]) -> (r: Option<Number>)
        ensures
            r is Some <==> is_float_literal(token@),
            r matches Some(n) ==> n@ == token@ && n.wf(),
    {
        if check_float_literal(token) {
            Some(Number { text: slice_to_vec(token) })
        } else {
            None
        }
    }

    /// The literal's text.
    pub fn as_bytes(&self) -> (r: &[u8])
        ensures
            r@ == self@,
    {
        self.text.as_slice()
    }
}

/// The model of a `Vector3`: the texts of its three numbers.
pub struct Vector3View {
    pub x: Seq<u8>,
    pub y: Seq<u8>,
    pub z: Seq<u8>,
}

/// Three numbers, in the order x, y, z.
#[derive(Debug, Clone, PartialEq, Eq)]
pub struct Vector3 {
    pub x: Number,
    pub y: Number,
    pub z: Number,
}

impl View for Vector3 {
    type V = Vector3View;

    open spec fn view(&self) -> Vector3View {
        Vector3View { x: self.x@, y: self.y@, z: self.z@ }
    }
}

impl Vector3 {
    /// Each of the three is a floating-point literal.
    pub open spec fn wf(&self) -> bool {
        self.x.wf() && self.y.wf() && self.z.wf()
    }
}

impl Vector3View {
    /// Each of the three is a floating-point literal.
    pub open spec fn wf(&self) -> bool {
        is_float_literal(self.x) && is_float_literal(self.y) && is_float_literal(self.z)
    }
}

/// The model of a `Message`.
pub enum MessageView {
    Start,
    End,
    Generation,
    Goodbye,
    TruePosition(Vector3View),
    Speed(Seq<u8>),
    Position(Vector3View),
    Direction(Vector3View),
    Acceleration(Vector3View),
}

/// What the peer can say.
#[derive(Debug, Clone, PartialEq, Eq)]
pub enum Message {
    /// The session begins.
    Start,
    /// The peer asks for the current estimate.
    End,
    /// The peer has a trajectory and is about to stream it.
    Generation,
    /// The session is over.
    Goodbye,
    /// The true position.
    TruePosition(Vector3),
    /// The speed at the start.
    Speed(Number),
    /// A position fix.
    Position(Vector3),
    /// The heading at the start, as Euler angles.
    Direction(Vector3),
    /// An acceleration sample.
    Acceleration(Vector3),
}

impl View for Message {
    type V = MessageView;

    open spec fn view(&self) -> MessageView {
        match self {
            Message::Start => MessageView::Start,
            Message::End => MessageView::End,
            Message::Generation => MessageView::Generation,
            Message::Goodbye => MessageView::Goodbye,
            Message::TruePosition(v) => MessageView::TruePosition(v@),
            Message::Speed(s) => MessageView::Speed(s@),
            Message::Position(v) => MessageView::Position(v@),
            Message::Direction(v) => MessageView::Direction(v@),
            Message::Acceleration(v) => MessageView::Acceleration(v@),
        }
    }
}

impl MessageView {
    /// Every number in the message is a floating-point literal.
    pub open spec fn wf(&self) -> bool {
        match self {
            MessageView::TruePosition(v) => v.wf(),
            MessageView::Speed(s) => is_float_literal(*s),
            MessageView::Position(v) => v.wf(),
            MessageView::Direction(v) => v.wf(),
            MessageView::Acceleration(v) => v.wf(),
            _ => true,
        }
    }
}

/// Where the line of `s` that starts at `from` ends: at the next newline, or at
/// the end of `s`.
pub open spec fn line_end(s: Seq<u8>, from: int) -> int
    decreases s.len() - from,
{
    if 0 <= from < s.len() && s[from] != NEWLINE {
        line_end(s, from + 1)
    } else {
        from
    }
}

/// Where token `k` of `s` starts. The tokens are what the newlines of `s`
/// separate; past the last one the start lies beyond the end of `s`.
pub open spec fn token_start(s: Seq<u8>, k: nat) -> int
    decreases k,
{
    if k == 0 {
        0
    } else {
        line_end(s, token_start(s, (k - 1) as nat)) + 1
    }
}

/// `s` has a token `k`.
pub open spec fn has_token(s: Seq<u8>, k: nat) -> bool {
    token_start(s, k) <= s.len()
}

/// Token `k` of `s`.
pub open spec fn token(s: Seq<u8>, k: nat) -> Seq<u8> {
    s.subrange(token_start(s, k), line_end(s, token_start(s, k)))
}

/// The three numbers that follow the kind, if they are there and are literals.
pub open spec fn vector_spec(body: Seq<u8>) -> Option<Vector3View> {
    let v = Vector3View { x: token(body, 1), y: token(body, 2), z: token(body, 3) };
    if has_token(body, 3) && v.wf() {
        Some(v)
    } else {
        None
    }
}

/// The one number that follows the kind, if it is there and is a literal.
pub open spec fn scalar_spec(body: Seq<u8>) -> Option<Seq<u8>> {
    if has_token(body, 1) && is_float_literal(token(body, 1)) {
        Some(token(body, 1))
    } else {
        None
    }
}

/// What a frame's body (the frame without its header) means, if anything. Tokens
/// after those that the kind asks for are not looked at.
pub open spec fn payload_spec(body: Seq<u8>) -> Option<MessageView> {
    let kind = token(body, 0);
    if kind == ascii("POSITION"@) {
        match vector_spec(body) {
            Some(v) => Some(MessageView::Position(v)),
            None => None,
        }
    } else if kind == ascii("TRUE POSITION"@) {
        match vector_spec(body) {
            Some(v) => Some(MessageView::TruePosition(v)),
            None => None,
        }
    } else if kind == ascii("ACCELERATION"@) {
        match vector_spec(body) {
            Some(v) => Some(MessageView::Acceleration(v)),
            None => None,
        }
    } else if kind == ascii("DIRECTION"@) {
        match vector_spec(body) {
            Some(v) => Some(MessageView::Direction(v)),
            None => None,
        }
    } else if kind == ascii("SPEED"@) {
        match scalar_spec(body) {
            Some(s) => Some(MessageView::Speed(s)),
            None => None,
        }
    } else {
        None
    }
}

/// What a frame means, if anything: one of the four sentinels, matched whole, or
/// a header of `HEADER_LEN` bytes, whatever they hold, and a body.
pub open spec fn decode_spec(frame: Seq<u8>) -> Option<MessageView> {
    if frame == ascii("MSG_START"@) {
        Some(MessageView::Start)
    } else if frame == ascii("MSG_END"@) {
        Some(MessageView::End)
    } else if frame == ascii("GOODBYE."@) {
        Some(MessageView::Goodbye)
    } else if frame == ascii("Trajectory Generated!\nSending Info. . .\n"@) {
        Some(MessageView::Generation)
    } else if frame.len() < HEADER_LEN {
        None
    } else {
        payload_spec(frame.subrange(HEADER_LEN as int, frame.len() as int))
    }
}

/// Walks to the end of the line that starts at `from`.
fn next_line(s: &[u8], from: usize) -> (end: usize)
    requires
        from <= s.len(),
    ensures
        end == line_end(s@, from as int),
        from <= end <= s.len(),
{
    let mut i: usize = from;
    while i < s.len() && s[i] != NEWLINE
        invariant
            from <= i <= s.len(),
            line_end(s@, from as int) == line_end(s@, i as int),
        decreases s.len() - i,
    {
        i += 1;
    }
    i
}

/// Reads the token that starts at `start` as a number. Also returns where the
/// token ends.
fn read_number(body: &[u8], start: usize) -> (r: (Option<Number>, usize))
    requires
        start <= body.len(),
    ensures
        r.1 == line_end(body@, start as int),
        start <= r.1 <= body.len(),
        r.0 is Some <==> is_float_literal(body@.subrange(start as int, r.1 as int)),
        r.0 matches Some(n) ==> n@ == body@.subrange(start as int, r.1 as int) && n.wf(),
{
    let end = next_line(body, start);
    (Number::new(slice_subrange(body, start, end)), end)
}

/// Reads the one number after the kind, which ends at `kind_end`.
fn read_scalar(body: &[u8], kind_end: usize) -> (r: Option<Number>)
    requires
        kind_end == line_end(body@, 0),
        kind_end <= body.len(),
    ensures
        match r {
            Some(n) => scalar_spec(body@) == Some(n@) && n.wf(),
            None => scalar_spec(body@) is None,
        },
{
    proof {
        reveal_with_fuel(token_start, 3);
    }
    if kind_end >= body.len() {
        return None;
    }
    read_number(body, kind_end + 1).0
}

/// Reads the three numbers after the kind, which ends at `kind_end`.
fn read_vector(body: &[u8], kind_end: usize) -> (r: Option<Vector3>)
    requires
        kind_end == line_end(body@, 0),
        kind_end <= body.len(),
    ensures
        match r {
            Some(v) => vector_spec(body@) == Some(v@) && v.wf(),
            None => vector_spec(body@) is None,
        },
{
    proof {
        reveal_with_fuel(token_start, 5);
    }
    if kind_end >= body.len() {
        return None;
    }
    let (x, x_end) = read_number(body, kind_end + 1);
    if x_end >= body.len() {
        return None;
    }
    let (y, y_end) = read_number(body, x_end + 1);
    if y_end >= body.len() {
        return None;
    }
    let (z, _) = read_number(body, y_end + 1);
    match (x, y, z) {
        (Some(x), Some(y), Some(z)) => Some(Vector3 { x, y, z }),
        _ => None,
    }
}

fn decode_payload(body: &[u8]) -> (r: Option<Message>)
    ensures
        match r {
            Some(m) => payload_spec(body@) == Some(m@) && m@.wf(),
            None => payload_spec(body@) is None,
        },
{
    proof {
        reveal_strlit("POSITION");
        reveal_strlit("TRUE POSITION");
        reveal_strlit("ACCELERATION");
        reveal_strlit("DIRECTION");
        reveal_strlit("SPEED");
    }
    let kind_end = next_line(body, 0);
    let kind = slice_subrange(body, 0, kind_end);
    if is_text(kind, "POSITION") {
        match read_vector(body, kind_end) {
            Some(v) => Some(Message::Position(v)),
            None => None,
        }
    } else if is_text(kind, "TRUE POSITION") {
        match read_vector(body, kind_end) {
            Some(v) => Some(Message::TruePosition(v)),
            None => None,
        }
    } else if is_text(kind, "ACCELERATION") {
        match read_vector(body, kind_end) {
            Some(v) => Some(Message::Acceleration(v)),
            None => None,
        }
    } else if is_text(kind, "DIRECTION") {
        match read_vector(body, kind_end) {
            Some(v) => Some(Message::Direction(v)),
            None => None,
        }
    } else if is_text(kind, "SPEED") {
        match read_scalar(body, kind_end) {
            Some(s) => Some(Message::Speed(s)),
            None => None,
        }
    } else {
        None
    }
}

impl Message {
    /// Decodes one frame. A frame that means nothing is a `Parsing` error: one
    /// that is no sentinel and is shorter than its header, names no known kind,
    /// lacks a number that its kind asks for, or holds in a number's place a
    /// token that is no floating-point literal.
    pub fn decode(frame: &[u8]) -> (r: Result<Message, KalmanError>)
        ensures
            match r {
                Ok(m) => decode_spec(frame@) == Some(m@) && m@.wf(),
                Err(e) => decode_spec(frame@) is None && e == KalmanError::Parsing,
            },
    {
        proof {
            reveal_strlit("MSG_START");
            reveal_strlit("MSG_END");
            reveal_strlit("GOODBYE.");
            reveal_strlit("Trajectory Generated!\nSending Info. . .\n");
        }
        if is_text(frame, "MSG_START") {
            Ok(Message::Start)
        } else if is_text(frame, "MSG_END") {
            Ok(Message::End)
        } else if is_text(frame, "GOODBYE.") {
            Ok(Message::Goodbye)
        } else if is_text(frame, "Trajectory Generated!\nSending Info. . .\n") {
            Ok(Message::Generation)
        } else if frame.len() < HEADER_LEN {
            Err(KalmanError::Parsing)
        } else {
            match decode_payload(slice_subrange(frame, HEADER_LEN, frame.len())) {
                Some(m) => Ok(m),
                None => Err(KalmanError::Parsing),
            }
        }
    }
}

} // verus!
