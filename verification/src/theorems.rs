use vstd::prelude::*;
use crate::client::frame_spec;
use crate::error::KalmanError;
use crate::literal::{
    digits_end, exponent_at, is_decimal, is_digit, is_float_literal, is_sign, is_special,
    lemma_decimal_scan, lemma_digits_run, unsigned_part, EXPONENT as LOWER_E, POINT,
};
use crate::message::{
    decode_spec, has_token, line_end, payload_spec, scalar_spec, token, token_start,
    vector_spec, MessageView, Vector3View, HEADER_LEN, NEWLINE,
};
use crate::orchestrator::{
    due, handshake_in_order, prefix_in_order, receive_spec, rejected, step_spec, trace_spec,
    ActionView, Outcome, Phase, StateView,
};
use crate::text::{ascii, lower, spells};

verus! {

/// No newline stands in `s`.
pub open spec fn one_line(s: Seq<u8>) -> bool {
    forall|i: int| 0 <= i < s.len() ==> #[trigger] s[i] != NEWLINE
}

/// A line ends at the first newline after its start, or where the text ends.
proof fn lemma_line_ends_at(s: Seq<u8>, from: int, end: int)
    requires
        0 <= from <= end <= s.len(),
        forall|i: int| from <= i < end ==> #[trigger] s[i] != NEWLINE,
        end == s.len() || s[end] == NEWLINE,
    ensures
        line_end(s, from) == end,
    decreases end - from,
{
    if from < end {
        lemma_line_ends_at(s, from + 1, end);
    }
}

proof fn lemma_special_one_line(s: Seq<u8>)
    requires
        is_special(s),
    ensures
        one_line(s),
{
    reveal_strlit("inf");
    reveal_strlit("infinity");
    reveal_strlit("nan");
    assert forall|i: int| 0 <= i < s.len() implies #[trigger] s[i] != NEWLINE by {
        if s[i] == NEWLINE {
            assert(lower(s[i]) == NEWLINE);
            if spells(s, ascii("inf"@)) {
                assert(ascii("inf"@)[i] == NEWLINE);
            } else if spells(s, ascii("infinity"@)) {
                assert(ascii("infinity"@)[i] == NEWLINE);
            } else {
                assert(ascii("nan"@)[i] == NEWLINE);
            }
        }
    }
}

proof fn lemma_decimal_one_line(s: Seq<u8>)
    requires
        is_decimal(s),
    ensures
        one_line(s),
{
    lemma_decimal_scan(s);
    let whole = digits_end(s, 0);
    lemma_digits_run(s, 0);
    let point = whole < s.len() && s[whole] == POINT;
    if point {
        lemma_digits_run(s, whole + 1);
    }
    let mantissa = if point { digits_end(s, whole + 1) } else { whole };
    if mantissa != s.len() {
        assert(exponent_at(s, mantissa));
        let digits = if is_sign(s[mantissa + 1]) { mantissa + 2 } else { mantissa + 1 };
        lemma_digits_run(s, digits);
    }
    assert forall|i: int| 0 <= i < s.len() implies #[trigger] s[i] != NEWLINE by {
        if i < whole {
            assert(is_digit(s[i]));
        } else if i < mantissa {
            if i > whole {
                assert(is_digit(s[i]));
            }
        } else {
            let digits = if is_sign(s[mantissa + 1]) { mantissa + 2 } else { mantissa + 1 };
            if i >= digits {
                assert(is_digit(s[i]));
            }
        }
    }
}

/// A floating-point literal holds no newline, so it is one token of a frame.
pub proof fn lemma_literal_one_line(s: Seq<u8>)
    requires
        is_float_literal(s),
    ensures
        one_line(s),
{
    let rest = unsigned_part(s);
    if is_special(rest) {
        lemma_special_one_line(rest);
    } else {
        lemma_decimal_one_line(rest);
    }
    assert forall|i: int| 0 <= i < s.len() implies #[trigger] s[i] != NEWLINE by {
        if s.len() > 0 && is_sign(s[0]) {
            if i > 0 {
                assert(rest[i - 1] == s[i]);
            }
        }
    }
}

/// The frame of kind `kind` that carries `v`: the header, the kind and the three
/// numbers, one to a line.
pub open spec fn vector_frame(header: Seq<u8>, kind: Seq<u8>, v: Vector3View) -> Seq<u8> {
    header + (kind + seq![NEWLINE] + v.x + seq![NEWLINE] + v.y + seq![NEWLINE] + v.z)
}

/// The frame that carries the speed `speed`: the header, the kind and the number,
/// one to a line.
pub open spec fn speed_frame(header: Seq<u8>, speed: Seq<u8>) -> Seq<u8> {
    header + (ascii("SPEED"@) + seq![NEWLINE] + speed)
}

/// The tokens of four lines put together are those lines.
proof fn lemma_tokens_of_lines(a: Seq<u8>, b: Seq<u8>, c: Seq<u8>, d: Seq<u8>)
    requires
        one_line(a),
        one_line(b),
        one_line(c),
        one_line(d),
    ensures
        ({
            let s = a + seq![NEWLINE] + b + seq![NEWLINE] + c + seq![NEWLINE] + d;
            &&& has_token(s, 3)
            &&& token(s, 0) == a
            &&& token(s, 1) == b
            &&& token(s, 2) == c
            &&& token(s, 3) == d
        }),
{
    let s = a + seq![NEWLINE] + b + seq![NEWLINE] + c + seq![NEWLINE] + d;
    let b0: int = (a.len() + 1) as int;
    let c0: int = b0 + b.len() + 1;
    let d0: int = c0 + c.len() + 1;
    reveal_with_fuel(token_start, 5);
    lemma_line_ends_at(s, 0, a.len() as int);
    lemma_line_ends_at(s, b0, b0 + b.len());
    lemma_line_ends_at(s, c0, c0 + c.len());
    lemma_line_ends_at(s, d0, d0 + d.len());
    assert(token(s, 0) =~= a);
    assert(token(s, 1) =~= b);
    assert(token(s, 2) =~= c);
    assert(token(s, 3) =~= d);
}

/// The tokens of two lines put together are those lines.
proof fn lemma_tokens_of_pair(a: Seq<u8>, b: Seq<u8>)
    requires
        one_line(a),
        one_line(b),
    ensures
        ({
            let s = a + seq![NEWLINE] + b;
            &&& has_token(s, 1)
            &&& token(s, 0) == a
            &&& token(s, 1) == b
        }),
{
    let s = a + seq![NEWLINE] + b;
    let b0: int = (a.len() + 1) as int;
    reveal_with_fuel(token_start, 3);
    lemma_line_ends_at(s, 0, a.len() as int);
    lemma_line_ends_at(s, b0, b0 + b.len());
    assert(token(s, 0) =~= a);
    assert(token(s, 1) =~= b);
}

/// The name of a kind that carries a vector.
pub open spec fn is_vector_kind(kind: Seq<u8>) -> bool {
    ||| kind == ascii("POSITION"@)
    ||| kind == ascii("TRUE POSITION"@)
    ||| kind == ascii("ACCELERATION"@)
    ||| kind == ascii("DIRECTION"@)
}

/// The message of kind `kind` that carries `v`.
pub open spec fn vector_message(kind: Seq<u8>, v: Vector3View) -> MessageView {
    if kind == ascii("POSITION"@) {
        MessageView::Position(v)
    } else if kind == ascii("TRUE POSITION"@) {
        MessageView::TruePosition(v)
    } else if kind == ascii("ACCELERATION"@) {
        MessageView::Acceleration(v)
    } else {
        MessageView::Direction(v)
    }
}

/// A frame whose body does not start like the rest of a sentinel means what its
/// body means.
proof fn lemma_header_skipped(header: Seq<u8>, body: Seq<u8>)
    requires
        header.len() == HEADER_LEN,
        body.len() > 0,
        body[0] != LOWER_E,
    ensures
        decode_spec(header + body) == payload_spec(body),
{
    reveal_strlit("MSG_START");
    reveal_strlit("MSG_END");
    reveal_strlit("GOODBYE.");
    reveal_strlit("Trajectory Generated!\nSending Info. . .\n");
    let frame = header + body;
    assert(frame.subrange(HEADER_LEN as int, frame.len() as int) =~= body);
    assert(frame[HEADER_LEN as int] == body[0]);
    assert(ascii("Trajectory Generated!\nSending Info. . .\n"@)[HEADER_LEN as int] == LOWER_E);
}

/// The name of a kind is one line that starts with a capital letter, and no two
/// kinds share a name.
proof fn lemma_kind_names()
    ensures
        forall|kind: Seq<u8>|
            #[trigger] is_vector_kind(kind) || kind == ascii("SPEED"@) ==> one_line(kind)
                && kind.len() > 0 && kind[0] != LOWER_E,
        !is_vector_kind(ascii("SPEED"@)),
        ascii("POSITION"@) != ascii("TRUE POSITION"@),
        ascii("POSITION"@) != ascii("ACCELERATION"@),
        ascii("POSITION"@) != ascii("DIRECTION"@),
        ascii("TRUE POSITION"@) != ascii("ACCELERATION"@),
        ascii("TRUE POSITION"@) != ascii("DIRECTION"@),
        ascii("ACCELERATION"@) != ascii("DIRECTION"@),
{
    reveal_strlit("POSITION");
    reveal_strlit("TRUE POSITION");
    reveal_strlit("ACCELERATION");
    reveal_strlit("DIRECTION");
    reveal_strlit("SPEED");
    assert(ascii("POSITION"@).len() == 8);
    assert(ascii("TRUE POSITION"@).len() == 13);
    assert(ascii("ACCELERATION"@).len() == 12);
    assert(ascii("DIRECTION"@).len() == 9);
    assert(ascii("SPEED"@).len() == 5);
}

/// Decoding undoes framing. Take any header of the fixed length, the name of a
/// vector kind and three floating-point literals; put the header, the name and
/// the literals together, one to a line. That frame decodes to the message of
/// that kind with exactly those three literals, in that order.
pub proof fn lemma_vector_round_trip(header: Seq<u8>, kind: Seq<u8>, v: Vector3View)
    requires
        header.len() == HEADER_LEN,
        is_vector_kind(kind),
        v.wf(),
    ensures
        decode_spec(vector_frame(header, kind, v)) == Some(vector_message(kind, v)),
{
    let body = kind + seq![NEWLINE] + v.x + seq![NEWLINE] + v.y + seq![NEWLINE] + v.z;
    lemma_kind_names();
    assert(is_vector_kind(kind));
    lemma_literal_one_line(v.x);
    lemma_literal_one_line(v.y);
    lemma_literal_one_line(v.z);
    lemma_tokens_of_lines(kind, v.x, v.y, v.z);
    assert(vector_spec(body) == Some(v));
    assert(payload_spec(body) == Some(vector_message(kind, v)));
    assert(body[0] == kind[0]);
    lemma_header_skipped(header, body);
}

/// The same for the speed: the header, the name `SPEED` and one
/// floating-point literal decode to the speed with that literal.
pub proof fn lemma_speed_round_trip(header: Seq<u8>, speed: Seq<u8>)
    requires
        header.len() == HEADER_LEN,
        is_float_literal(speed),
    ensures
        decode_spec(speed_frame(header, speed)) == Some(MessageView::Speed(speed)),
{
    let kind = ascii("SPEED"@);
    let body = kind + seq![NEWLINE] + speed;
    lemma_kind_names();
    lemma_literal_one_line(speed);
    lemma_tokens_of_pair(kind, speed);
    assert(scalar_spec(body) == Some(speed));
    assert(body[0] == kind[0]);
    lemma_header_skipped(header, body);
}

/// The state in which frame `i` of a run finds the session.
pub open spec fn state_before(state: StateView, trace: Seq<Outcome>, i: int) -> StateView {
    if i == 0 {
        state
    } else {
        trace[i - 1].state
    }
}

/// A trace has one outcome for each frame: what the frame did to the state
/// that the frames before it left.
pub proof fn lemma_trace_steps(state: StateView, frames: Seq<Seq<u8>>)
    ensures
        trace_spec(state, frames).len() == frames.len(),
        forall|i: int|
            0 <= i < frames.len() ==> #[trigger] trace_spec(state, frames)[i] == step_spec(
                state_before(state, trace_spec(state, frames), i),
                frames[i],
            ),
    decreases frames.len(),
{
    if frames.len() > 0 {
        lemma_trace_steps(state, frames.drop_last());
        let before = trace_spec(state, frames.drop_last());
        let trace = trace_spec(state, frames);
        assert forall|i: int| 0 <= i < frames.len() implies #[trigger] trace[i] == step_spec(
            state_before(state, trace, i),
            frames[i],
        ) by {
            if i < frames.len() - 1 {
                assert(trace[i] == before[i]);
                assert(frames.drop_last()[i] == frames[i]);
                assert(state_before(state, trace, i) == state_before(state, before, i));
            }
        }
    }
}

/// The handshake takes its six frames in order and in no other way. Fed to a
/// new session, six frames that are each of its kind and in its place leave
/// the session in the steady state: the first five ask for nothing, and the
/// sixth asks to initialise the filter with the position, the speed and the
/// heading that came. Six frames of which one is out of place, or does not
/// decode, end the session: the first such frame is refused as `Parsing`, and
/// not one of the six asks for anything that touches the filter.
pub proof fn lemma_handshake_order(frames: Seq<Seq<u8>>)
    requires
        frames.len() == 6,
    ensures
        ({
            let trace = trace_spec(StateView::AwaitingStart, frames);
            &&& trace.len() == 6
            &&& handshake_in_order(frames) ==> {
                &&& forall|i: int|
                    0 <= i < 5 ==> (#[trigger] trace[i]).result == Ok::<ActionView, KalmanError>(
                        ActionView::Continue,
                    )
                &&& trace[5].state == StateView::SteadyState
                &&& trace[5].result == Ok::<ActionView, KalmanError>(
                    ActionView::Init {
                        position: decode_spec(frames[1])->Some_0->TruePosition_0,
                        speed: decode_spec(frames[2])->Some_0->Speed_0,
                        heading: decode_spec(frames[4])->Some_0->Direction_0,
                    },
                )
            }
            &&& !handshake_in_order(frames) ==> {
                &&& trace[5].state == StateView::Terminated
                &&& exists|i: int| 0 <= i < 6 && #[trigger] trace[i] == rejected()
                &&& forall|i: int|
                    0 <= i < 6 ==> !((#[trigger] trace[i]).result matches Ok(action)
                        && action.mutates_filter())
            }
        }),
{
    let trace = trace_spec(StateView::AwaitingStart, frames);
    lemma_trace_steps(StateView::AwaitingStart, frames);
    assert(trace[0] == step_spec(state_before(StateView::AwaitingStart, trace, 0), frames[0]));
    assert(trace[1] == step_spec(state_before(StateView::AwaitingStart, trace, 1), frames[1]));
    assert(trace[2] == step_spec(state_before(StateView::AwaitingStart, trace, 2), frames[2]));
    assert(trace[3] == step_spec(state_before(StateView::AwaitingStart, trace, 3), frames[3]));
    assert(trace[4] == step_spec(state_before(StateView::AwaitingStart, trace, 4), frames[4]));
    assert(trace[5] == step_spec(state_before(StateView::AwaitingStart, trace, 5), frames[5]));
}

/// What holds of the state `state` that `k` frames left: while the handshake
/// goes on, the session has taken just those frames and each was in its place;
/// in the steady state, six frames or more came and the first six were the
/// handshake.
pub open spec fn on_course(frames: Seq<Seq<u8>>, k: int, state: StateView) -> bool {
    match state.phase() {
        Phase::AwaitingHandshake => k == state.progress() && prefix_in_order(frames, k),
        Phase::SteadyState => k >= 6 && prefix_in_order(frames, 6),
        Phase::Terminated => true,
    }
}

proof fn lemma_on_course(frames: Seq<Seq<u8>>, k: int)
    requires
        0 <= k <= frames.len(),
    ensures
        on_course(
            frames,
            k,
            state_before(StateView::AwaitingStart, trace_spec(StateView::AwaitingStart, frames), k),
        ),
    decreases k,
{
    let trace = trace_spec(StateView::AwaitingStart, frames);
    lemma_trace_steps(StateView::AwaitingStart, frames);
    if k > 0 {
        lemma_on_course(frames, k - 1);
        let before = state_before(StateView::AwaitingStart, trace, k - 1);
        assert(trace[k - 1] == step_spec(before, frames[k - 1]));
        let after = trace[k - 1].state;
        if after.phase() != Phase::Terminated {
            assert(before.phase() != Phase::Terminated);
            if before.phase() == Phase::AwaitingHandshake {
                assert(due(k - 1, decode_spec(frames[k - 1])));
                assert(prefix_in_order(frames, k));
            }
        }
    }
}

/// The filter is not touched before the handshake is through. Whatever frames
/// a new session is fed, a frame asks for something that touches the filter
/// only if the first six frames were the handshake, each in its place; the
/// sixth frame then asks to initialise the filter, and only frames after it
/// ask for predictions and corrections.
pub proof fn lemma_filter_waits_for_handshake(frames: Seq<Seq<u8>>, i: int)
    requires
        0 <= i < frames.len(),
    ensures
        ({
            let outcome = trace_spec(StateView::AwaitingStart, frames)[i];
            match outcome.result {
                Ok(action) => action.mutates_filter() ==> {
                    &&& i >= 5
                    &&& prefix_in_order(frames, 6)
                    &&& action is Init <==> i == 5
                },
                Err(_) => true,
            }
        }),
{
    let trace = trace_spec(StateView::AwaitingStart, frames);
    lemma_trace_steps(StateView::AwaitingStart, frames);
    lemma_on_course(frames, i);
    let before = state_before(StateView::AwaitingStart, trace, i);
    assert(trace[i] == step_spec(before, frames[i]));
    if trace[i].result is Ok && trace[i].result->Ok_0.mutates_filter() {
        if before.phase() == Phase::AwaitingHandshake {
            assert(due(i, decode_spec(frames[i])));
            assert(prefix_in_order(frames, 6));
        }
    }
}

/// A datagram that fills the receive buffer is refused for its length alone:
/// whatever the buffer holds, a session that is not over ends with
/// `MessageTooLong`, and the outcome is the same for any other content.
pub proof fn lemma_oversized_refused(state: StateView, buf: Seq<u8>, other: Seq<u8>, len: usize)
    requires
        len >= buf.len(),
        other.len() == buf.len(),
    ensures
        frame_spec(buf, len) == Err::<Seq<u8>, KalmanError>(KalmanError::MessageTooLong(len)),
        receive_spec(state, buf, len) == receive_spec(state, other, len),
        !(state is Terminated) ==> receive_spec(state, buf, len) == (Outcome {
            state: StateView::Terminated,
            result: Err(KalmanError::MessageTooLong(len)),
        }),
{
}

} // verus!
