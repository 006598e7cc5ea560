use vstd::prelude::*;
use vstd::slice::slice_subrange;
use vstd::utf8::valid_utf8;
use crate::error::KalmanError;
use crate::message::{decode_spec, MessageView};
use crate::text::{append_bytes, ascii, is_text};

verus! {

/// The size of the receive buffer that a client is meant to use.
pub const MAX_LEN: usize = 1024;

/// The byte that separates the numbers of a position report.
pub const SPACE: u8 = 32;

/// `std::str::from_utf8`, asked only whether it succeeds: it does so exactly on
/// the byte strings that are well-formed UTF-8.
#[verifier::external_body]
fn is_utf8(bytes: &[u8]) -> (ok: bool)
    ensures
        ok == valid_utf8(bytes@),
{
    std::str::from_utf8(bytes).is_ok()
}

/// What a received datagram is, as far as `buf` and `len` tell.
pub open spec fn frame_spec(buf: Seq<u8>, len: usize) -> Result<Seq<u8>, KalmanError> {
    if len >= buf.len() {
        Err(KalmanError::MessageTooLong(len))
    } else if !valid_utf8(buf.subrange(0, len as int)) {
        Err(KalmanError::InvalidUtf8)
    } else {
        Ok(buf.subrange(0, len as int))
    }
}

/// The frame that a datagram of `len` bytes left in the receive buffer `buf`. A
/// datagram that fills the buffer, or is said to be longer still, may have been
/// cut: it is refused as `MessageTooLong` whatever it holds, and nothing of it
/// is read. One that is not UTF-8 is refused as `InvalidUtf8`.
pub fn frame_of_datagram(buf: &[u8], len: usize) -> (r: Result<&[u8], KalmanError>)
    ensures
        match r {
            Ok(frame) => frame_spec(buf@, len) == Ok::<Seq<u8>, KalmanError>(frame@),
            Err(e) => frame_spec(buf@, len) == Err::<Seq<u8>, KalmanError>(e),
        },
{
    if len >= buf.len() {
        return Err(KalmanError::MessageTooLong(len));
    }
    let frame = slice_subrange(buf, 0, len);
    if is_utf8(frame) {
        Ok(frame)
    } else {
        Err(KalmanError::InvalidUtf8)
    }
}

/// What the client sends until the peer answers.
pub fn ready_probe() -> (r: &'static [u8])
    ensures
        r@ == ascii("READY"@),
{
    proof {
        reveal_strlit("READY");
        vstd::string::is_ascii_spec_bytes("READY");
    }
    let r = "READY".as_bytes();
    assert(r@ =~= ascii("READY"@));
    r
}

/// What one round of probing came to.
#[derive(Debug, Clone, Copy, PartialEq, Eq, Structural)]
pub enum Probe {
    /// The peer has a trajectory: the handshake can begin.
    Connected,
    /// Another frame came: it is shown and otherwise ignored.
    Ignored,
    /// Nothing came in time, or receiving failed: try again.
    Retry,
}

/// What a reply to the probe means, over models.
pub open spec fn probe_spec(reply: Result<Seq<u8>, KalmanError>) -> Probe {
    match reply {
        Ok(frame) => if decode_spec(frame) == Some(MessageView::Generation) {
            Probe::Connected
        } else {
            Probe::Ignored
        },
        Err(_) => Probe::Retry,
    }
}

/// Judges what came back after a probe. Only the frame that decodes to
/// `Generation` ends the probing; no error does.
pub fn probe_reply(reply: &Result<&[u8], KalmanError>) -> (r: Probe)
    ensures
        r == probe_spec(
            match *reply {
                Ok(frame) => Ok(frame@),
                Err(e) => Err(e),
            },
        ),
{
    match reply {
        Ok(frame) => {
            proof {
                reveal_strlit("MSG_START");
                reveal_strlit("MSG_END");
                reveal_strlit("GOODBYE.");
                reveal_strlit("Trajectory Generated!\nSending Info. . .\n");
            }
            if is_text(frame, "Trajectory Generated!\nSending Info. . .\n") {
                Probe::Connected
            } else {
                Probe::Ignored
            }
        },
        Err(_) => Probe::Retry,
    }
}

/// The report of a position: the three numbers with one space between them.
pub open spec fn position_spec(x: Seq<u8>, y: Seq<u8>, z: Seq<u8>) -> Seq<u8> {
    x + seq![SPACE] + y + seq![SPACE] + z
}

/// Builds the report of the position whose coordinates are written as `x`, `y`
/// and `z`: no header before them, no newline after.
pub fn encode_position(x: &[u8], y: &[u8], z: &[u8]) -> (r: Vec<u8>)
    ensures
        r@ == position_spec(x@, y@, z@),
{
    let mut out: Vec<u8> = Vec::new();
    append_bytes(&mut out, x);
    out.push(SPACE);
    append_bytes(&mut out, y);
    out.push(SPACE);
    append_bytes(&mut out, z);
    assert(out@ =~= position_spec(x@, y@, z@));
    out
}

} // verus!
