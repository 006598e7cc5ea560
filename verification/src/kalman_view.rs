use vstd::prelude::*;
use crate::text::{append_bytes, append_text, ascii};

verus! {

/// How a session shows itself. Each method returns the bytes to write to the
/// terminal; writing them is the caller's part.
pub trait KalmanView {
    /// What to write when the session starts.
    fn start(&self) -> Vec<u8>;

    /// What to write to show `message`.
    fn print_message(&self, message: &[u8]) -> Vec<u8>;

    /// What to write when the session is over.
    fn end(&self) -> Vec<u8>;
}

/// A view on a plain terminal, which shows each message in the same five lines.
#[derive(Debug, Clone, Copy, PartialEq, Eq, Structural)]
pub struct CLIView {}

/// One line of blanks, as wide as the widest line shown.
pub open spec fn blank_line() -> Seq<u8> {
    ascii("                                 \n"@)
}

/// The escape sequences that move the cursor up five lines.
pub open spec fn cursor_up() -> Seq<u8> {
    ascii("\x1b[1A\x1b[1A\x1b[1A\x1b[1A\x1b[1A"@)
}

/// What shows `message`: five blank lines to wipe what was there, the cursor
/// back up, the message and a newline, and the cursor up again.
pub open spec fn shown(message: Seq<u8>) -> Seq<u8> {
    blank_line() + blank_line() + blank_line() + blank_line() + blank_line() + cursor_up()
        + message + ascii("\n"@) + cursor_up()
}

impl KalmanView for CLIView {
    fn start(&self) -> (r: Vec<u8>)
        ensures
            r@ == ascii("\n"@),
    {
        proof {
            reveal_strlit("\n");
        }
        let mut out: Vec<u8> = Vec::new();
        append_text(&mut out, "\n");
        assert(out@ =~= ascii("\n"@));
        out
    }

    fn print_message(&self, message: &[u8]) -> (r: Vec<u8>)
        ensures
            r@ == shown(message@),
    {
        proof {
            reveal_strlit("                                 \n");
            reveal_strlit("\x1b[1A\x1b[1A\x1b[1A\x1b[1A\x1b[1A");
            reveal_strlit("\n");
        }
        let mut out: Vec<u8> = Vec::new();
        append_text(&mut out, "                                 \n");
        append_text(&mut out, "                                 \n");
        append_text(&mut out, "                                 \n");
        append_text(&mut out, "                                 \n");
        append_text(&mut out, "                                 \n");
        append_text(&mut out, "\x1b[1A\x1b[1A\x1b[1A\x1b[1A\x1b[1A");
        append_bytes(&mut out, message);
        append_text(&mut out, "\n");
        append_text(&mut out, "\x1b[1A\x1b[1A\x1b[1A\x1b[1A\x1b[1A");
        assert(out@ =~= shown(message@));
        out
    }

    fn end(&self) -> (r: Vec<u8>)
        ensures
            r@ == ascii("\n\n\n\n\n"@),
    {
        proof {
            reveal_strlit("\n\n\n\n\n");
        }
        let mut out: Vec<u8> = Vec::new();
        append_text(&mut out, "\n\n\n\n\n");
        assert(out@ =~= ascii("\n\n\n\n\n"@));
        out
    }
}

} // verus!
