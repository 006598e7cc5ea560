use vstd::prelude::*;
use vstd::string::is_ascii_spec_bytes;

verus! {

/// The bytes of an ASCII text: each character as one byte.
pub open spec fn ascii(text: Seq<char>) -> Seq<u8> {
    Seq::new(text.len(), |i: int| text[i] as u8)
}

/// The letter `A`.
pub const UPPER_A: u8 = 65;

/// The letter `Z`.
pub const UPPER_Z: u8 = 90;

/// How far a lower-case ASCII letter lies above its upper-case form.
pub const CASE_GAP: u8 = 32;

/// An upper-case ASCII letter becomes its lower-case form; every other byte stays.
pub open spec fn lower(b: u8) -> u8 {
    if UPPER_A <= b <= UPPER_Z {
        (b + CASE_GAP) as u8
    } else {
        b
    }
}

/// `s` reads as `word` once its upper-case letters are lowered.
pub open spec fn spells(s: Seq<u8>, word: Seq<u8>) -> bool {
    &&& s.len() == word.len()
    &&& forall|i: int| 0 <= i < s.len() ==> lower(#[trigger] s[i]) == word[i]
}

/// Lowers one byte.
pub(crate) fn to_lower(b: u8) -> (r: u8)
    ensures
        r == lower(b),
{
    if UPPER_A <= b && b <= UPPER_Z {
        b + CASE_GAP
    } else {
        b
    }
}

/// Whether two byte strings are the same.
pub(crate) fn same_bytes(a: &[u8], b: &[u8]) -> (r: bool)
    ensures
        r == (a@ == b@),
{
    if a.len() != b.len() {
        return false;
    }
    let mut i: usize = 0;
    while i < a.len()
        invariant
            i <= a.len(),
            a.len() == b.len(),
            forall|j: int| 0 <= j < i ==> a@[j] == b@[j],
        decreases a.len() - i,
    {
        if a[i] != b[i] {
            return false;
        }
        i += 1;
    }
    assert(a@ =~= b@);
    true
}

/// Whether `frame` is exactly the ASCII text `text`.
pub(crate) fn is_text(frame: &[u8], text: &str) -> (r: bool)
    requires
        text.is_ascii(),
    ensures
        r == (frame@ == ascii(text@)),
{
    let t = text.as_bytes();
    proof {
        is_ascii_spec_bytes(text);
        assert(t@ =~= ascii(text@));
    }
    same_bytes(frame, t)
}

/// Whether `s` is the lower-case ASCII word `word`, whatever the case of its letters.
pub(crate) fn spells_word(s: &[u8], word: &str) -> (r: bool)
    requires
        word.is_ascii(),
    ensures
        r == spells(s@, ascii(word@)),
{
    let w = word.as_bytes();
    proof {
        is_ascii_spec_bytes(word);
        assert(w@ =~= ascii(word@));
    }
    if s.len() != w.len() {
        return false;
    }
    let mut i: usize = 0;
    while i < s.len()
        invariant
            i <= s.len(),
            s.len() == w.len(),
            w@ == ascii(word@),
            forall|j: int| 0 <= j < i ==> lower(#[trigger] s@[j]) == w@[j],
        decreases s.len() - i,
    {
        if to_lower(s[i]) != w[i] {
            return false;
        }
        i += 1;
    }
    true
}

/// Appends `bytes` to `out`.
pub(crate) fn append_bytes(out: &mut Vec<u8>, bytes: &[u8])
    ensures
        final(out)@ == old(out)@ + bytes@,
{
    let mut i: usize = 0;
    while i < bytes.len()
        invariant
            i <= bytes.len(),
            out@ == old(out)@ + bytes@.subrange(0, i as int),
        decreases bytes.len() - i,
    {
        out.push(bytes[i]);
        i += 1;
        assert(out@ =~= old(out)@ + bytes@.subrange(0, i as int));
    }
    assert(bytes@.subrange(0, i as int) =~= bytes@);
}

/// Appends the ASCII text `text` to `out`.
pub(crate) fn append_text(out: &mut Vec<u8>, text: &str)
    requires
        text.is_ascii(),
    ensures
        final(out)@ == old(out)@ + ascii(text@),
{
    let t = text.as_bytes();
    proof {
        is_ascii_spec_bytes(text);
        assert(t@ =~= ascii(text@));
    }
    append_bytes(out, t);
}

} // verus!
