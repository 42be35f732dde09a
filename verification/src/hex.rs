//! Hexadecimal encoding of byte strings.

use crate::text::{digit_char, digit_str, label, push_label};
use vstd::prelude::*;
use vstd::string::*;

verus! {

/// The two hexadecimal digits of one byte, high half first, in lower case.
pub open spec fn byte_digits(b: u8) -> Seq<char> {
    seq![digit_char(b as int / 16), digit_char(b as int % 16)]
}

/// The hexadecimal encoding of `bytes`: each byte becomes its two digits, in
/// the order of the bytes.
pub open spec fn encoded(bytes: Seq<u8>) -> Seq<char>
    decreases bytes.len(),
{
    if bytes.len() == 0 {
        Seq::empty()
    } else {
        encoded(bytes.drop_last()) + byte_digits(bytes.last())
    }
}

/// An encoding is twice as long as its source, and the digits of byte `i`
/// stand at `2 * i` and `2 * i + 1`.
pub proof fn lemma_encoded_digits(bytes: Seq<u8>)
    ensures
        encoded(bytes).len() == 2 * bytes.len(),
        forall|i: int|
            0 <= i < bytes.len() ==> {
                &&& encoded(bytes)[2 * i] == digit_char(#[trigger] bytes[i] as int / 16)
                &&& encoded(bytes)[2 * i + 1] == digit_char(bytes[i] as int % 16)
            },
    decreases bytes.len(),
{
    if bytes.len() > 0 {
        lemma_encoded_digits(bytes.drop_last());
        assert forall|i: int| 0 <= i < bytes.len() implies {
            &&& encoded(bytes)[2 * i] == digit_char(#[trigger] bytes[i] as int / 16)
            &&& encoded(bytes)[2 * i + 1] == digit_char(bytes[i] as int % 16)
        } by {
            if i < bytes.len() - 1 {
                assert(bytes.drop_last()[i] == bytes[i]);
            }
        }
    }
}

/// Appends the hexadecimal encoding of `src`.
pub fn push_encoded(out: &mut String, src: &[u8])
    ensures
        final(out)@ == old(out)@ + encoded(src@),
{
    let ghost before = out@;
    let n: usize = src.len();
    let mut i: usize = 0;
    assert(src@.subrange(0, 0) =~= Seq::<u8>::empty());
    assert(out@ =~= before + encoded(src@.subrange(0, 0)));
    while i < n
        invariant
            i <= n,
            n == src.len(),
            out@ == before + encoded(src@.subrange(0, i as int)),
        decreases n - i,
    {
        let b: u8 = src[i];
        let ghost sofar = out@;
        out.append(digit_str(b / 16));
        out.append(digit_str(b % 16));
        proof {
            let next = src@.subrange(0, i + 1);
            assert(next.drop_last() =~= src@.subrange(0, i as int));
            assert(next.last() == b);
            assert(out@ =~= sofar + byte_digits(b));
            assert(out@ =~= before + encoded(next));
        }
        i += 1;
    }
    assert(src@.subrange(0, n as int) =~= src@);
}

/// The hexadecimal encoding of `src`, in lower case.
pub fn encode_to_string(src: &[u8]) -> (out: String)
    ensures
        out@ == encoded(src@),
{
    let mut out = String::new();
    push_encoded(&mut out, src);
    assert(out@ =~= encoded(src@));
    out
}

/// A field's label and the encoding of its bytes.
pub open spec fn hex_entry(name: &str, width: usize, bytes: Seq<u8>) -> Seq<char> {
    label(name, width) + encoded(bytes)
}

/// A line that shows a field's bytes.
pub open spec fn hex_line(name: &str, width: usize, bytes: Seq<u8>) -> Seq<char> {
    hex_entry(name, width, bytes) + "\n"@
}

/// A line that shows a field's bytes behind `0x`.
pub open spec fn prefixed_hex_line(name: &str, width: usize, bytes: Seq<u8>) -> Seq<char> {
    label(name, width) + "0x"@ + encoded(bytes) + "\n"@
}

/// Appends a field's label and the encoding of its bytes.
pub fn push_hex_entry(out: &mut String, name: &str, width: usize, bytes: &[u8])
    ensures
        final(out)@ == old(out)@ + hex_entry(name, width, bytes@),
{
    let ghost before = out@;
    push_label(out, name, width);
    push_encoded(out, bytes);
    assert(out@ =~= before + hex_entry(name, width, bytes@));
}

/// Appends a line that shows a field's bytes.
pub fn push_hex_line(out: &mut String, name: &str, width: usize, bytes: &[u8])
    ensures
        final(out)@ == old(out)@ + hex_line(name, width, bytes@),
{
    let ghost before = out@;
    push_hex_entry(out, name, width, bytes);
    out.append("\n");
    assert(out@ =~= before + hex_line(name, width, bytes@));
}

/// Appends a line that shows a field's bytes behind `0x`.
pub fn push_prefixed_hex_line(out: &mut String, name: &str, width: usize, bytes: &[u8])
    ensures
        final(out)@ == old(out)@ + prefixed_hex_line(name, width, bytes@),
{
    let ghost before = out@;
    push_label(out, name, width);
    out.append("0x");
    push_encoded(out, bytes);
    out.append("\n");
    assert(out@ =~= before + prefixed_hex_line(name, width, bytes@));
}

} // verus!
