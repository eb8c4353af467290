//! Lower-case hexadecimal text of bytes, as identifiers are shown in messages.

use vstd::prelude::*;
use vstd::string::StringExecFns;

verus! {

/// The sixteen hexadecimal digits, in order of their value.
pub open spec fn hex_digits() -> Seq<char> {
    seq!['0', '1', '2', '3', '4', '5', '6', '7', '8', '9', 'a', 'b', 'c', 'd', 'e', 'f']
}

/// The hexadecimal text of `bytes`: two digits for each byte, the high half
/// first, in the order of the bytes.
pub open spec fn hex_of(bytes: Seq<u8>) -> Seq<char> {
    Seq::new(
        2 * bytes.len(),
        |i: int|
            if i % 2 == 0 {
                hex_digits()[bytes[i / 2] as int / 16]
            } else {
                hex_digits()[bytes[i / 2] as int % 16]
            },
    )
}

/// The prefix that marks hexadecimal text.
pub open spec fn hex_prefix() -> Seq<char> {
    seq!['0', 'x']
}

/// The hexadecimal text of `bytes` behind the prefix `0x`.
pub open spec fn prefixed_hex_of(bytes: Seq<u8>) -> Seq<char> {
    hex_prefix() + hex_of(bytes)
}

/// The text of a sequence that ends in `last` is the text of what stands
/// before it, followed by the two digits of `last`.
pub proof fn lemma_hex_of_push(bytes: Seq<u8>, last: u8)
    ensures
        hex_of(bytes.push(last)) == hex_of(bytes) + seq![
            hex_digits()[last as int / 16],
            hex_digits()[last as int % 16],
        ],
{
    assert(hex_of(bytes.push(last)) =~= hex_of(bytes) + seq![
        hex_digits()[last as int / 16],
        hex_digits()[last as int % 16],
    ]);
}

/// The digit of value `n`, as text.
fn digit(n: u8) -> (text: &'static str)
    requires
        n < 16,
    ensures
        text@ == seq![hex_digits()[n as int]],
{
    let text = match n {
        0 => "0",
        1 => "1",
        2 => "2",
        3 => "3",
        4 => "4",
        5 => "5",
        6 => "6",
        7 => "7",
        8 => "8",
        9 => "9",
        10 => "a",
        11 => "b",
        12 => "c",
        13 => "d",
        14 => "e",
        _ => "f",
    };
    proof {
        reveal_strlit("0");
        reveal_strlit("1");
        reveal_strlit("2");
        reveal_strlit("3");
        reveal_strlit("4");
        reveal_strlit("5");
        reveal_strlit("6");
        reveal_strlit("7");
        reveal_strlit("8");
        reveal_strlit("9");
        reveal_strlit("a");
        reveal_strlit("b");
        reveal_strlit("c");
        reveal_strlit("d");
        reveal_strlit("e");
        reveal_strlit("f");
        assert(text@ =~= seq![hex_digits()[n as int]]);
    }
    text
}

/// Appends the two hexadecimal digits of `byte` to `out`.
pub fn append_byte_hex(out: &mut String, byte: u8)
    ensures
        final(out)@ == old(out)@ + hex_of(seq![byte]),
{
    out.append(digit(byte / 16));
    out.append(digit(byte % 16));
    assert(out@ =~= old(out)@ + hex_of(seq![byte]));
}

/// Appends the hexadecimal text of `bytes` to `out`.
pub fn append_hex(out: &mut String, bytes: &[u8])
    ensures
        final(out)@ == old(out)@ + hex_of(bytes@),
{
    let mut i: usize = 0;
    assert(out@ =~= old(out)@ + hex_of(bytes@.take(0)));
    while i < bytes.len()
        invariant
            i <= bytes.len(),
            out@ == old(out)@ + hex_of(bytes@.take(i as int)),
        decreases bytes.len() - i,
    {
        let byte: u8 = bytes[i];
        append_byte_hex(out, byte);
        proof {
            assert(bytes@.take(i + 1) =~= bytes@.take(i as int).push(byte));
            lemma_hex_of_push(bytes@.take(i as int), byte);
            assert(out@ =~= old(out)@ + hex_of(bytes@.take(i + 1)));
        }
        i = i + 1;
    }
    assert(bytes@.take(i as int) =~= bytes@);
}

/// Appends the prefix `0x` and the hexadecimal text of `bytes` to `out`.
pub fn append_prefixed_hex(out: &mut String, bytes: &[u8])
    ensures
        final(out)@ == old(out)@ + prefixed_hex_of(bytes@),
{
    proof {
        reveal_strlit("0x");
    }
    out.append("0x");
    assert(out@ =~= old(out)@ + hex_prefix());
    append_hex(out, bytes);
    assert(out@ =~= old(out)@ + prefixed_hex_of(bytes@));
}

} // verus!
