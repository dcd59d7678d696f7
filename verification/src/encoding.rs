//! Byte-level encodings used when deriving aliases: big-endian integer
//! bytes for the entropy composition, and the lower-case hexadecimal
//! rendering of a byte string (one digit for a byte below sixteen, two
//! digits otherwise).

use vstd::prelude::*;
use vstd::string::StringExecFns;

verus! {

/// The lower-case hexadecimal digit for a value below sixteen.
pub open spec fn hex_digit(d: u8) -> char {
    if d == 0 {
        '0'
    } else if d == 1 {
        '1'
    } else if d == 2 {
        '2'
    } else if d == 3 {
        '3'
    } else if d == 4 {
        '4'
    } else if d == 5 {
        '5'
    } else if d == 6 {
        '6'
    } else if d == 7 {
        '7'
    } else if d == 8 {
        '8'
    } else if d == 9 {
        '9'
    } else if d == 10 {
        'a'
    } else if d == 11 {
        'b'
    } else if d == 12 {
        'c'
    } else if d == 13 {
        'd'
    } else if d == 14 {
        'e'
    } else {
        'f'
    }
}

/// The hexadecimal rendering of one byte: a single digit below sixteen,
/// two digits otherwise.
pub open spec fn hex_of_byte(b: u8) -> Seq<char> {
    if b < 16 {
        seq![hex_digit(b)]
    } else {
        seq![hex_digit(b / 16), hex_digit(b % 16)]
    }
}

/// The hexadecimal rendering of a byte string, byte by byte.
pub open spec fn hex_of(s: Seq<u8>) -> Seq<char>
    decreases s.len(),
{
    if s.len() == 0 {
        Seq::empty()
    } else {
        hex_of(s.drop_last()) + hex_of_byte(s.last())
    }
}

fn hex_digit_str(d: u8) -> (r: &'static str)
    requires
        d < 16,
    ensures
        r@ == seq![hex_digit(d)],
{
    let r: &'static str = match d {
        0 => "0",
        1 => "1",
        2 => "2",
        3 => "3",
        4 => "4",
        5 => "5",
        6 => "6",
        7 => "7",
        8 => "8",
        9 => "9",
        10 => "a",
        11 => "b",
        12 => "c",
        13 => "d",
        14 => "e",
        _ => "f",
    };
    proof {
        reveal_strlit("0");
        reveal_strlit("1");
        reveal_strlit("2");
        reveal_strlit("3");
        reveal_strlit("4");
        reveal_strlit("5");
        reveal_strlit("6");
        reveal_strlit("7");
        reveal_strlit("8");
        reveal_strlit("9");
        reveal_strlit("a");
        reveal_strlit("b");
        reveal_strlit("c");
        reveal_strlit("d");
        reveal_strlit("e");
        reveal_strlit("f");
        assert(r@ =~= seq![hex_digit(d)]);
    }
    r
}

/// Renders a byte string in lower-case hexadecimal.
pub fn hex_encode(bytes: &Vec<u8>) -> (r: String)
    ensures
        r@ == hex_of(bytes@),
{
    let n: usize = bytes.len();
    let mut out = String::new();
    let mut i: usize = 0;
    while i < n
        invariant
            n == bytes@.len(),
            0 <= i <= n,
            out@ == hex_of(bytes@.take(i as int)),
        decreases n - i,
    {
        let b = bytes[i];
        if b < 16 {
            out.append(hex_digit_str(b));
        } else {
            out.append(hex_digit_str(b / 16));
            out.append(hex_digit_str(b % 16));
        }
        proof {
            assert(bytes@.take(i + 1 as int).drop_last() =~= bytes@.take(i as int));
            assert(bytes@.take(i + 1 as int).last() == bytes@[i as int]);
        }
        i = i + 1;
    }
    proof {
        assert(bytes@.take(n as int) =~= bytes@);
    }
    out
}

/// The eight bytes of an unsigned 64-bit integer, most significant first.
pub open spec fn be64_of(x: u64) -> Seq<u8> {
    seq![
        ((x >> 56) & 0xff) as u8,
        ((x >> 48) & 0xff) as u8,
        ((x >> 40) & 0xff) as u8,
        ((x >> 32) & 0xff) as u8,
        ((x >> 24) & 0xff) as u8,
        ((x >> 16) & 0xff) as u8,
        ((x >> 8) & 0xff) as u8,
        (x & 0xff) as u8,
    ]
}

/// Appends the big-endian bytes of `x`.
pub fn push_be64(out: &mut Vec<u8>, x: u64)
    ensures
        final(out)@ == old(out)@ + be64_of(x),
{
    proof {
        assert((x >> 56) & 0xff < 256 && (x >> 48) & 0xff < 256 && (x >> 40) & 0xff < 256 && (x
            >> 32) & 0xff < 256 && (x >> 24) & 0xff < 256 && (x >> 16) & 0xff < 256 && (x >> 8)
            & 0xff < 256 && x & 0xff < 256) by (bit_vector);
    }
    out.push(((x >> 56) & 0xff) as u8);
    out.push(((x >> 48) & 0xff) as u8);
    out.push(((x >> 40) & 0xff) as u8);
    out.push(((x >> 32) & 0xff) as u8);
    out.push(((x >> 24) & 0xff) as u8);
    out.push(((x >> 16) & 0xff) as u8);
    out.push(((x >> 8) & 0xff) as u8);
    out.push((x & 0xff) as u8);
    proof {
        assert(final(out)@ =~= old(out)@ + be64_of(x));
    }
}

/// Appends a byte slice.
pub fn push_bytes(out: &mut Vec<u8>, src: &[u8])
    ensures
        final(out)@ == old(out)@ + src@,
{
    let n: usize = src.len();
    let mut i: usize = 0;
    while i < n
        invariant
            n == src@.len(),
            0 <= i <= n,
            out@ == old(out)@ + src@.take(i as int),
        decreases n - i,
    {
        out.push(src[i]);
        proof {
            assert(old(out)@ + src@.take(i + 1 as int) =~= (old(out)@ + src@.take(i as int)).push(
                src@[i as int],
            ));
        }
        i = i + 1;
    }
    proof {
        assert(old(out)@ + src@.take(n as int) =~= old(out)@ + src@);
    }
}

} // verus!
