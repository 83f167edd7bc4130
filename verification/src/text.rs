//! Verified text encoders: decimal numerals, hexadecimal byte strings, and
//! comma-separated numeral lists. The response encoder is built on these.

use vstd::prelude::*;
use vstd::string::StringExecFns;

verus! {

/// The character standing for the decimal digit `d`.
pub open spec fn digit_char(d: nat) -> char {
    if d == 0 {
        '0'
    } else if d == 1 {
        '1'
    } else if d == 2 {
        '2'
    } else if d == 3 {
        '3'
    } else if d == 4 {
        '4'
    } else if d == 5 {
        '5'
    } else if d == 6 {
        '6'
    } else if d == 7 {
        '7'
    } else if d == 8 {
        '8'
    } else {
        '9'
    }
}

/// Decimal numeral of `n`, most significant digit first, no leading zeros
/// (except for `n == 0`, which is written `0`).
pub open spec fn dec_of(n: nat) -> Seq<char>
    decreases n,
{
    if n < 10 {
        seq![digit_char(n)]
    } else {
        dec_of(n / 10).push(digit_char(n % 10))
    }
}

/// The character standing for the hexadecimal digit `d`, lower case.
pub open spec fn hexdig_char(d: nat) -> char {
    if d < 10 {
        digit_char(d)
    } else if d == 10 {
        'a'
    } else if d == 11 {
        'b'
    } else if d == 12 {
        'c'
    } else if d == 13 {
        'd'
    } else if d == 14 {
        'e'
    } else {
        'f'
    }
}

/// Two hexadecimal digits for one byte, high nibble first.
pub open spec fn hex_of_byte(b: u8) -> Seq<char> {
    seq![hexdig_char(b as nat / 16), hexdig_char(b as nat % 16)]
}

/// Hexadecimal rendering of a byte string, two digits per byte.
pub open spec fn hex_of_bytes(bs: Seq<u8>) -> Seq<char>
    decreases bs.len(),
{
    if bs.len() == 0 {
        Seq::<char>::empty()
    } else {
        hex_of_byte(bs[0]) + hex_of_bytes(bs.skip(1))
    }
}

/// Comma-separated decimal numerals of `ids`, in order, no trailing comma.
pub open spec fn dec_list_of(ids: Seq<u64>) -> Seq<char>
    decreases ids.len(),
{
    if ids.len() == 0 {
        Seq::<char>::empty()
    } else if ids.len() == 1 {
        dec_of(ids[0] as nat)
    } else {
        dec_of(ids[0] as nat) + seq![','] + dec_list_of(ids.skip(1))
    }
}

/// The one-character string of the decimal digit `d`.
fn digit_str(d: u64) -> (s: &'static str)
    requires
        d < 10,
    ensures
        s@ == seq![digit_char(d as nat)],
{
    let s: &'static str = if d == 0 {
        "0"
    } else if d == 1 {
        "1"
    } else if d == 2 {
        "2"
    } else if d == 3 {
        "3"
    } else if d == 4 {
        "4"
    } else if d == 5 {
        "5"
    } else if d == 6 {
        "6"
    } else if d == 7 {
        "7"
    } else if d == 8 {
        "8"
    } else {
        "9"
    };
    proof {
        reveal_strlit("0");
        reveal_strlit("1");
        reveal_strlit("2");
        reveal_strlit("3");
        reveal_strlit("4");
        reveal_strlit("5");
        reveal_strlit("6");
        reveal_strlit("7");
        reveal_strlit("8");
        reveal_strlit("9");
        assert(s@ =~= seq![digit_char(d as nat)]);
    }
    s
}

/// The one-character string of the hexadecimal digit `d`, lower case.
fn hexdig_str(d: u64) -> (s: &'static str)
    requires
        d < 16,
    ensures
        s@ == seq![hexdig_char(d as nat)],
{
    if d < 10 {
        digit_str(d)
    } else {
        let s: &'static str = if d == 10 {
            "a"
        } else if d == 11 {
            "b"
        } else if d == 12 {
            "c"
        } else if d == 13 {
            "d"
        } else if d == 14 {
            "e"
        } else {
            "f"
        };
        proof {
            reveal_strlit("a");
            reveal_strlit("b");
            reveal_strlit("c");
            reveal_strlit("d");
            reveal_strlit("e");
            reveal_strlit("f");
            assert(s@ =~= seq![hexdig_char(d as nat)]);
        }
        s
    }
}

/// Decimal rendering of `n`.
pub fn dec_string(n: u64) -> (s: String)
    ensures
        s@ == dec_of(n as nat),
    decreases n,
{
    if n < 10 {
        let mut s = String::new();
        s.append(digit_str(n));
        proof {
            assert(s@ =~= dec_of(n as nat));
        }
        s
    } else {
        let mut s = dec_string(n / 10);
        s.append(digit_str(n % 10));
        proof {
            assert(s@ =~= dec_of(n as nat));
        }
        s
    }
}

proof fn lemma_hex_of_bytes_push(bs: Seq<u8>, b: u8)
    ensures
        hex_of_bytes(bs.push(b)) == hex_of_bytes(bs) + hex_of_byte(b),
    decreases bs.len(),
{
    if bs.len() == 0 {
        assert(bs.push(b).skip(1) =~= Seq::<u8>::empty());
        assert(bs.push(b)[0] == b);
        assert(hex_of_bytes(bs.push(b)) == hex_of_byte(b) + hex_of_bytes(Seq::<u8>::empty()));
        assert(hex_of_bytes(bs.push(b)) =~= hex_of_bytes(bs) + hex_of_byte(b));
    } else {
        assert(bs.push(b).skip(1) =~= bs.skip(1).push(b));
        assert(bs.push(b)[0] == bs[0]);
        lemma_hex_of_bytes_push(bs.skip(1), b);
        assert(hex_of_bytes(bs.push(b)) == hex_of_byte(bs[0]) + (hex_of_bytes(bs.skip(1))
            + hex_of_byte(b)));
        assert(hex_of_bytes(bs.push(b)) =~= hex_of_bytes(bs) + hex_of_byte(b));
    }
}

/// Hexadecimal rendering of `bytes`, two lower-case digits per byte.
pub fn hex_string(bytes: &Vec<u8>) -> (s: String)
    ensures
        s@ == hex_of_bytes(bytes@),
{
    let mut s = String::new();
    let mut i: usize = 0;
    proof {
        assert(bytes@.take(0) =~= Seq::<u8>::empty());
    }
    while i < bytes.len()
        invariant
            i <= bytes@.len(),
            s@ == hex_of_bytes(bytes@.take(i as int)),
        decreases bytes@.len() - i,
    {
        let b = bytes[i];
        s.append(hexdig_str((b / 16) as u64));
        s.append(hexdig_str((b % 16) as u64));
        proof {
            assert(bytes@.take(i + 1) =~= bytes@.take(i as int).push(b));
            lemma_hex_of_bytes_push(bytes@.take(i as int), b);
            assert(s@ =~= hex_of_bytes(bytes@.take(i + 1)));
        }
        i = i + 1;
    }
    proof {
        assert(bytes@.take(bytes@.len() as int) =~= bytes@);
    }
    s
}

/// Comma-separated decimal rendering of `ids[from..]`.
fn dec_list_string_from(ids: &Vec<u64>, from: usize) -> (s: String)
    requires
        from <= ids@.len(),
    ensures
        s@ == dec_list_of(ids@.skip(from as int)),
    decreases ids@.len() - from,
{
    if from == ids.len() {
        let s = String::new();
        proof {
            assert(ids@.skip(from as int) =~= Seq::<u64>::empty());
        }
        s
    } else {
        let mut s = dec_string(ids[from]);
        if from + 1 < ids.len() {
            s.append(",");
            proof {
                reveal_strlit(",");
                assert(","@ =~= seq![',']);
            }
        }
        let rest = dec_list_string_from(ids, from + 1);
        s.append(rest.as_str());
        proof {
            assert(ids@.skip(from as int).skip(1) =~= ids@.skip(from as int + 1));
            assert(ids@.skip(from as int)[0] == ids@[from as int]);
            assert(s@ =~= dec_list_of(ids@.skip(from as int)));
        }
        s
    }
}

/// Comma-separated decimal rendering of `ids`, in order.
pub fn dec_list_string(ids: &Vec<u64>) -> (s: String)
    ensures
        s@ == dec_list_of(ids@),
{
    let s = dec_list_string_from(ids, 0);
    proof {
        assert(ids@.skip(0) =~= ids@);
    }
    s
}

} // verus!
