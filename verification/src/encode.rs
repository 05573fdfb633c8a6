//! Lowercase hexadecimal encoding of binary fields (addresses, hashes,
//! signatures, payloads), together with a decoder and the proof that decoding
//! inverts encoding.

use vstd::prelude::*;
use vstd::string::StrSliceExecFns;

verus! {

/// Lowercase hexadecimal digit character for a value below sixteen.
pub open spec fn hex_digit(d: nat) -> char {
    if d == 0 {
        '0'
    } else if d == 1 {
        '1'
    } else if d == 2 {
        '2'
    } else if d == 3 {
        '3'
    } else if d == 4 {
        '4'
    } else if d == 5 {
        '5'
    } else if d == 6 {
        '6'
    } else if d == 7 {
        '7'
    } else if d == 8 {
        '8'
    } else if d == 9 {
        '9'
    } else if d == 10 {
        'a'
    } else if d == 11 {
        'b'
    } else if d == 12 {
        'c'
    } else if d == 13 {
        'd'
    } else if d == 14 {
        'e'
    } else {
        'f'
    }
}

/// Lowercase hexadecimal encoding of a byte string: two digits per byte,
/// high nibble first; the empty string encodes to the empty string.
pub open spec fn hex_of(b: Seq<u8>) -> Seq<char>
    decreases b.len(),
{
    if b.len() == 0 {
        Seq::empty()
    } else {
        hex_of(b.drop_last()) + seq![
            hex_digit((b.last() / 16) as nat),
            hex_digit((b.last() % 16) as nat),
        ]
    }
}

/// Value of one hexadecimal digit character, or a negative value for a
/// character that is no lowercase hexadecimal digit.
pub open spec fn hex_val(c: char) -> int {
    if c == '0' {
        0
    } else if c == '1' {
        1
    } else if c == '2' {
        2
    } else if c == '3' {
        3
    } else if c == '4' {
        4
    } else if c == '5' {
        5
    } else if c == '6' {
        6
    } else if c == '7' {
        7
    } else if c == '8' {
        8
    } else if c == '9' {
        9
    } else if c == 'a' {
        10
    } else if c == 'b' {
        11
    } else if c == 'c' {
        12
    } else if c == 'd' {
        13
    } else if c == 'e' {
        14
    } else if c == 'f' {
        15
    } else {
        -1
    }
}

/// Decoding of a lowercase hexadecimal string back to bytes: `None` on odd
/// length or on any character that is no lowercase hexadecimal digit.
pub open spec fn unhex(s: Seq<char>) -> Option<Seq<u8>>
    decreases s.len(),
{
    if s.len() == 0 {
        Some(Seq::empty())
    } else if s.len() == 1 {
        None
    } else {
        let hi = hex_val(s[s.len() - 2]);
        let lo = hex_val(s[s.len() - 1]);
        if hi < 0 || lo < 0 {
            None
        } else {
            match unhex(s.take(s.len() - 2)) {
                Some(p) => Some(p.push((hi * 16 + lo) as u8)),
                None => None,
            }
        }
    }
}

/// The two-character string of one lowercase hexadecimal digit.
fn hex_digit_str(d: u8) -> (r: &'static str)
    requires
        d < 16,
    ensures
        r@ == seq![hex_digit(d as nat)],
{
    proof {
        reveal_strlit("0");
        reveal_strlit("1");
        reveal_strlit("2");
        reveal_strlit("3");
        reveal_strlit("4");
        reveal_strlit("5");
        reveal_strlit("6");
        reveal_strlit("7");
        reveal_strlit("8");
        reveal_strlit("9");
        reveal_strlit("a");
        reveal_strlit("b");
        reveal_strlit("c");
        reveal_strlit("d");
        reveal_strlit("e");
        reveal_strlit("f");
    }
    let r: &'static str = if d == 0 {
        "0"
    } else if d == 1 {
        "1"
    } else if d == 2 {
        "2"
    } else if d == 3 {
        "3"
    } else if d == 4 {
        "4"
    } else if d == 5 {
        "5"
    } else if d == 6 {
        "6"
    } else if d == 7 {
        "7"
    } else if d == 8 {
        "8"
    } else if d == 9 {
        "9"
    } else if d == 10 {
        "a"
    } else if d == 11 {
        "b"
    } else if d == 12 {
        "c"
    } else if d == 13 {
        "d"
    } else if d == 14 {
        "e"
    } else {
        "f"
    };
    proof {
        assert(r@ =~= seq![hex_digit(d as nat)]);
    }
    r
}

/// Encodes a byte string as lowercase hexadecimal, two digits per byte;
/// the empty input yields the empty string.
pub fn bytes_to_hex(b: &Vec<u8>) -> (r: String)
    ensures
        r@ == hex_of(b@),
{
    let mut r = String::new();
    let mut i: usize = 0;
    while i < b.len()
        invariant
            i <= b.len(),
            r@ == hex_of(b@.take(i as int)),
        decreases b.len() - i,
    {
        let byte = b[i];
        r.append(hex_digit_str(byte / 16));
        r.append(hex_digit_str(byte % 16));
        proof {
            assert(b@.take(i as int + 1).drop_last() =~= b@.take(i as int));
            assert(b@.take(i as int + 1).last() == b@[i as int]);
            assert(r@ =~= hex_of(b@.take(i as int + 1)));
        }
        i = i + 1;
    }
    proof {
        assert(b@.take(b@.len() as int) =~= b@);
    }
    r
}

/// Value of one character as a lowercase hexadecimal digit.
fn hex_char_val(c: char) -> (r: Option<u8>)
    ensures
        match r {
            Some(d) => d < 16 && hex_val(c) == d as int,
            None => hex_val(c) < 0,
        },
{
    if c == '0' {
        Some(0)
    } else if c == '1' {
        Some(1)
    } else if c == '2' {
        Some(2)
    } else if c == '3' {
        Some(3)
    } else if c == '4' {
        Some(4)
    } else if c == '5' {
        Some(5)
    } else if c == '6' {
        Some(6)
    } else if c == '7' {
        Some(7)
    } else if c == '8' {
        Some(8)
    } else if c == '9' {
        Some(9)
    } else if c == 'a' {
        Some(10)
    } else if c == 'b' {
        Some(11)
    } else if c == 'c' {
        Some(12)
    } else if c == 'd' {
        Some(13)
    } else if c == 'e' {
        Some(14)
    } else if c == 'f' {
        Some(15)
    } else {
        None
    }
}

/// A string of odd length decodes to nothing.
proof fn lemma_unhex_odd(s: Seq<char>)
    requires
        s.len() % 2 == 1,
    ensures
        unhex(s) is None,
    decreases s.len(),
{
    if s.len() > 1 {
        lemma_unhex_odd(s.take(s.len() - 2));
    }
}

/// A string with an invalid digit pair at an even position decodes to nothing.
proof fn lemma_unhex_invalid_pair(s: Seq<char>, i: int)
    requires
        s.len() % 2 == 0,
        i % 2 == 0,
        0 <= i,
        i + 2 <= s.len(),
        hex_val(s[i]) < 0 || hex_val(s[i + 1]) < 0,
    ensures
        unhex(s) is None,
    decreases s.len(),
{
    if i + 2 < s.len() {
        let t = s.take(s.len() - 2);
        assert(t[i] == s[i] && t[i + 1] == s[i + 1]);
        lemma_unhex_invalid_pair(t, i);
    }
}

/// Decodes a lowercase hexadecimal string to bytes: `None` exactly on odd
/// length or on a character that is no lowercase hexadecimal digit.
pub fn hex_decode(s: &str) -> (r: Option<Vec<u8>>)
    ensures
        match r {
            Some(v) => unhex(s@) == Some(v@),
            None => unhex(s@) is None,
        },
{
    let n = s.unicode_len();
    if n % 2 != 0 {
        proof {
            lemma_unhex_odd(s@);
        }
        return None;
    }
    let mut v: Vec<u8> = Vec::new();
    let mut i: usize = 0;
    while i < n
        invariant
            n == s@.len(),
            n % 2 == 0,
            i % 2 == 0,
            i <= n,
            unhex(s@.take(i as int)) == Some(v@),
        decreases n - i,
    {
        let c1 = s.get_char(i);
        let c2 = s.get_char(i + 1);
        let h1 = hex_char_val(c1);
        let h2 = hex_char_val(c2);
        match (h1, h2) {
            (Some(d1), Some(d2)) => {
                v.push(d1 * 16 + d2);
                proof {
                    let t = s@.take(i as int + 2);
                    assert(t[t.len() - 2] == s@[i as int]);
                    assert(t[t.len() - 1] == s@[i as int + 1]);
                    assert(t.take(t.len() - 2) =~= s@.take(i as int));
                    assert(unhex(s@.take(i as int + 2)) == Some(v@));
                }
                i = i + 2;
            },
            _ => {
                proof {
                    lemma_unhex_invalid_pair(s@, i as int);
                }
                return None;
            },
        }
    }
    proof {
        assert(s@.take(n as int) =~= s@);
    }
    Some(v)
}

/// The length of an encoding: two digit characters for each byte.
pub proof fn lemma_hex_len(b: Seq<u8>)
    ensures
        hex_of(b).len() == 2 * b.len(),
    decreases b.len(),
{
    if b.len() > 0 {
        lemma_hex_len(b.drop_last());
    }
}

/// Encoding digits are valid digits: the digit character of a value below
/// sixteen decodes back to that value.
proof fn lemma_hex_digit_val(d: nat)
    requires
        d < 16,
    ensures
        hex_val(hex_digit(d)) == d,
{
}

/// Decoding inverts encoding: every byte string comes back from its
/// lowercase hexadecimal form, and the empty string encodes to the empty
/// string.
pub proof fn lemma_hex_round_trip(b: Seq<u8>)
    ensures
        unhex(hex_of(b)) == Some(b),
        hex_of(Seq::<u8>::empty()) == Seq::<char>::empty(),
    decreases b.len(),
{
    if b.len() == 0 {
        assert(b =~= Seq::<u8>::empty());
    } else {
        lemma_hex_round_trip(b.drop_last());
        lemma_hex_len(b.drop_last());
        let h = hex_of(b);
        let x = b.last();
        lemma_hex_digit_val((x / 16) as nat);
        lemma_hex_digit_val((x % 16) as nat);
        assert(h[h.len() - 2] == hex_digit((x / 16) as nat));
        assert(h[h.len() - 1] == hex_digit((x % 16) as nat));
        assert(h.take(h.len() - 2) =~= hex_of(b.drop_last()));
        assert((x / 16) * 16 + (x % 16) == x) by {
            assert(x == 16 * (x / 16) + x % 16);
        }
        assert(b.drop_last().push(b.last()) =~= b);
    }
}

} // verus!
