//! RGB colors: parsing from and rendering to hex notation.

use vstd::prelude::*;
use crate::strutil::count_leading;

verus! {

/// Represents RGB color components.
#[derive(Debug, Clone, Copy, PartialEq, Eq, Structural)]
pub struct RGB {
    pub r: u8,
    pub g: u8,
    pub b: u8,
}

pub open spec fn hash_pred() -> spec_fn(char) -> bool {
    |c: char| c == '#'
}

/// The input with every leading '#' removed, as `trim_start_matches('#')`
/// removes them.
pub open spec fn spec_strip_hashes(s: Seq<char>) -> Seq<char> {
    s.skip(count_leading(s, hash_pred()) as int)
}

pub open spec fn spec_is_hex_digit(c: char) -> bool {
    ||| ('0' <= c && c <= '9')
    ||| ('a' <= c && c <= 'f')
    ||| ('A' <= c && c <= 'F')
}

pub open spec fn spec_hex_val(c: char) -> int {
    if '0' <= c && c <= '9' {
        c as int - '0' as int
    } else if 'a' <= c && c <= 'f' {
        c as int - 'a' as int + 10
    } else {
        c as int - 'A' as int + 10
    }
}

/// What parsing two characters as a base-16 byte yields: two hex digits, or
/// a leading plus sign and one hex digit, as `u8::from_str_radix` accepts.
pub open spec fn spec_pair_val(hi: char, lo: char) -> Option<u8> {
    if spec_is_hex_digit(hi) && spec_is_hex_digit(lo) {
        Some((spec_hex_val(hi) * 16 + spec_hex_val(lo)) as u8)
    } else if hi == '+' && spec_is_hex_digit(lo) {
        Some(spec_hex_val(lo) as u8)
    } else {
        None
    }
}

fn is_hex_digit(c: char) -> (r: bool)
    ensures
        r == spec_is_hex_digit(c),
{
    ('0' <= c && c <= '9') || ('a' <= c && c <= 'f') || ('A' <= c && c <= 'F')
}

fn hex_val(c: char) -> (r: u8)
    requires
        spec_is_hex_digit(c),
    ensures
        r == spec_hex_val(c),
        r < 16,
{
    if '0' <= c && c <= '9' {
        (c as u8) - ('0' as u8)
    } else if 'a' <= c && c <= 'f' {
        (c as u8) - ('a' as u8) + 10
    } else {
        (c as u8) - ('A' as u8) + 10
    }
}

fn pair_val(hi: char, lo: char) -> (r: Option<u8>)
    ensures
        r == spec_pair_val(hi, lo),
{
    if is_hex_digit(hi) && is_hex_digit(lo) {
        Some(hex_val(hi) * 16 + hex_val(lo))
    } else if hi == '+' && is_hex_digit(lo) {
        Some(hex_val(lo))
    } else {
        None
    }
}

/// The uppercase hex digit for a nibble.
pub open spec fn spec_hex_digit(n: int) -> char {
    if n == 0 {
        '0'
    } else if n == 1 {
        '1'
    } else if n == 2 {
        '2'
    } else if n == 3 {
        '3'
    } else if n == 4 {
        '4'
    } else if n == 5 {
        '5'
    } else if n == 6 {
        '6'
    } else if n == 7 {
        '7'
    } else if n == 8 {
        '8'
    } else if n == 9 {
        '9'
    } else if n == 10 {
        'A'
    } else if n == 11 {
        'B'
    } else if n == 12 {
        'C'
    } else if n == 13 {
        'D'
    } else if n == 14 {
        'E'
    } else {
        'F'
    }
}

fn hex_digit_str(n: u8) -> (r: &'static str)
    requires
        n < 16,
    ensures
        r@ =~= seq![spec_hex_digit(n as int)],
{
    proof {
        reveal_strlit("0");
        reveal_strlit("1");
        reveal_strlit("2");
        reveal_strlit("3");
        reveal_strlit("4");
        reveal_strlit("5");
        reveal_strlit("6");
        reveal_strlit("7");
        reveal_strlit("8");
        reveal_strlit("9");
        reveal_strlit("A");
        reveal_strlit("B");
        reveal_strlit("C");
        reveal_strlit("D");
        reveal_strlit("E");
        reveal_strlit("F");
    }
    if n == 0 {
        "0"
    } else if n == 1 {
        "1"
    } else if n == 2 {
        "2"
    } else if n == 3 {
        "3"
    } else if n == 4 {
        "4"
    } else if n == 5 {
        "5"
    } else if n == 6 {
        "6"
    } else if n == 7 {
        "7"
    } else if n == 8 {
        "8"
    } else if n == 9 {
        "9"
    } else if n == 10 {
        "A"
    } else if n == 11 {
        "B"
    } else if n == 12 {
        "C"
    } else if n == 13 {
        "D"
    } else if n == 14 {
        "E"
    } else {
        "F"
    }
}

/// The hex rendering of a color: '#' and six uppercase hex digits.
pub open spec fn spec_to_hex(c: RGB) -> Seq<char> {
    seq![
        '#',
        spec_hex_digit(c.r as int / 16),
        spec_hex_digit(c.r as int % 16),
        spec_hex_digit(c.g as int / 16),
        spec_hex_digit(c.g as int % 16),
        spec_hex_digit(c.b as int / 16),
        spec_hex_digit(c.b as int % 16),
    ]
}

impl RGB {
    /// Parses a hex color string (with any leading '#' characters removed)
    /// into its three components. The input is accepted exactly when the
    /// remainder is six characters, each consecutive pair a base-16 byte.
    pub fn from_hex(hex: &str) -> (r: Result<RGB, String>)
        ensures
            ({
                let t = spec_strip_hashes(hex@);
                &&& (r is Ok <==> t.len() == 6 && spec_pair_val(t[0], t[1]) is Some
                    && spec_pair_val(t[2], t[3]) is Some && spec_pair_val(t[4], t[5]) is Some)
                &&& (r is Ok ==> r->Ok_0 == (RGB {
                    r: spec_pair_val(t[0], t[1])->0,
                    g: spec_pair_val(t[2], t[3])->0,
                    b: spec_pair_val(t[4], t[5])->0,
                }))
                &&& (t.len() != 6 ==> (r matches Err(e) && e@ == "Invalid hex color: "@ + t))
                &&& (t.len() == 6 && spec_pair_val(t[0], t[1]) is None ==> (r matches Err(e) && e@
                    == "Invalid red component: "@ + t.subrange(0, 2)))
                &&& (t.len() == 6 && spec_pair_val(t[0], t[1]) is Some && spec_pair_val(t[2], t[3])
                    is None ==> (r matches Err(e) && e@ == "Invalid green component: "@
                    + t.subrange(2, 4)))
                &&& (t.len() == 6 && spec_pair_val(t[0], t[1]) is Some && spec_pair_val(t[2], t[3])
                    is Some && spec_pair_val(t[4], t[5]) is None ==> (r matches Err(e) && e@
                    == "Invalid blue component: "@ + t.subrange(4, 6)))
            }),
    {
        let n = hex.unicode_len();
        let mut start: usize = 0;
        while start < n && hex.get_char(start) == '#'
            invariant
                0 <= start <= n,
                n == hex@.len(),
                forall|k: int| 0 <= k < start ==> #[trigger] hash_pred()(hex@[k]),
            decreases n - start,
        {
            proof {
                assert(hash_pred()(hex@[start as int]));
            }
            start = start + 1;
        }
        proof {
            if start < n {
                assert(!hash_pred()(hex@[start as int]));
            }
            crate::strutil::lemma_count_leading_is_index(hex@, hash_pred(), start as int);
        }
        let stripped = hex.substring_char(start, n);
        proof {
            assert(stripped@ =~= spec_strip_hashes(hex@));
        }
        let len = stripped.unicode_len();
        if len != 6 {
            let mut e = "Invalid hex color: ".to_owned();
            e.append(stripped);
            return Err(e);
        }
        let red = match pair_val(stripped.get_char(0), stripped.get_char(1)) {
            Some(v) => v,
            None => {
                let mut e = "Invalid red component: ".to_owned();
                let pair = stripped.substring_char(0, 2);
                proof {
                    assert(pair@ =~= spec_strip_hashes(hex@).subrange(0, 2));
                }
                e.append(pair);
                return Err(e);
            },
        };
        let green = match pair_val(stripped.get_char(2), stripped.get_char(3)) {
            Some(v) => v,
            None => {
                let mut e = "Invalid green component: ".to_owned();
                let pair = stripped.substring_char(2, 4);
                proof {
                    assert(pair@ =~= spec_strip_hashes(hex@).subrange(2, 4));
                }
                e.append(pair);
                return Err(e);
            },
        };
        let blue = match pair_val(stripped.get_char(4), stripped.get_char(5)) {
            Some(v) => v,
            None => {
                let mut e = "Invalid blue component: ".to_owned();
                let pair = stripped.substring_char(4, 6);
                proof {
                    assert(pair@ =~= spec_strip_hashes(hex@).subrange(4, 6));
                }
                e.append(pair);
                return Err(e);
            },
        };
        Ok(RGB { r: red, g: green, b: blue })
    }

    /// Renders the color as '#' followed by six uppercase hex digits.
    pub fn to_hex(&self) -> (r: String)
        ensures
            r@ == spec_to_hex(*self),
    {
        let mut s = "#".to_owned();
        s.append(hex_digit_str(self.r / 16));
        s.append(hex_digit_str(self.r % 16));
        s.append(hex_digit_str(self.g / 16));
        s.append(hex_digit_str(self.g % 16));
        s.append(hex_digit_str(self.b / 16));
        s.append(hex_digit_str(self.b % 16));
        proof {
            reveal_strlit("#");
            assert(s@ =~= spec_to_hex(*self));
        }
        s
    }
}

} // verus!
