use vstd::prelude::*;
use vstd::string::StrSliceExecFns;

use crate::color::{lemma_unpack_pack, pack_spec, unpack_spec, Rgba};

verus! {

/// Why a string is not a `#RRGGBBAA` color.
#[derive(Clone, Copy, Debug, PartialEq, Eq, Hash)]
pub enum HexColorError {
    /// The string does not start with `#`.
    MissingHash,
    /// The string starts with `#` but is not followed by exactly eight characters.
    InvalidLength,
    /// One of the eight characters after `#` is not a hexadecimal digit.
    InvalidDigit,
}

pub open spec fn is_hex_digit(c: char) -> bool {
    ('0' <= c && c <= '9') || ('a' <= c && c <= 'f') || ('A' <= c && c <= 'F')
}

/// The value of a hexadecimal digit, either case.
pub open spec fn hex_digit_value(c: char) -> int {
    if '0' <= c && c <= '9' {
        c as int - '0' as int
    } else if 'a' <= c && c <= 'f' {
        c as int - 'a' as int + 10
    } else {
        c as int - 'A' as int + 10
    }
}

/// The uppercase hexadecimal digits, in order of value.
pub open spec fn upper_hex_digits() -> Seq<char> {
    seq!['0', '1', '2', '3', '4', '5', '6', '7', '8', '9', 'A', 'B', 'C', 'D', 'E', 'F']
}

/// The value of a string of hexadecimal digits, most significant first.
pub open spec fn hex_value(s: Seq<char>) -> nat
    decreases s.len(),
{
    if s.len() == 0 {
        0
    } else {
        (hex_value(s.drop_last()) * 16 + hex_digit_value(s.last())) as nat
    }
}

/// The lowest `n` hexadecimal digits of `v`, uppercase, most significant first.
pub open spec fn hex_text(v: nat, n: nat) -> Seq<char>
    decreases n,
{
    if n == 0 {
        Seq::empty()
    } else {
        hex_text(v / 16, (n - 1) as nat).push(upper_hex_digits()[(v % 16) as int])
    }
}

/// `#` followed by exactly eight hexadecimal digits, of either case.
pub open spec fn is_hex_color_text(s: Seq<char>) -> bool {
    &&& s.len() == 9
    &&& s[0] == '#'
    &&& forall|i: int| 1 <= i < 9 ==> is_hex_digit(#[trigger] s[i])
}

/// The text with every hexadecimal digit written in uppercase.
pub open spec fn canonical_hex_text(s: Seq<char>) -> Seq<char> {
    s.map_values(|c: char| if is_hex_digit(c) { upper_hex_digits()[hex_digit_value(c)] } else { c })
}

/// The `#RRGGBBAA` text of an 8-bit color.
pub open spec fn hex_color_text(c: Rgba<u8>) -> Seq<char> {
    seq!['#'] + hex_text(pack_spec(c) as nat, 8)
}

/// What reading `s` as a `#RRGGBBAA` color gives.
pub open spec fn parse_hex_color(s: Seq<char>) -> Result<Rgba<u8>, HexColorError> {
    if s.len() == 0 || s[0] != '#' {
        Err(HexColorError::MissingHash)
    } else if s.len() != 9 {
        Err(HexColorError::InvalidLength)
    } else if !is_hex_color_text(s) {
        Err(HexColorError::InvalidDigit)
    } else {
        Ok(unpack_spec(hex_value(s.drop_first()) as u32))
    }
}

pub open spec fn pow16(n: nat) -> int
    decreases n,
{
    if n == 0 {
        1
    } else {
        16 * pow16((n - 1) as nat)
    }
}

proof fn lemma_hex_value_bound(s: Seq<char>)
    requires
        forall|i: int| 0 <= i < s.len() ==> is_hex_digit(#[trigger] s[i]),
    ensures
        hex_value(s) < pow16(s.len()),
    decreases s.len(),
{
    if s.len() > 0 {
        let t = s.drop_last();
        assert forall|i: int| 0 <= i < t.len() implies is_hex_digit(#[trigger] t[i]) by {
            assert(t[i] == s[i]);
        }
        lemma_hex_value_bound(t);
        assert(is_hex_digit(s[s.len() - 1]));
        let h = hex_value(t) as int;
        let d = hex_digit_value(s.last());
        let p = pow16(t.len());
        assert(h * 16 + d < 16 * p) by (nonlinear_arith)
            requires
                0 <= h < p,
                0 <= d < 16,
        ;
    }
}

proof fn lemma_hex_text_of_value(s: Seq<char>)
    requires
        forall|i: int| 0 <= i < s.len() ==> is_hex_digit(#[trigger] s[i]),
    ensures
        hex_text(hex_value(s), s.len()) == canonical_hex_text(s),
    decreases s.len(),
{
    if s.len() > 0 {
        let t = s.drop_last();
        assert forall|i: int| 0 <= i < t.len() implies is_hex_digit(#[trigger] t[i]) by {
            assert(t[i] == s[i]);
        }
        lemma_hex_text_of_value(t);
        assert(is_hex_digit(s[s.len() - 1]));
        let h = hex_value(t);
        let d = hex_digit_value(s.last());
        assert((h * 16 + d) / 16 == h && (h * 16 + d) % 16 == d) by (nonlinear_arith)
            requires
                0 <= d < 16,
                h >= 0,
        ;
        assert(canonical_hex_text(s) =~= canonical_hex_text(t).push(
            upper_hex_digits()[hex_digit_value(s.last())],
        ));
    }
}

/// Reading a valid `#RRGGBBAA` text and writing the color again gives the
/// same text with its digits in uppercase.
pub proof fn lemma_hex_round_trip(s: Seq<char>)
    requires
        is_hex_color_text(s),
    ensures
        parse_hex_color(s) is Ok,
        hex_color_text(parse_hex_color(s)->Ok_0) == canonical_hex_text(s),
{
    let payload = s.drop_first();
    assert forall|i: int| 0 <= i < payload.len() implies is_hex_digit(#[trigger] payload[i]) by {
        assert(payload[i] == s[i + 1]);
    }
    lemma_hex_value_bound(payload);
    reveal_with_fuel(pow16, 9);
    let v = hex_value(payload) as u32;
    lemma_unpack_pack(v);
    lemma_hex_text_of_value(payload);
    assert(canonical_hex_text(s) =~= seq!['#'] + canonical_hex_text(payload));
}


/// Relies on `String: FromIterator<char>`: the string holds the characters
/// in order.
#[verifier::external_body]
fn string_from_chars(v: &Vec<char>) -> (r: String)
    ensures
        r@ == v@,
{
    String::from_iter(v.iter())
}

fn hex_digit(c: char) -> (r: Option<u32>)
    ensures
        is_hex_digit(c) <==> r is Some,
        is_hex_digit(c) ==> r == Some(hex_digit_value(c) as u32),
{
    if '0' <= c && c <= '9' {
        Some(c as u32 - '0' as u32)
    } else if 'a' <= c && c <= 'f' {
        Some(c as u32 - 'a' as u32 + 10)
    } else if 'A' <= c && c <= 'F' {
        Some(c as u32 - 'A' as u32 + 10)
    } else {
        None
    }
}

fn upper_hex_digit(d: u32) -> (c: char)
    requires
        d < 16,
    ensures
        c == upper_hex_digits()[d as int],
{
    let digits: [char; 16] = [
        '0', '1', '2', '3', '4', '5', '6', '7', '8', '9', 'A', 'B', 'C', 'D', 'E', 'F',
    ];
    assert(digits@ == upper_hex_digits());
    digits[d as usize]
}

impl Rgba<u8> {
    /// Read a color from `#RRGGBBAA` text; the digits may be of either case.
    pub fn from_hex_str(s: &str) -> (r: Result<Rgba<u8>, HexColorError>)
        ensures
            r == parse_hex_color(s@),
    {
        let n = s.unicode_len();
        if n == 0 || s.get_char(0) != '#' {
            return Err(HexColorError::MissingHash);
        }
        if n != 9 {
            return Err(HexColorError::InvalidLength);
        }
        let mut v: u32 = 0;
        let mut i: usize = 1;
        while i < 9
            invariant
                1 <= i <= 9,
                s@.len() == 9,
                s@[0] == '#',
                forall|j: int| 1 <= j < i ==> is_hex_digit(#[trigger] s@[j]),
                v == hex_value(s@.subrange(1, i as int)),
                v < pow16((i - 1) as nat),
            decreases 9 - i,
        {
            let c = s.get_char(i);
            match hex_digit(c) {
                None => {
                    return Err(HexColorError::InvalidDigit);
                },
                Some(d) => {
                    proof {
                        reveal_with_fuel(pow16, 9);
                        assert(s@.subrange(1, i + 1).drop_last() =~= s@.subrange(1, i as int));
                        assert(v * 16 + d < 16 * pow16((i - 1) as nat)) by (nonlinear_arith)
                            requires
                                v < pow16((i - 1) as nat),
                                d < 16,
                        ;
                    }
                    v = v * 16 + d;
                    i = i + 1;
                },
            }
        }
        assert(s@.subrange(1, 9) =~= s@.drop_first());
        Ok(Rgba::unpack(v))
    }

    /// The color as `#RRGGBBAA` text: uppercase, always eight digits.
    pub fn to_hex_string(self) -> (r: String)
        ensures
            r@ == hex_color_text(self),
    {
        let p = self.pack();
        let mut w: u32 = p;
        let mut digits: Vec<char> = Vec::new();
        let mut i: usize = 0;
        while i < 8
            invariant
                i <= 8,
                p == pack_spec(self),
                hex_text(p as nat, 8) == hex_text(w as nat, (8 - i) as nat) + digits@,
            decreases 8 - i,
        {
            let c = upper_hex_digit(w % 16);
            let ghost prev = digits@;
            proof {
                let rest = hex_text((w / 16) as nat, (8 - i - 1) as nat);
                assert(hex_text(w as nat, (8 - i) as nat) == rest.push(c));
                assert(rest.push(c) + prev =~= rest + seq![c].add(prev));
            }
            digits.insert(0, c);
            assert(digits@ =~= seq![c].add(prev));
            w = w / 16;
            i = i + 1;
        }
        digits.insert(0, '#');
        assert(digits@ =~= hex_color_text(self));
        string_from_chars(&digits)
    }
}

} // verus!
