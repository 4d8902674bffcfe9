use vstd::prelude::*;

verus! {

/// An RGB colour with an optional alpha channel.
///
/// The alpha channel is held as a byte: the normalized opacity it stands for
/// is `a / 255`, which keeps the colour exact and comparable.
#[derive(Clone, Copy, Debug, PartialEq, Eq, Structural)]
pub struct Color {
    pub r: u8,
    pub g: u8,
    pub b: u8,
    pub a: Option<u8>,
}

/// Why a colour string was rejected.
#[derive(Clone, Copy, Debug, PartialEq, Eq, Structural)]
pub enum ColorError {
    /// After the leading `#` the text is not 6 or 8 characters long.
    InvalidFormat,
    /// One of the two-character groups is not a pair of hexadecimal digits.
    InvalidComponent,
}

/// The lowercase hexadecimal digit for `d` (below 16).
pub open spec fn hex_char(d: nat) -> char {
    if d < 10 {
        ((48 + d) as u8) as char
    } else {
        ((87 + d) as u8) as char
    }
}

/// Value of one hexadecimal digit, if `c` is one (either case).
pub open spec fn hex_value(c: char) -> Option<u8> {
    if '0' <= c && c <= '9' {
        Some((c as u32 - '0' as u32) as u8)
    } else if 'a' <= c && c <= 'f' {
        Some((c as u32 - 'a' as u32 + 10) as u8)
    } else if 'A' <= c && c <= 'F' {
        Some((c as u32 - 'A' as u32 + 10) as u8)
    } else {
        None
    }
}

/// Text with one leading `#` removed, if it starts with one.
pub open spec fn strip_hash(s: Seq<char>) -> Seq<char> {
    if s.len() > 0 && s[0] == '#' {
        s.drop_first()
    } else {
        s
    }
}

/// The byte written by the two characters starting at `i`, if both are hex digits.
pub open spec fn group_value(h: Seq<char>, i: int) -> Option<u8> {
    match (hex_value(h[i]), hex_value(h[i + 1])) {
        (Some(hi), Some(lo)) => Some((hi * 16 + lo) as u8),
        _ => None,
    }
}

/// What `#RRGGBB` / `#RRGGBBAA` text denotes.
pub open spec fn parse_hex(s: Seq<char>) -> Result<Color, ColorError> {
    let h = strip_hash(s);
    if h.len() != 6 && h.len() != 8 {
        Err(ColorError::InvalidFormat)
    } else if group_value(h, 0) is None || group_value(h, 2) is None || group_value(h, 4) is None
        || (h.len() == 8 && group_value(h, 6) is None) {
        Err(ColorError::InvalidComponent)
    } else {
        Ok(
            Color {
                r: group_value(h, 0)->0,
                g: group_value(h, 2)->0,
                b: group_value(h, 4)->0,
                a: if h.len() == 8 {
                    Some(group_value(h, 6)->0)
                } else {
                    None
                },
            },
        )
    }
}

/// Two lowercase hex digits for a byte.
pub open spec fn byte_hex(b: u8) -> Seq<char> {
    seq![hex_char(b as nat / 16), hex_char(b as nat % 16)]
}

/// `#rrggbb`, or `#rrggbbaa` when the colour has an alpha byte.
pub open spec fn hex_text(c: Color) -> Seq<char> {
    let rgb = seq!['#'] + byte_hex(c.r) + byte_hex(c.g) + byte_hex(c.b);
    match c.a {
        Some(a) => rgb + byte_hex(a),
        None => rgb,
    }
}

/// Decimal digits of `n`, without leading zeros.
pub open spec fn dec(n: nat) -> Seq<char>
    decreases n,
{
    if n < 10 {
        seq![hex_char(n)]
    } else {
        dec(n / 10).push(hex_char(n % 10))
    }
}

/// `rgb(r, g, b)` for an opaque colour; `rgba(r, g, b, alpha)` otherwise,
/// where `alpha` is the given text for the normalized opacity.
pub open spec fn css_text(c: Color, alpha: Seq<char>) -> Seq<char> {
    let parts = dec(c.r as nat) + ", "@ + dec(c.g as nat) + ", "@ + dec(c.b as nat);
    match c.a {
        Some(_) => "rgba("@ + parts + ", "@ + alpha + ")"@,
        None => "rgb("@ + parts + ")"@,
    }
}

proof fn lemma_hex_char_value(d: nat)
    requires
        d < 16,
    ensures
        hex_value(hex_char(d)) == Some(d as u8),
        hex_char(d) != '#',
{
}

proof fn lemma_byte_hex_value(h: Seq<char>, i: int, b: u8)
    requires
        0 <= i,
        i + 1 < h.len(),
        h.subrange(i, i + 2) == byte_hex(b),
    ensures
        group_value(h, i) == Some(b),
{
    assert(h[i] == h.subrange(i, i + 2)[0]);
    assert(h[i + 1] == h.subrange(i, i + 2)[1]);
    lemma_hex_char_value(b as nat / 16);
    lemma_hex_char_value(b as nat % 16);
}

/// Writing a colour as hex text and parsing that text gives back the same
/// colour: the three bytes, and the alpha byte when there is one.
pub proof fn lemma_hex_round_trip(c: Color)
    ensures
        parse_hex(hex_text(c)) == Ok::<Color, ColorError>(c),
{
    let t = hex_text(c);
    let h = t.drop_first();
    lemma_hex_char_value(c.r as nat / 16);
    assert(strip_hash(t) == h);
    assert(h.subrange(0, 2) =~= byte_hex(c.r));
    assert(h.subrange(2, 4) =~= byte_hex(c.g));
    assert(h.subrange(4, 6) =~= byte_hex(c.b));
    lemma_byte_hex_value(h, 0, c.r);
    lemma_byte_hex_value(h, 2, c.g);
    lemma_byte_hex_value(h, 4, c.b);
    if let Some(a) = c.a {
        assert(h.subrange(6, 8) =~= byte_hex(a));
        lemma_byte_hex_value(h, 6, a);
    }
}

fn hex_digit(c: char) -> (r: Option<u8>)
    ensures
        r == hex_value(c),
{
    if '0' <= c && c <= '9' {
        Some((c as u32 - '0' as u32) as u8)
    } else if 'a' <= c && c <= 'f' {
        Some((c as u32 - 'a' as u32 + 10) as u8)
    } else if 'A' <= c && c <= 'F' {
        Some((c as u32 - 'A' as u32 + 10) as u8)
    } else {
        None
    }
}

/// The one-character text of digit `d`.
fn digit_text(d: u8) -> (r: &'static str)
    requires
        d < 16,
    ensures
        r@ == seq![hex_char(d as nat)],
{
    let digits = "0123456789abcdef";
    proof {
        reveal_strlit("0123456789abcdef");
    }
    let r = digits.substring_char(d as usize, d as usize + 1);
    assert(r@ =~= seq![digits@[d as int]]);
    r
}


/// Two hex digits of a byte, appended to `out`.
fn push_byte_hex(out: &mut String, b: u8)
    ensures
        final(out)@ == old(out)@ + byte_hex(b),
{
    out.append(digit_text(b / 16));
    out.append(digit_text(b % 16));
    assert(final(out)@ =~= old(out)@ + byte_hex(b));
}

/// Decimal digits of a byte, appended to `out`.
fn push_dec(out: &mut String, n: u8)
    ensures
        final(out)@ == old(out)@ + dec(n as nat),
{
    proof {
        reveal_with_fuel(dec, 3);
    }
    if n >= 100 {
        out.append(digit_text(n / 100));
        out.append(digit_text(n / 10 % 10));
        assert(dec(n as nat / 10) == dec(n as nat / 100).push(hex_char(n as nat / 10 % 10)));
    } else if n >= 10 {
        out.append(digit_text(n / 10));
    }
    out.append(digit_text(n % 10));
    assert(final(out)@ =~= old(out)@ + dec(n as nat));
}

/// Byte written by the characters of `h` at `i` and `i + 1`.
fn group_at(h: &str, i: usize) -> (r: Option<u8>)
    requires
        i <= 6,
        i + 1 < h@.len(),
    ensures
        r == group_value(h@, i as int),
{
    match (hex_digit(h.get_char(i)), hex_digit(h.get_char(i + 1))) {
        (Some(hi), Some(lo)) => Some(hi * 16 + lo),
        _ => None,
    }
}

impl Color {
    /// Parses `#RRGGBB` or `#RRGGBBAA` (digits in either case; the `#` may be
    /// left out). The fourth byte, when present, is alpha.
    pub fn from_hex_str(hex: &str) -> (r: Result<Color, ColorError>)
        ensures
            r == parse_hex(hex@),
    {
        let n = hex.unicode_len();
        let i: usize = if n > 0 && hex.get_char(0) == '#' {
            1
        } else {
            0
        };
        let rest = hex.substring_char(i, n);
        assert(strip_hash(hex@) =~= rest@);
        let len = n - i;
        if len != 6 && len != 8 {
            return Err(ColorError::InvalidFormat);
        }
        let r = group_at(rest, 0);
        let g = group_at(rest, 2);
        let b = group_at(rest, 4);
        match (r, g, b) {
            (Some(r), Some(g), Some(b)) => {
                if len == 8 {
                    match group_at(rest, 6) {
                        Some(a) => Ok(Color { r, g, b, a: Some(a) }),
                        None => Err(ColorError::InvalidComponent),
                    }
                } else {
                    Ok(Color { r, g, b, a: None })
                }
            },
            _ => Err(ColorError::InvalidComponent),
        }
    }

    /// `#rrggbb`, or `#rrggbbaa` when the colour has an alpha byte, in lowercase.
    pub fn to_hex_str(&self) -> (r: String)
        ensures
            r@ == hex_text(*self),
    {
        let mut out = String::from_str("#");
        proof {
            reveal_strlit("#");
        }
        push_byte_hex(&mut out, self.r);
        push_byte_hex(&mut out, self.g);
        push_byte_hex(&mut out, self.b);
        match self.a {
            Some(a) => push_byte_hex(&mut out, a),
            None => {},
        }
        assert(out@ =~= hex_text(*self));
        out
    }

    /// The CSS colour text: `rgb(r, g, b)`, or `rgba(r, g, b, alpha)` for a
    /// colour with an alpha byte. `alpha` is the decimal text of the normalized
    /// opacity (`a / 255`), which is a floating-point value and so is written
    /// by the caller; it is not read for an opaque colour.
    pub fn to_rgb_str(self, alpha: &str) -> (r: String)
        ensures
            r@ == css_text(self, alpha@),
    {
        let mut out = match self.a {
            Some(_) => String::from_str("rgba("),
            None => String::from_str("rgb("),
        };
        push_dec(&mut out, self.r);
        out.append(", ");
        push_dec(&mut out, self.g);
        out.append(", ");
        push_dec(&mut out, self.b);
        if self.a.is_some() {
            out.append(", ");
            out.append(alpha);
        }
        out.append(")");
        assert(out@ =~= css_text(self, alpha@));
        out
    }
}

} // verus!
