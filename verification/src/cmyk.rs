//! The CMYK color space: four 8-bit subtractive channels.

use vstd::prelude::*;

verus! {

use vstd::string::StringExecFns;

/// The upper-case hexadecimal digit denoting a value below sixteen.
pub open spec fn upper_hex_digit(n: int) -> char
    recommends
        0 <= n < 16,
{
    if n == 0 {
        '0'
    } else if n == 1 {
        '1'
    } else if n == 2 {
        '2'
    } else if n == 3 {
        '3'
    } else if n == 4 {
        '4'
    } else if n == 5 {
        '5'
    } else if n == 6 {
        '6'
    } else if n == 7 {
        '7'
    } else if n == 8 {
        '8'
    } else if n == 9 {
        '9'
    } else if n == 10 {
        'A'
    } else if n == 11 {
        'B'
    } else if n == 12 {
        'C'
    } else if n == 13 {
        'D'
    } else if n == 14 {
        'E'
    } else {
        'F'
    }
}

/// The lower-case hexadecimal digit denoting a value below sixteen.
pub open spec fn lower_hex_digit(n: int) -> char
    recommends
        0 <= n < 16,
{
    if n == 10 {
        'a'
    } else if n == 11 {
        'b'
    } else if n == 12 {
        'c'
    } else if n == 13 {
        'd'
    } else if n == 14 {
        'e'
    } else if n == 15 {
        'f'
    } else {
        upper_hex_digit(n)
    }
}

fn upper_hex_digit_str(n: u8) -> (digit: &'static str)
    requires
        n < 16,
    ensures
        digit@ == seq![upper_hex_digit(n as int)],
{
    let digit: &'static str = if n == 0 {
        "0"
    } else if n == 1 {
        "1"
    } else if n == 2 {
        "2"
    } else if n == 3 {
        "3"
    } else if n == 4 {
        "4"
    } else if n == 5 {
        "5"
    } else if n == 6 {
        "6"
    } else if n == 7 {
        "7"
    } else if n == 8 {
        "8"
    } else if n == 9 {
        "9"
    } else if n == 10 {
        "A"
    } else if n == 11 {
        "B"
    } else if n == 12 {
        "C"
    } else if n == 13 {
        "D"
    } else if n == 14 {
        "E"
    } else {
        "F"
    };
    proof {
        reveal_strlit("0");
        reveal_strlit("1");
        reveal_strlit("2");
        reveal_strlit("3");
        reveal_strlit("4");
        reveal_strlit("5");
        reveal_strlit("6");
        reveal_strlit("7");
        reveal_strlit("8");
        reveal_strlit("9");
        reveal_strlit("A");
        reveal_strlit("B");
        reveal_strlit("C");
        reveal_strlit("D");
        reveal_strlit("E");
        reveal_strlit("F");
        assert(digit@ =~= seq![upper_hex_digit(n as int)]);
    }
    digit
}

fn lower_hex_digit_str(n: u8) -> (digit: &'static str)
    requires
        n < 16,
    ensures
        digit@ == seq![lower_hex_digit(n as int)],
{
    if n < 10 {
        let digit = upper_hex_digit_str(n);
        proof {
            assert(digit@ =~= seq![lower_hex_digit(n as int)]);
        }
        digit
    } else {
        let digit: &'static str = if n == 10 {
            "a"
        } else if n == 11 {
            "b"
        } else if n == 12 {
            "c"
        } else if n == 13 {
            "d"
        } else if n == 14 {
            "e"
        } else {
            "f"
        };
        proof {
            reveal_strlit("a");
            reveal_strlit("b");
            reveal_strlit("c");
            reveal_strlit("d");
            reveal_strlit("e");
            reveal_strlit("f");
            assert(digit@ =~= seq![lower_hex_digit(n as int)]);
        }
        digit
    }
}

/// The encoded CMYK color.
///
/// Every byte pattern is a valid color; the space has more degrees of
/// freedom than necessary, so distinct values may denote the same color.
#[derive(Debug, PartialEq, Eq, Structural, PartialOrd, Ord, Hash, Clone, Copy, Default)]
pub struct Cmyk {
    /// The cyan component.
    pub c: u8,
    /// The magenta component.
    pub m: u8,
    /// The yellow component.
    pub y: u8,
    /// The key (black) component.
    pub k: u8,
}

impl Cmyk {
    /// The packed 32-bit encoding of the color: cyan in the most
    /// significant octet, then magenta, yellow and key.
    pub open spec fn spec_hex(self) -> u32 {
        (self.c * 0x100_0000 + self.m * 0x1_0000 + self.y * 0x100 + self.k) as u32
    }

    /// The color denoted by a packed 32-bit encoding, octet by octet.
    pub open spec fn spec_from_hex(hex: u32) -> Cmyk {
        Cmyk {
            c: (hex / 0x100_0000) as u8,
            m: ((hex / 0x1_0000) % 0x100) as u8,
            y: ((hex / 0x100) % 0x100) as u8,
            k: (hex % 0x100) as u8,
        }
    }

    /// Constructs a new `Cmyk` color.
    pub fn new(cyan: u8, magenta: u8, yellow: u8, key: u8) -> (color: Cmyk)
        ensures
            color == (Cmyk { c: cyan, m: magenta, y: yellow, k: key }),
    {
        Cmyk { c: cyan, m: magenta, y: yellow, k: key }
    }

    /// Returns the cyan component of the color.
    pub fn cyan(&self) -> (cyan: u8)
        ensures
            cyan == self.c,
    {
        self.c
    }

    /// Returns the magenta component of the color.
    pub fn magenta(&self) -> (magenta: u8)
        ensures
            magenta == self.m,
    {
        self.m
    }

    /// Returns the yellow component of the color.
    pub fn yellow(&self) -> (yellow: u8)
        ensures
            yellow == self.y,
    {
        self.y
    }

    /// Returns the key component of the color.
    pub fn key(&self) -> (key: u8)
        ensures
            key == self.k,
    {
        self.k
    }

    /// Sets the cyan component of the color, leaving the rest unchanged.
    pub fn set_cyan(&mut self, value: u8)
        ensures
            *final(self) == (Cmyk { c: value, ..*old(self) }),
    {
        self.c = value;
    }

    /// Sets the magenta component of the color, leaving the rest unchanged.
    pub fn set_magenta(&mut self, value: u8)
        ensures
            *final(self) == (Cmyk { m: value, ..*old(self) }),
    {
        self.m = value;
    }

    /// Sets the yellow component of the color, leaving the rest unchanged.
    pub fn set_yellow(&mut self, value: u8)
        ensures
            *final(self) == (Cmyk { y: value, ..*old(self) }),
    {
        self.y = value;
    }

    /// Sets the key component of the color, leaving the rest unchanged.
    pub fn set_key(&mut self, value: u8)
        ensures
            *final(self) == (Cmyk { k: value, ..*old(self) }),
    {
        self.k = value;
    }

    /// Returns an array containing the `[C, M, Y, K]` component octets.
    pub fn octets(&self) -> (octets: [u8; 4])
        ensures
            octets@ == seq![self.c, self.m, self.y, self.k],
    {
        let octets: [u8; 4] = [self.c, self.m, self.y, self.k];
        proof {
            assert(octets@ =~= seq![self.c, self.m, self.y, self.k]);
        }
        octets
    }

    /// The upper-case hexadecimal rendering of the color: a `#` followed by
    /// two zero-padded digits per component, cyan first.
    pub open spec fn spec_hex_upper(self) -> Seq<char> {
        seq![
            '#',
            upper_hex_digit(self.c as int / 16),
            upper_hex_digit(self.c as int % 16),
            upper_hex_digit(self.m as int / 16),
            upper_hex_digit(self.m as int % 16),
            upper_hex_digit(self.y as int / 16),
            upper_hex_digit(self.y as int % 16),
            upper_hex_digit(self.k as int / 16),
            upper_hex_digit(self.k as int % 16),
        ]
    }

    /// The lower-case hexadecimal rendering of the color: a `#` followed by
    /// two zero-padded digits per component, cyan first.
    pub open spec fn spec_hex_lower(self) -> Seq<char> {
        seq![
            '#',
            lower_hex_digit(self.c as int / 16),
            lower_hex_digit(self.c as int % 16),
            lower_hex_digit(self.m as int / 16),
            lower_hex_digit(self.m as int % 16),
            lower_hex_digit(self.y as int / 16),
            lower_hex_digit(self.y as int % 16),
            lower_hex_digit(self.k as int / 16),
            lower_hex_digit(self.k as int % 16),
        ]
    }

    /// Renders the color as an upper-case `#CCMMYYKK` hex string.
    pub fn hex_upper(&self) -> (rendering: String)
        ensures
            rendering@ == self.spec_hex_upper(),
    {
        let mut rendering = String::new();
        rendering.append("#");
        rendering.append(upper_hex_digit_str(self.c / 16));
        rendering.append(upper_hex_digit_str(self.c % 16));
        rendering.append(upper_hex_digit_str(self.m / 16));
        rendering.append(upper_hex_digit_str(self.m % 16));
        rendering.append(upper_hex_digit_str(self.y / 16));
        rendering.append(upper_hex_digit_str(self.y % 16));
        rendering.append(upper_hex_digit_str(self.k / 16));
        rendering.append(upper_hex_digit_str(self.k % 16));
        proof {
            reveal_strlit("#");
            assert(rendering@ =~= self.spec_hex_upper());
        }
        rendering
    }

    /// Renders the color as a lower-case `#ccmmyykk` hex string.
    pub fn hex_lower(&self) -> (rendering: String)
        ensures
            rendering@ == self.spec_hex_lower(),
    {
        let mut rendering = String::new();
        rendering.append("#");
        rendering.append(lower_hex_digit_str(self.c / 16));
        rendering.append(lower_hex_digit_str(self.c % 16));
        rendering.append(lower_hex_digit_str(self.m / 16));
        rendering.append(lower_hex_digit_str(self.m % 16));
        rendering.append(lower_hex_digit_str(self.y / 16));
        rendering.append(lower_hex_digit_str(self.y % 16));
        rendering.append(lower_hex_digit_str(self.k / 16));
        rendering.append(lower_hex_digit_str(self.k % 16));
        proof {
            reveal_strlit("#");
            assert(rendering@ =~= self.spec_hex_lower());
        }
        rendering
    }

    /// Returns the hex code of the color: the packed 32-bit encoding with
    /// cyan in the most significant octet.
    pub fn hex(&self) -> (hex: u32)
        ensures
            hex == self.spec_hex(),
    {
        let hex: u32 = ((self.c as u32) << 24) | ((self.m as u32) << 16) | ((self.y as u32) << 8)
            | (self.k as u32);
        proof {
            lemma_pack_octets(self.c, self.m, self.y, self.k);
        }
        hex
    }
}

/// Packing four octets by shifts and bitwise or agrees with the arithmetic
/// statement of the packed encoding.
proof fn lemma_pack_octets(c: u8, m: u8, y: u8, k: u8)
    by (bit_vector)
    ensures
        ((c as u32) << 24) | ((m as u32) << 16) | ((y as u32) << 8) | (k as u32) == c * 0x100_0000
            + m * 0x1_0000 + y * 0x100 + k,
{
}

/// Selecting one octet of a packed encoding by mask and shift agrees with
/// the arithmetic statement of unpacking.
proof fn lemma_unpack_octets(hex: u32)
    by (bit_vector)
    ensures
        (hex & 0xFF00_0000) >> 24 == hex / 0x100_0000,
        (hex & 0x00FF_0000) >> 16 == (hex / 0x1_0000) % 0x100,
        (hex & 0x0000_FF00) >> 8 == (hex / 0x100) % 0x100,
        hex & 0x0000_00FF == hex % 0x100,
        hex / 0x100_0000 < 0x100,
{
}

impl From<u32> for Cmyk {
    /// Unpacks a 32-bit hex code into a color, cyan taken from the most
    /// significant octet.
    fn from(hex: u32) -> (color: Cmyk) {
        proof {
            lemma_unpack_octets(hex);
        }
        Cmyk {
            c: ((hex & 0xFF00_0000) >> 24) as u8,
            m: ((hex & 0x00FF_0000) >> 16) as u8,
            y: ((hex & 0x0000_FF00) >> 8) as u8,
            k: (hex & 0x0000_00FF) as u8,
        }
    }
}

impl vstd::std_specs::convert::FromSpecImpl<u32> for Cmyk {
    open spec fn obeys_from_spec() -> bool {
        true
    }

    open spec fn from_spec(hex: u32) -> Cmyk {
        Cmyk::spec_from_hex(hex)
    }
}

impl From<[u8; 4]> for Cmyk {
    /// Reads a color from its `[C, M, Y, K]` component octets.
    fn from(octets: [u8; 4]) -> (color: Cmyk) {
        Cmyk { c: octets[0], m: octets[1], y: octets[2], k: octets[3] }
    }
}

impl vstd::std_specs::convert::FromSpecImpl<[u8; 4]> for Cmyk {
    open spec fn obeys_from_spec() -> bool {
        true
    }

    open spec fn from_spec(octets: [u8; 4]) -> Cmyk {
        Cmyk { c: octets[0], m: octets[1], y: octets[2], k: octets[3] }
    }
}

/// The packed encoding is bit-exact: unpacking the hex code of a color
/// restores the color, field for field.
pub proof fn lemma_hex_round_trip(color: Cmyk)
    ensures
        Cmyk::spec_from_hex(color.spec_hex()) == color,
{
    let c = color.c;
    let m = color.m;
    let y = color.y;
    let k = color.k;
    assert((((c * 0x100_0000 + m * 0x1_0000 + y * 0x100 + k) as u32) / 0x100_0000) as u8 == c)
        by (bit_vector);
    assert(((((c * 0x100_0000 + m * 0x1_0000 + y * 0x100 + k) as u32) / 0x1_0000) % 0x100) as u8
        == m) by (bit_vector);
    assert(((((c * 0x100_0000 + m * 0x1_0000 + y * 0x100 + k) as u32) / 0x100) % 0x100) as u8 == y)
        by (bit_vector);
    assert((((c * 0x100_0000 + m * 0x1_0000 + y * 0x100 + k) as u32) % 0x100) as u8 == k)
        by (bit_vector);
}

/// Unpacking is bit-exact in the other direction: the hex code of the color
/// read from a packed encoding is that encoding.
pub proof fn lemma_from_hex_round_trip(hex: u32)
    ensures
        Cmyk::spec_from_hex(hex).spec_hex() == hex,
{
    assert(((hex / 0x100_0000) as u8) * 0x100_0000 + (((hex / 0x1_0000) % 0x100) as u8) * 0x1_0000
        + (((hex / 0x100) % 0x100) as u8) * 0x100 + ((hex % 0x100) as u8) == hex) by (bit_vector);
}

} // verus!
