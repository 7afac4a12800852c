//! Four-character pixel-format codes.
//!
//! A [`FourCC`] is an opaque 4-byte identifier for a pixel-data layout.
//! Equality is byte-wise, the code converts to and from a little-endian
//! 32-bit integer, and textual rendering attempts UTF-8 decoding, falling
//! back to a hexadecimal byte display.

use vstd::prelude::*;
use vstd::string::{StrSliceExecFns, StringExecFns};
use vstd::utf8::{
    decode_utf8, encode_utf8_decode_utf8, encode_utf8_valid_utf8, is_ascii_chars,
    is_ascii_chars_encode_utf8, valid_utf8,
};

verus! {

/// Four character code representing a pixelformat
#[derive(Copy, Clone, Debug, Eq)]
pub struct FourCC {
    pub repr: [u8; 4],
}

/// The little-endian 32-bit value encoded by four code bytes.
pub open spec fn code_value(b: Seq<u8>) -> u32
    recommends
        b.len() == 4,
{
    (b[0] as u32) | ((b[1] as u32) << 8) | ((b[2] as u32) << 16) | ((b[3] as u32) << 24)
}

/// The four bytes of a 32-bit code value, least significant first.
pub open spec fn code_bytes(code: u32) -> Seq<u8> {
    seq![
        (code & 0xff) as u8,
        ((code >> 8) & 0xff) as u8,
        ((code >> 16) & 0xff) as u8,
        ((code >> 24) & 0xff) as u8,
    ]
}

/// The hexadecimal digit (lower case) for a value below 16.
pub open spec fn hex_digit(n: int) -> char
    recommends
        0 <= n < 16,
{
    if n == 0 {
        '0'
    } else if n == 1 {
        '1'
    } else if n == 2 {
        '2'
    } else if n == 3 {
        '3'
    } else if n == 4 {
        '4'
    } else if n == 5 {
        '5'
    } else if n == 6 {
        '6'
    } else if n == 7 {
        '7'
    } else if n == 8 {
        '8'
    } else if n == 9 {
        '9'
    } else if n == 10 {
        'a'
    } else if n == 11 {
        'b'
    } else if n == 12 {
        'c'
    } else if n == 13 {
        'd'
    } else {
        if n == 14 {
            'e'
        } else {
            'f'
        }
    }
}

/// The two lower-case hexadecimal digits of one byte.
pub open spec fn hex_byte(b: u8) -> Seq<char> {
    seq![hex_digit(b as int / 16), hex_digit(b as int % 16)]
}

/// Whether a character is printable: not a Unicode control character
/// (U+0000 through U+001F, or U+007F through U+009F).
pub open spec fn is_printable(c: char) -> bool {
    0x20 <= c as u32 && !(0x7f <= c as u32 && c as u32 <= 0x9f)
}

/// Whether every character of a sequence is printable.
pub open spec fn all_printable(chars: Seq<char>) -> bool {
    forall|i: int| 0 <= i < chars.len() ==> is_printable(#[trigger] chars[i])
}

/// Whether four code bytes render as text: valid UTF-8 whose decoding holds
/// printable characters only.
pub open spec fn renders_as_text(b: Seq<u8>) -> bool {
    valid_utf8(b) && all_printable(decode_utf8(b))
}

/// The four bytes as space-separated lower-case hexadecimal pairs: the
/// fallback rendering, distinct for distinct codes.
pub open spec fn hex_pairs(b: Seq<u8>) -> Seq<char>
    recommends
        b.len() == 4,
{
    hex_byte(b[0]) + " "@ + hex_byte(b[1]) + " "@ + hex_byte(b[2]) + " "@ + hex_byte(b[3])
}

/// What `debug_str` renders: the decoded characters in quotes when the four
/// bytes are valid UTF-8 and all printable, otherwise the four bytes in
/// hexadecimal.
pub open spec fn debug_render(b: Seq<u8>) -> Seq<char>
    recommends
        b.len() == 4,
{
    if renders_as_text(b) {
        "FourCC(\""@ + decode_utf8(b) + "\")"@
    } else {
        "FourCC("@ + hex_pairs(b) + ")"@
    }
}

/// What `display_str` renders: the decoded characters when the four bytes
/// are valid UTF-8 and all printable, otherwise the four bytes in
/// hexadecimal — never an empty rendering.
pub open spec fn display_render(b: Seq<u8>) -> Seq<char>
    recommends
        b.len() == 4,
{
    if renders_as_text(b) {
        decode_utf8(b)
    } else {
        hex_pairs(b)
    }
}

#[verifier::external_type_specification]
#[verifier::external_body]
pub struct ExUtf8Error(core::str::Utf8Error);

/// Relies on core::str::from_utf8: it returns `Ok` exactly when the bytes
/// are valid UTF-8, and the returned slice is their decoding.
#[verifier::external_body]
fn bytes_as_utf8(repr: &[u8; 4]) -> (r: Result<&str, core::str::Utf8Error>)
    ensures
        r is Ok <==> valid_utf8(repr@),
        r matches Ok(s) ==> s@ == decode_utf8(repr@),
{
    core::str::from_utf8(repr)
}

/// The one-character string slice holding the hexadecimal digit of a value
/// below 16.
fn hex_nibble_str(n: u8) -> (r: &'static str)
    requires
        n < 16,
    ensures
        r@.len() == 1,
        r@[0] == hex_digit(n as int),
{
    proof {
        reveal_strlit("0");
        reveal_strlit("1");
        reveal_strlit("2");
        reveal_strlit("3");
        reveal_strlit("4");
        reveal_strlit("5");
        reveal_strlit("6");
        reveal_strlit("7");
        reveal_strlit("8");
        reveal_strlit("9");
        reveal_strlit("a");
        reveal_strlit("b");
        reveal_strlit("c");
        reveal_strlit("d");
        reveal_strlit("e");
        reveal_strlit("f");
    }
    match n {
        0 => "0",
        1 => "1",
        2 => "2",
        3 => "3",
        4 => "4",
        5 => "5",
        6 => "6",
        7 => "7",
        8 => "8",
        9 => "9",
        10 => "a",
        11 => "b",
        12 => "c",
        13 => "d",
        14 => "e",
        _ => "f",
    }
}

/// Appends the two hexadecimal digits of one byte.
fn push_hex_byte(out: &mut String, b: u8)
    ensures
        final(out)@ == old(out)@ + hex_byte(b),
{
    out.append(hex_nibble_str(b / 16));
    out.append(hex_nibble_str(b % 16));
    proof {
        assert(final(out)@ =~= old(out)@ + hex_byte(b));
    }
}

/// The space-separated hexadecimal rendering of the four code bytes.
fn hex_pairs_str(repr: &[u8; 4]) -> (r: String)
    ensures
        r@ == hex_pairs(repr@),
{
    let mut out = String::new();
    push_hex_byte(&mut out, repr[0]);
    out.append(" ");
    push_hex_byte(&mut out, repr[1]);
    out.append(" ");
    push_hex_byte(&mut out, repr[2]);
    out.append(" ");
    push_hex_byte(&mut out, repr[3]);
    proof {
        assert(out@ =~= hex_pairs(repr@));
    }
    out
}

/// Whether every character of the slice is printable.
fn str_all_printable(s: &str) -> (r: bool)
    ensures
        r == all_printable(s@),
{
    let n = s.unicode_len();
    let mut i: usize = 0;
    while i < n
        invariant
            i <= n,
            n == s@.len(),
            forall|j: int| 0 <= j < i ==> is_printable(#[trigger] s@[j]),
        decreases n - i,
    {
        let c = s.get_char(i);
        let v = c as u32;
        if v < 0x20 || (0x7f <= v && v <= 0x9f) {
            return false;
        }
        i = i + 1;
    }
    true
}

impl FourCC {
    /// Returns a pixelformat as four character code
    pub fn new(repr: &[u8; 4]) -> (r: FourCC)
        ensures
            r.repr@ == repr@,
    {
        FourCC { repr: *repr }
    }

    /// Returns the string representation of a four character code, or the
    /// UTF-8 error when the four bytes are not valid UTF-8.
    pub fn str(&self) -> (r: Result<&str, core::str::Utf8Error>)
        ensures
            r is Ok <==> valid_utf8(self.repr@),
            r matches Ok(s) ==> s@ == decode_utf8(self.repr@),
    {
        bytes_as_utf8(&self.repr)
    }

    /// The diagnostic rendering of the code: its characters in quotes when
    /// the bytes decode as printable UTF-8, otherwise the bytes in
    /// hexadecimal.
    pub fn debug_str(&self) -> (r: String)
        ensures
            r@ == debug_render(self.repr@),
    {
        let text: Option<&str> = match bytes_as_utf8(&self.repr) {
            Ok(s) => if str_all_printable(s) {
                Some(s)
            } else {
                None
            },
            Err(_) => None,
        };
        match text {
            Some(s) => {
                let mut out = String::from_str("FourCC(\"");
                out.append(s);
                out.append("\")");
                proof {
                    assert(out@ =~= debug_render(self.repr@));
                }
                out
            },
            None => {
                let mut out = String::from_str("FourCC(");
                let pairs = hex_pairs_str(&self.repr);
                out.append(pairs.as_str());
                out.append(")");
                proof {
                    assert(out@ =~= debug_render(self.repr@));
                }
                out
            },
        }
    }

    /// The plain rendering of the code: its characters when the bytes decode
    /// as printable UTF-8, otherwise the bytes in hexadecimal — distinct
    /// for distinct codes, never empty.
    pub fn display_str(&self) -> (r: String)
        ensures
            r@ == display_render(self.repr@),
    {
        match bytes_as_utf8(&self.repr) {
            Ok(s) => {
                if str_all_printable(s) {
                    String::from_str(s)
                } else {
                    hex_pairs_str(&self.repr)
                }
            },
            Err(_) => hex_pairs_str(&self.repr),
        }
    }
}

impl PartialEq for FourCC {
    fn eq(&self, other: &FourCC) -> (r: bool) {
        let r = self.repr[0] == other.repr[0] && self.repr[1] == other.repr[1] && self.repr[2]
            == other.repr[2] && self.repr[3] == other.repr[3];
        proof {
            if r {
                assert(self.repr@ =~= other.repr@);
            }
        }
        r
    }
}

impl vstd::std_specs::cmp::PartialEqSpecImpl for FourCC {
    open spec fn obeys_eq_spec() -> bool {
        true
    }

    open spec fn eq_spec(&self, other: &FourCC) -> bool {
        self.repr@ == other.repr@
    }
}

impl Default for FourCC {
    /// The all-zero code.
    fn default() -> (r: FourCC)
        ensures
            r.repr@ == seq![0u8, 0u8, 0u8, 0u8],
    {
        let r = FourCC { repr: [0u8, 0u8, 0u8, 0u8] };
        proof {
            assert(r.repr@ =~= seq![0u8, 0u8, 0u8, 0u8]);
        }
        r
    }
}

impl From<u32> for FourCC {
    /// The code whose bytes are the little-endian bytes of `code`.
    fn from(code: u32) -> (r: FourCC) {
        FourCC {
            repr: [
                (code & 0xff) as u8,
                ((code >> 8) & 0xff) as u8,
                ((code >> 16) & 0xff) as u8,
                ((code >> 24) & 0xff) as u8,
            ],
        }
    }
}

impl vstd::std_specs::convert::FromSpecImpl<u32> for FourCC {
    open spec fn obeys_from_spec() -> bool {
        true
    }

    open spec fn from_spec(code: u32) -> FourCC {
        FourCC {
            repr: [
                (code & 0xff) as u8,
                ((code >> 8) & 0xff) as u8,
                ((code >> 16) & 0xff) as u8,
                ((code >> 24) & 0xff) as u8,
            ],
        }
    }
}

impl From<FourCC> for u32 {
    /// The little-endian 32-bit value of the code's bytes.
    fn from(fourcc: FourCC) -> (r: u32) {
        (fourcc.repr[0] as u32) | ((fourcc.repr[1] as u32) << 8) | ((fourcc.repr[2] as u32) << 16)
            | ((fourcc.repr[3] as u32) << 24)
    }
}

impl vstd::std_specs::convert::FromSpecImpl<FourCC> for u32 {
    open spec fn obeys_from_spec() -> bool {
        true
    }

    open spec fn from_spec(fourcc: FourCC) -> u32 {
        code_value(fourcc.repr@)
    }
}

/// The bytes of `FourCC::from(code)` encode `code`: converting a 32-bit
/// value to a code and back returns the same value.
pub proof fn lemma_code_round_trip(code: u32)
    ensures
        code_bytes(code).len() == 4,
        code_value(code_bytes(code)) == code,
{
    assert(((code & 0xff) as u8 as u32) | ((((code >> 8) & 0xff) as u8 as u32) << 8) | ((((code
        >> 16) & 0xff) as u8 as u32) << 16) | ((((code >> 24) & 0xff) as u8 as u32) << 24)
        == code) by (bit_vector);
}

/// Converting a code to its 32-bit value and back returns a code with the
/// same four bytes.
pub proof fn lemma_bytes_round_trip(b: Seq<u8>)
    requires
        b.len() == 4,
    ensures
        code_bytes(code_value(b)) == b,
{
    let b0 = b[0];
    let b1 = b[1];
    let b2 = b[2];
    let b3 = b[3];
    let code = code_value(b);
    assert(code == (b0 as u32) | ((b1 as u32) << 8) | ((b2 as u32) << 16) | ((b3 as u32) << 24));
    assert((((b0 as u32) | ((b1 as u32) << 8) | ((b2 as u32) << 16) | ((b3 as u32) << 24)) & 0xff)
        as u8 == b0) by (bit_vector);
    assert(((((b0 as u32) | ((b1 as u32) << 8) | ((b2 as u32) << 16) | ((b3 as u32) << 24)) >> 8)
        & 0xff) as u8 == b1) by (bit_vector);
    assert(((((b0 as u32) | ((b1 as u32) << 8) | ((b2 as u32) << 16) | ((b3 as u32) << 24)) >> 16)
        & 0xff) as u8 == b2) by (bit_vector);
    assert(((((b0 as u32) | ((b1 as u32) << 8) | ((b2 as u32) << 16) | ((b3 as u32) << 24)) >> 24)
        & 0xff) as u8 == b3) by (bit_vector);
    assert(code_bytes(code_value(b)) =~= b);
}

/// Printable ASCII tags render as exactly their four bytes read as
/// characters, so the rendering round-trips for such tags.
pub proof fn lemma_ascii_render_round_trip(b: Seq<u8>)
    requires
        b.len() == 4,
        forall|i: int| 0 <= i < 4 ==> 0x20 <= #[trigger] b[i] <= 0x7e,
    ensures
        renders_as_text(b),
        display_render(b) == b.map_values(|x: u8| x as char),
{
    let chars = b.map_values(|x: u8| x as char);
    assert forall|i: int| 0 <= i < chars.len() implies '\0' <= #[trigger] chars[i]
        <= '\u{7f}' && is_printable(chars[i]) by {
        assert(chars[i] == b[i] as char);
        assert(0x20 <= chars[i] as u32 <= 0x7e);
    }
    assert(is_ascii_chars(chars));
    is_ascii_chars_encode_utf8(chars);
    assert forall|i: int| 0 <= i < chars.len() implies vstd::utf8::encode_utf8(chars)[i]
        == b[i] by {
        assert(chars[i] as u8 == vstd::utf8::encode_utf8(chars)[i]);
        assert(chars[i] == b[i] as char);
    }
    assert(vstd::utf8::encode_utf8(chars) =~= b);
    encode_utf8_valid_utf8(chars);
    encode_utf8_decode_utf8(chars);
}

} // verus!
