//! Turning the bytes that the virtual machine hands out into strings.
use vstd::prelude::*;
use vstd::utf8::{
    codepoint_width_2,
    codepoint_width_3,
    decode_utf8,
    encode_scalar,
    encode_utf8,
    encode_utf8_decode_utf8,
    encode_utf8_valid_utf8,
    is_ascii_chars,
    is_ascii_chars_encode_utf8,
    is_continuation_byte,
    valid_utf8,
};

verus! {

/// The error of `String::from_utf8`.
#[verifier::external_type_specification]
#[verifier::external_body]
pub struct ExFromUtf8Error(std::string::FromUtf8Error);

/// The error of `std::str::from_utf8`.
#[verifier::external_type_specification]
#[verifier::external_body]
pub struct ExUtf8Error(std::str::Utf8Error);

/// Why bytes could not be turned into a string.
#[derive(Debug)]
pub enum StringDecodeError {
    /// The bytes are not modified UTF-8.
    ModifiedUtf8Error,
    /// The bytes of an owned buffer are not UTF-8.
    FromUtf8Error(std::string::FromUtf8Error),
    /// The bytes of a borrowed buffer are not UTF-8.
    Utf8Error(std::str::Utf8Error),
}

/// The scalar above U+FFFF that a surrogate pair stands for, from the second
/// and third byte of its first half and of its second half.
pub open spec fn supplementary_scalar(b1: u8, b2: u8, b4: u8, b5: u8) -> u32 {
    (0x10000u32 + ((((b1 & 0x0f) as u32) << 16) | (((b2 & 0x3f) as u32) << 10) | (((b4
        & 0x0f) as u32) << 6) | ((b5 & 0x3f) as u32))) as u32
}

/// Whether a surrogate pair starts at `at`: an `ED` followed by a byte from
/// `A0` on. An `ED` followed by a lower byte starts a unit of three bytes.
pub open spec fn starts_pair(bytes: Seq<u8>, at: int) -> bool {
    at + 1 < bytes.len() && bytes[at] == 0xed && bytes[at + 1] >= 0xa0
}

/// The unit of modified UTF-8 that starts at `at`: the character that it
/// stands for and the number of bytes that it takes. There are four shapes:
/// one byte below `80`; two bytes for NUL and for U+0080 to U+07FF; three
/// bytes for U+0800 to U+FFFF without the surrogates; and six bytes,
/// `ED A. .. ED B. ..`, for a surrogate pair, which stands for a character
/// from U+10000 on. Anything else is no unit.
pub open spec fn unit_at(bytes: Seq<u8>, at: int) -> Option<(char, int)> {
    let left = bytes.len() - at;
    if at < 0 || left < 1 {
        None
    } else if bytes[at] < 0x80 {
        Some((bytes[at] as char, 1))
    } else if 0xc0 <= bytes[at] <= 0xdf {
        let scalar = codepoint_width_2(bytes[at], bytes[at + 1]);
        if left >= 2 && is_continuation_byte(bytes[at + 1]) && (scalar == 0 || scalar >= 0x80) {
            Some((scalar as char, 2))
        } else {
            None
        }
    } else if starts_pair(bytes, at) {
        if left >= 6 && bytes[at + 1] <= 0xaf && is_continuation_byte(bytes[at + 2]) && bytes[at
            + 3] == 0xed && 0xb0 <= bytes[at + 4] <= 0xbf && is_continuation_byte(bytes[at + 5]) {
            Some(
                (
                    supplementary_scalar(
                        bytes[at + 1],
                        bytes[at + 2],
                        bytes[at + 4],
                        bytes[at + 5],
                    ) as char,
                    6,
                ),
            )
        } else {
            None
        }
    } else if 0xe0 <= bytes[at] <= 0xef {
        let scalar = codepoint_width_3(bytes[at], bytes[at + 1], bytes[at + 2]);
        if left >= 3 && is_continuation_byte(bytes[at + 1]) && is_continuation_byte(bytes[at + 2])
            && scalar >= 0x800 {
            Some((scalar as char, 3))
        } else {
            None
        }
    } else {
        None
    }
}

/// The characters that the units from `from` to the end of `bytes` stand
/// for; none when the bytes from `from` on are not a run of whole units.
pub open spec fn units_from(bytes: Seq<u8>, from: int) -> Option<Seq<char>>
    decreases bytes.len() - from,
{
    if from >= bytes.len() {
        Some(Seq::empty())
    } else {
        match unit_at(bytes, from) {
            Some((c, length)) => if length > 0 {
                match units_from(bytes, from + length) {
                    Some(rest) => Some(seq![c] + rest),
                    None => None,
                }
            } else {
                None
            },
            None => None,
        }
    }
}

/// The text that `bytes` hold in modified UTF-8, if they are modified UTF-8.
pub open spec fn decode_modified_utf8(bytes: Seq<u8>) -> Option<Seq<char>> {
    units_from(bytes, 0)
}

/// What the characters read so far and the rest of the input give together.
pub open spec fn with_chars_before(before: Seq<char>, rest: Option<Seq<char>>) -> Option<
    Seq<char>,
> {
    match rest {
        Some(after) => Some(before + after),
        None => None,
    }
}

/// The encoding of a text with one more character is the encoding of the
/// text and then that of the character.
pub proof fn lemma_encode_utf8_push(chars: Seq<char>, c: char)
    ensures
        encode_utf8(chars.push(c)) == encode_utf8(chars) + encode_scalar(c as u32),
    decreases chars.len(),
{
    if chars.len() == 0 {
        let one = chars.push(c);
        assert(encode_utf8(one) == encode_scalar(one[0] as u32) + encode_utf8(one.drop_first()));
    } else {
        lemma_encode_utf8_push(chars.drop_first(), c);
        assert(chars.push(c).drop_first() =~= chars.drop_first().push(c));
    }
}

/// `String::from_utf8` of std: the string whose UTF-8 encoding is `bytes`,
/// or an error when `bytes` are not UTF-8.
#[verifier::external_body]
fn string_from_utf8(bytes: Vec<u8>) -> (result: Result<String, std::string::FromUtf8Error>)
    ensures
        result is Ok <==> valid_utf8(bytes@),
        result matches Ok(s) ==> s@ == decode_utf8(bytes@),
{
    String::from_utf8(bytes)
}

/// `std::str::from_utf8`: `bytes` seen as a string, or an error when they are
/// not UTF-8.
#[verifier::external_body]
fn str_from_utf8(bytes: &[u8]) -> (result: Result<&str, std::str::Utf8Error>)
    ensures
        result is Ok <==> valid_utf8(bytes@),
        result matches Ok(s) ==> s@ == decode_utf8(bytes@),
{
    std::str::from_utf8(bytes)
}

/// Rewrites modified UTF-8 as standard UTF-8.
pub fn transcode_modified_utf8(bytes: &[u8]) -> (result: Result<Vec<u8>, StringDecodeError>)
    ensures
        match result {
            Ok(converted) => decode_modified_utf8(bytes@) matches Some(chars) && converted@
                == encode_utf8(chars),
            Err(e) => decode_modified_utf8(bytes@) is None && e
                is ModifiedUtf8Error,
        },
{
    let n = bytes.len();
    let mut converted: Vec<u8> = Vec::new();
    let ghost mut chars: Seq<char> = Seq::empty();
    let mut i: usize = 0;
    while i < n
        invariant
            i <= n == bytes.len(),
            converted@ == encode_utf8(chars),
            decode_modified_utf8(bytes@) == with_chars_before(chars, units_from(bytes@, i as int)),
        decreases n - i,
    {
        let b0 = bytes[i];
        let left = n - i;
        let ghost before = chars;
        let ghost c: char;
        let length: usize;
        if b0 < 0x80 {
            converted.push(b0);
            length = 1;
            proof {
                c = b0 as char;
                assert(((b0 as u32) & 0x7f) as u8 == b0) by (bit_vector)
                    requires
                        b0 < 0x80,
                ;
            }
        } else if 0xc0 <= b0 && b0 <= 0xdf {
            if left < 2 {
                return Err(StringDecodeError::ModifiedUtf8Error);
            }
            let b1 = bytes[i + 1];
            if !(0x80 <= b1 && b1 <= 0xbf) {
                return Err(StringDecodeError::ModifiedUtf8Error);
            }
            let scalar: u32 = (((b0 & 0x1f) as u32) << 6) | ((b1 & 0x3f) as u32);
            assert(scalar <= 0x7ff) by (bit_vector)
                requires
                    scalar == (((b0 & 0x1f) as u32) << 6) | ((b1 & 0x3f) as u32),
            ;
            if scalar == 0 {
                converted.push(0u8);
            } else if scalar >= 0x80 {
                converted.push(0xc0u8 | (#[verifier::truncate] (((scalar >> 6) & 0x1f) as u8)));
                converted.push(0x80u8 | (#[verifier::truncate] ((scalar & 0x3f) as u8)));
            } else {
                return Err(StringDecodeError::ModifiedUtf8Error);
            }
            length = 2;
            proof {
                c = scalar as char;
                assert(((0u32 & 0x7f) as u8) == 0u8) by (bit_vector);
            }
        } else if b0 == 0xed && left >= 2 && bytes[i + 1] >= 0xa0 {
            if left < 6 {
                return Err(StringDecodeError::ModifiedUtf8Error);
            }
            let b1 = bytes[i + 1];
            let b2 = bytes[i + 2];
            let b3 = bytes[i + 3];
            let b4 = bytes[i + 4];
            let b5 = bytes[i + 5];
            if !(b1 <= 0xaf && 0x80 <= b2 && b2 <= 0xbf && b3 == 0xed && 0xb0 <= b4 && b4 <= 0xbf
                && 0x80 <= b5 && b5 <= 0xbf) {
                return Err(StringDecodeError::ModifiedUtf8Error);
            }
            let low: u32 = (((b1 & 0x0f) as u32) << 16) | (((b2 & 0x3f) as u32) << 10) | (((b4
                & 0x0f) as u32) << 6) | ((b5 & 0x3f) as u32);
            assert(low <= 0xfffff) by (bit_vector)
                requires
                    low == (((b1 & 0x0f) as u32) << 16) | (((b2 & 0x3f) as u32) << 10) | (((b4
                        & 0x0f) as u32) << 6) | ((b5 & 0x3f) as u32),
            ;
            let scalar: u32 = 0x10000u32 + low;
            converted.push(0xf0u8 | (#[verifier::truncate] (((scalar >> 18) & 0x7) as u8)));
            converted.push(0x80u8 | (#[verifier::truncate] (((scalar >> 12) & 0x3f) as u8)));
            converted.push(0x80u8 | (#[verifier::truncate] (((scalar >> 6) & 0x3f) as u8)));
            converted.push(0x80u8 | (#[verifier::truncate] ((scalar & 0x3f) as u8)));
            length = 6;
            proof {
                c = scalar as char;
            }
        } else if 0xe0 <= b0 && b0 <= 0xef {
            if left < 3 {
                return Err(StringDecodeError::ModifiedUtf8Error);
            }
            let b1 = bytes[i + 1];
            let b2 = bytes[i + 2];
            if !(0x80 <= b1 && b1 <= 0xbf && 0x80 <= b2 && b2 <= 0xbf) {
                return Err(StringDecodeError::ModifiedUtf8Error);
            }
            let scalar: u32 = (((b0 & 0x0f) as u32) << 12) | (((b1 & 0x3f) as u32) << 6) | ((b2
                & 0x3f) as u32);
            assert(scalar <= 0xffff && (0xd800 <= scalar <= 0xdfff ==> b0 == 0xed && b1 >= 0xa0))
                by (bit_vector)
                requires
                    scalar == (((b0 & 0x0f) as u32) << 12) | (((b1 & 0x3f) as u32) << 6) | ((b2
                        & 0x3f) as u32),
                    0xe0 <= b0 <= 0xef,
                    0x80 <= b1 <= 0xbf,
            ;
            if scalar < 0x800 {
                return Err(StringDecodeError::ModifiedUtf8Error);
            }
            converted.push(0xe0u8 | (#[verifier::truncate] (((scalar >> 12) & 0x0f) as u8)));
            converted.push(0x80u8 | (#[verifier::truncate] (((scalar >> 6) & 0x3f) as u8)));
            converted.push(0x80u8 | (#[verifier::truncate] ((scalar & 0x3f) as u8)));
            length = 3;
            proof {
                c = scalar as char;
            }
        } else {
            return Err(StringDecodeError::ModifiedUtf8Error);
        }
        proof {
            lemma_encode_utf8_push(before, c);
            chars = before.push(c);
        }
        i += length;
    }
    Ok(converted)
}

/// Reads a string that the virtual machine wrote in modified UTF-8. No bytes
/// give no string.
pub fn from_modified_utf8(input: Option<&[u8]>) -> (result: Result<
    Option<String>,
    StringDecodeError,
>)
    ensures
        match input {
            None => result matches Ok(None),
            Some(bytes) => match decode_modified_utf8(bytes@) {
                Some(chars) => result matches Ok(Some(s)) && s@ == chars,
                None => result matches Err(StringDecodeError::ModifiedUtf8Error),
            },
        },
{
    let bytes = match input {
        Some(bytes) => bytes,
        None => {
            return Ok(None);
        },
    };
    let converted = match transcode_modified_utf8(bytes) {
        Ok(converted) => converted,
        Err(e) => {
            return Err(e);
        },
    };
    proof {
        let chars = decode_modified_utf8(bytes@)->0;
        encode_utf8_valid_utf8(chars);
        encode_utf8_decode_utf8(chars);
    }
    match string_from_utf8(converted) {
        Ok(s) => Ok(Some(s)),
        Err(e) => Err(StringDecodeError::FromUtf8Error(e)),
    }
}

/// Reads a string in the platform's encoding, which has to be UTF-8. No
/// bytes give no string.
pub fn from_platform(input: Option<&[u8]>) -> (result: Result<Option<String>, StringDecodeError>)
    ensures
        match input {
            None => result matches Ok(None),
            Some(bytes) => if valid_utf8(bytes@) {
                result matches Ok(Some(s)) && s@ == decode_utf8(bytes@)
            } else {
                result matches Err(StringDecodeError::Utf8Error(_))
            },
        },
{
    match input {
        None => Ok(None),
        Some(bytes) => match str_from_utf8(bytes) {
            Ok(s) => Ok(Some(s.to_owned())),
            Err(e) => Err(StringDecodeError::Utf8Error(e)),
        },
    }
}

/// The characters that bytes below `80` stand for, one for one.
pub open spec fn ascii_chars(bytes: Seq<u8>) -> Seq<char> {
    Seq::new(bytes.len(), |i: int| bytes[i] as char)
}

/// Bytes below `80` from `from` on are units of one byte each.
proof fn lemma_ascii_units(bytes: Seq<u8>, from: int)
    requires
        0 <= from <= bytes.len(),
        forall|i: int| 0 <= i < bytes.len() ==> bytes[i] < 0x80,
    ensures
        units_from(bytes, from) == Some(ascii_chars(bytes).skip(from)),
    decreases bytes.len() - from,
{
    if from < bytes.len() {
        lemma_ascii_units(bytes, from + 1);
    }
}

/// Input that holds only bytes below `80` is modified UTF-8, stands for
/// those bytes as characters, and is its own standard encoding.
pub proof fn lemma_ascii_unchanged(bytes: Seq<u8>)
    requires
        forall|i: int| 0 <= i < bytes.len() ==> bytes[i] < 0x80,
    ensures
        decode_modified_utf8(bytes) == Some(ascii_chars(bytes)),
        encode_utf8(ascii_chars(bytes)) == bytes,
{
    lemma_ascii_units(bytes, 0);
    let chars = ascii_chars(bytes);
    is_ascii_chars_encode_utf8(chars);
}

} // verus!
