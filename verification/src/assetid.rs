//! Asset identifiers: 128-bit values deterministically derived from a
//! creator's public key and an opaque data string.
//!
//! The derivation feeds the key bytes followed by the UTF-8 bytes of the
//! data string to the one-way hash and keeps the first 16 digest bytes,
//! so re-submission of the same (data, creator) pair always yields the
//! same identifier, which is what makes re-issuance merge idempotent.

use vstd::prelude::*;

use crate::crypto::{sha256, sha256_of};
use crate::keys::PublicKey;

verus! {

/// A 128-bit (16 byte) buffer containing the ID.
pub type AssetIDBytes = [u8; 16];

/// A 128-bit asset identifier.
#[derive(Clone, Copy, PartialEq, Eq, PartialOrd, Ord, Debug)]
pub struct AssetID {
    bytes: AssetIDBytes,
}

/// Error details for string parsing failures.
#[derive(Clone, Copy, PartialEq, Eq, Structural, Debug)]
pub enum ParseError {
    InvalidLength(usize),
    InvalidCharacter(char, usize),
    UnexpectedErrorAt(usize),
}

impl View for AssetID {
    type V = Seq<u8>;

    closed spec fn view(&self) -> Seq<u8> {
        self.bytes@
    }
}

/// Whether `c` is a hexadecimal digit.
pub open spec fn is_hex_digit(c: char) -> bool {
    (48 <= c as u32 && c as u32 <= 57)  // '0' ..= '9'
    || (97 <= c as u32 && c as u32 <= 102)  // 'a' ..= 'f'
    || (65 <= c as u32 && c as u32 <= 70)  // 'A' ..= 'F'
}

/// The numeric value of a hexadecimal digit.
pub open spec fn hex_val(c: char) -> u8 {
    if 48 <= c as u32 && c as u32 <= 57 {
        (c as u32 - 48) as u8
    } else if 97 <= c as u32 && c as u32 <= 102 {
        (c as u32 - 87) as u8
    } else {
        (c as u32 - 55) as u8
    }
}

/// The 16 bytes denoted by a 32-character hexadecimal string.
pub open spec fn bytes_of_hex(s: Seq<char>) -> Seq<u8> {
    Seq::new(16, |i: int| (hex_val(s[2 * i]) * 16 + hex_val(s[2 * i + 1])) as u8)
}

/// The lower-case hexadecimal digit for a value below 16.
pub open spec fn hex_char_of(v: u8) -> char {
    if v < 10 {
        ((v + 48) as u32) as char
    } else {
        ((v + 87) as u32) as char
    }
}

/// The lower-case hexadecimal rendering of a byte sequence.
pub open spec fn hex_str_of(b: Seq<u8>) -> Seq<char> {
    Seq::new(b.len() * 2, |i: int| {
        if i % 2 == 0 {
            hex_char_of(b[i / 2] / 16)
        } else {
            hex_char_of(b[i / 2] % 16)
        }
    })
}

/// The identifier derived from a data string and a creator key: the
/// first 16 bytes of the digest of the key bytes followed by the data.
pub open spec fn derived_id(data: Seq<char>, key: Seq<u8>) -> Seq<u8> {
    sha256_of(key + vstd::utf8::encode_utf8(data)).take(16)
}

/// A one-character string holding the hexadecimal digit for `v`.
fn hex_char_str(v: u8) -> (r: &'static str)
    requires
        v < 16,
    ensures
        r@ =~= seq![hex_char_of(v)],
{
    proof {
        reveal_strlit("0");
        reveal_strlit("1");
        reveal_strlit("2");
        reveal_strlit("3");
        reveal_strlit("4");
        reveal_strlit("5");
        reveal_strlit("6");
        reveal_strlit("7");
        reveal_strlit("8");
        reveal_strlit("9");
        reveal_strlit("a");
        reveal_strlit("b");
        reveal_strlit("c");
        reveal_strlit("d");
        reveal_strlit("e");
        reveal_strlit("f");
    }
    match v {
        0 => "0",
        1 => "1",
        2 => "2",
        3 => "3",
        4 => "4",
        5 => "5",
        6 => "6",
        7 => "7",
        8 => "8",
        9 => "9",
        10 => "a",
        11 => "b",
        12 => "c",
        13 => "d",
        14 => "e",
        _ => "f",
    }
}

/// The numeric value of a hexadecimal digit character, if it is one.
fn hex_value(c: char) -> (r: Option<u8>)
    ensures
        match r {
            Some(v) => is_hex_digit(c) && v == hex_val(c) && v < 16,
            None => !is_hex_digit(c),
        },
{
    let n = c as u32;
    if 48 <= n && n <= 57 {
        Some((n - 48) as u8)
    } else if 97 <= n && n <= 102 {
        Some((n - 87) as u8)
    } else if 65 <= n && n <= 70 {
        Some((n - 55) as u8)
    } else {
        None
    }
}

impl AssetID {
    /// The all-zero identifier.
    pub fn nil() -> (r: AssetID)
        ensures
            r@ =~= Seq::new(16, |i: int| 0u8),
    {
        AssetID { bytes: [0u8; 16] }
    }

    /// The raw identifier bytes.
    pub fn as_bytes(&self) -> (r: &[u8; 16])
        ensures
            r@ == self@,
    {
        &self.bytes
    }

    /// Byte-for-byte equality of two identifiers.
    pub fn equals(&self, other: &AssetID) -> (r: bool)
        ensures
            r == (self@ == other@),
    {
        let mut i: usize = 0;
        while i < 16
            invariant
                i <= 16,
                forall|j: int| 0 <= j < i ==> self.bytes@[j] == other.bytes@[j],
            decreases 16 - i,
        {
            if self.bytes[i] != other.bytes[i] {
                assert(self@ != other@);
                return false;
            }
            i = i + 1;
        }
        assert(self.bytes@ =~= other.bytes@);
        true
    }

    /// Wrap a 16-byte slice as an identifier; any other length is an
    /// invalid-length error.
    pub fn from_bytes(b: &[u8]) -> (r: Result<AssetID, ParseError>)
        ensures
            match r {
                Ok(id) => b@.len() == 16 && id@ == b@,
                Err(e) => b@.len() != 16 && e == ParseError::InvalidLength(b@.len() as usize),
            },
    {
        let len = b.len();
        if len != 16 {
            return Err(ParseError::InvalidLength(len));
        }
        let mut bytes = [0u8; 16];
        let mut i: usize = 0;
        while i < 16
            invariant
                i <= 16,
                b@.len() == 16,
                forall|j: int| 0 <= j < i ==> bytes@[j] == b@[j],
            decreases 16 - i,
        {
            bytes[i] = b[i];
            i = i + 1;
        }
        assert(bytes@ =~= b@);
        Ok(AssetID { bytes })
    }

    /// Parse a 32-character hexadecimal string.  A string of any other
    /// character count is an invalid-length error; otherwise the first
    /// non-hexadecimal character is reported with its position.
    pub fn from_str(us: &str) -> (r: Result<AssetID, ParseError>)
        ensures
            match r {
                Ok(id) => us@.len() == 32 && (forall|i: int|
                    0 <= i < 32 ==> is_hex_digit(us@[i])) && id@ == bytes_of_hex(us@),
                Err(ParseError::InvalidLength(n)) => us@.len() != 32 && n == us@.len(),
                Err(ParseError::InvalidCharacter(c, i)) => us@.len() == 32 && 0 <= i < 32
                    && c == us@[i as int] && !is_hex_digit(c) && (forall|j: int|
                    0 <= j < i ==> is_hex_digit(us@[j])),
                Err(ParseError::UnexpectedErrorAt(_)) => false,
            },
    {
        let len = us.unicode_len();
        if len != 32 {
            return Err(ParseError::InvalidLength(len));
        }

        let mut i: usize = 0;
        while i < 32
            invariant
                i <= 32,
                us@.len() == 32,
                forall|j: int| 0 <= j < i ==> is_hex_digit(us@[j]),
            decreases 32 - i,
        {
            let c = us.get_char(i);
            if hex_value(c).is_none() {
                return Err(ParseError::InvalidCharacter(c, i));
            }
            i = i + 1;
        }

        let mut bytes = [0u8; 16];
        let mut k: usize = 0;
        while k < 16
            invariant
                k <= 16,
                us@.len() == 32,
                forall|j: int| 0 <= j < 32 ==> is_hex_digit(us@[j]),
                forall|j: int| 0 <= j < k ==> bytes@[j] == bytes_of_hex(us@)[j],
            decreases 16 - k,
        {
            let hi = match hex_value(us.get_char(2 * k)) {
                Some(v) => v,
                None => {
                    return Err(ParseError::UnexpectedErrorAt(2 * k));
                }
            };
            let lo = match hex_value(us.get_char(2 * k + 1)) {
                Some(v) => v,
                None => {
                    return Err(ParseError::UnexpectedErrorAt(2 * k + 1));
                }
            };
            bytes[k] = hi * 16 + lo;
            k = k + 1;
        }
        assert(bytes@ =~= bytes_of_hex(us@));
        Ok(AssetID { bytes })
    }

    /// Derive the identifier for a data string issued under a creator
    /// key: a one-way hash of the key bytes followed by the data bytes.
    pub fn from_data(data: &str, pub_key: &PublicKey) -> (r: AssetID)
        ensures
            r@ == derived_id(data@, pub_key@),
    {
        let mut input: Vec<u8> = Vec::new();
        let key_bytes = pub_key.as_bytes();
        let mut i: usize = 0;
        while i < 32
            invariant
                i <= 32,
                key_bytes@ == pub_key@,
                input@ =~= pub_key@.take(i as int),
            decreases 32 - i,
        {
            input.push(key_bytes[i]);
            i = i + 1;
        }
        assert(input@ =~= pub_key@);
        let data_bytes = data.as_bytes();
        let mut j: usize = 0;
        while j < data_bytes.len()
            invariant
                j <= data_bytes@.len(),
                data_bytes@ == vstd::utf8::encode_utf8(data@),
                input@ =~= pub_key@ + data_bytes@.take(j as int),
            decreases data_bytes@.len() - j,
        {
            input.push(data_bytes[j]);
            j = j + 1;
        }
        assert(input@ =~= pub_key@ + vstd::utf8::encode_utf8(data@));

        let digest = sha256(&input);
        let mut bytes = [0u8; 16];
        let mut k: usize = 0;
        while k < 16
            invariant
                k <= 16,
                digest@.len() == 32,
                digest@ == sha256_of(pub_key@ + vstd::utf8::encode_utf8(data@)),
                forall|j2: int| 0 <= j2 < k ==> bytes@[j2] == digest@[j2],
            decreases 16 - k,
        {
            bytes[k] = digest[k];
            k = k + 1;
        }
        assert(bytes@ =~= derived_id(data@, pub_key@));
        AssetID { bytes }
    }

    /// The lower-case hexadecimal rendering of the identifier.
    pub fn to_string(&self) -> (r: String)
        ensures
            r@ == hex_str_of(self@),
    {
        let mut s = String::new();
        let mut i: usize = 0;
        while i < 16
            invariant
                i <= 16,
                s@ =~= hex_str_of(self@).take(2 * i as int),
            decreases 16 - i,
        {
            let b = self.bytes[i];
            s.append(hex_char_str(b / 16));
            s.append(hex_char_str(b % 16));
            assert(s@ =~= hex_str_of(self@).take(2 * (i + 1) as int));
            i = i + 1;
        }
        assert(s@ =~= hex_str_of(self@));
        s
    }

    /// The number of bytes an identifier occupies in a buffer.
    pub fn field_size() -> (r: usize)
        ensures
            r == 16,
    {
        16
    }

    /// Read an identifier from a 16-byte range of a buffer.
    pub fn read(buffer: &[u8], from: usize, to: usize) -> (r: AssetID)
        requires
            from <= to <= buffer@.len(),
            to - from == 16,
        ensures
            r@ == buffer@.subrange(from as int, to as int),
    {
        let mut bytes = [0u8; 16];
        let mut i: usize = 0;
        while i < 16
            invariant
                i <= 16,
                from + 16 <= buffer@.len(),
                to == from + 16,
                forall|j: int| 0 <= j < i ==> bytes@[j] == buffer@[from + j],
            decreases 16 - i,
        {
            bytes[i] = buffer[from + i];
            i = i + 1;
        }
        assert(bytes@ =~= buffer@.subrange(from as int, to as int));
        AssetID { bytes }
    }

    /// Write the identifier into a 16-byte range of a buffer.
    pub fn write(&self, buffer: &mut Vec<u8>, from: usize, to: usize)
        requires
            from <= to <= old(buffer)@.len(),
            to - from == 16,
        ensures
            final(buffer)@.len() == old(buffer)@.len(),
            final(buffer)@.subrange(from as int, to as int) == self@,
            forall|j: int| 0 <= j < old(buffer)@.len() && !(from <= j < to)
                ==> final(buffer)@[j] == old(buffer)@[j],
    {
        let mut i: usize = 0;
        while i < 16
            invariant
                i <= 16,
                from + 16 <= buffer@.len(),
                to == from + 16,
                buffer@.len() == old(buffer)@.len(),
                forall|j: int| 0 <= j < i ==> buffer@[from + j] == self@[j],
                forall|j: int| 0 <= j < old(buffer)@.len() && !(from <= j < from + i)
                    ==> buffer@[j] == old(buffer)@[j],
            decreases 16 - i,
        {
            buffer.set(from + i, self.bytes[i]);
            i = i + 1;
        }
        assert(final(buffer)@.subrange(from as int, to as int) =~= self@);
    }
}

} // verus!
