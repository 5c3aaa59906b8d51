//! The hexadecimal text in which byte fields (ciphertexts, nonces, salt)
//! are kept in the JSON files, through the `hex` crate.
use vstd::prelude::*;
use vstd::string::StringSliceAdditionalSpecFns;

verus! {

/// Why a hex field cannot be decoded.
#[derive(Debug, Clone, Copy, PartialEq, Eq, Structural)]
pub enum HexFault {
    /// A byte that is not a hex digit, and its position.
    InvalidHexCharacter { c: char, index: usize },
    /// An odd number of digits.
    OddLength,
    /// A text of the wrong length for a fixed-size buffer (`hex::decode`
    /// itself never reports it).
    InvalidStringLength,
    /// The wrong number of bytes for a fixed-size field.
    WrongLength { expected: usize, got: usize },
}

/// The value of a hex digit (either case).
pub open spec fn hex_value(b: u8) -> Option<u8> {
    if 0x30 <= b <= 0x39 {
        Some((b - 0x30) as u8)
    } else if 0x61 <= b <= 0x66 {
        Some((b - 0x61 + 10) as u8)
    } else if 0x41 <= b <= 0x46 {
        Some((b - 0x41 + 10) as u8)
    } else {
        None
    }
}

/// The lower-case hex digit of a value below 16.
pub open spec fn hex_digit(v: int) -> char {
    if v < 8 {
        if v < 4 {
            if v == 0 { '0' } else if v == 1 { '1' } else if v == 2 { '2' } else { '3' }
        } else {
            if v == 4 { '4' } else if v == 5 { '5' } else if v == 6 { '6' } else { '7' }
        }
    } else {
        if v < 12 {
            if v == 8 { '8' } else if v == 9 { '9' } else if v == 10 { 'a' } else { 'b' }
        } else {
            if v == 12 { 'c' } else if v == 13 { 'd' } else if v == 14 { 'e' } else { 'f' }
        }
    }
}

/// The lower-case hex text of some bytes: two digits per byte, high half
/// first.
pub open spec fn hex_text(bytes: Seq<u8>) -> Seq<char>
    decreases bytes.len(),
{
    if bytes.len() == 0 {
        Seq::empty()
    } else {
        hex_text(bytes.drop_last()) + seq![hex_digit((bytes.last() / 16) as int), hex_digit((bytes.last() % 16) as int)]
    }
}

/// The first position among the first `n` bytes that is not a hex digit.
pub open spec fn first_non_hex(d: Seq<u8>, n: int) -> Option<int>
    decreases n,
{
    if n <= 0 {
        None
    } else {
        match first_non_hex(d, n - 1) {
            Some(i) => Some(i),
            None => if hex_value(d[n - 1]) is None {
                Some(n - 1)
            } else {
                None
            },
        }
    }
}

/// What `hex::decode` reports for some text bytes: an odd length first,
/// then the first byte that is not a hex digit.
pub open spec fn hex_fault(d: Seq<u8>) -> Option<HexFault> {
    if d.len() % 2 != 0 {
        Some(HexFault::OddLength)
    } else {
        match first_non_hex(d, d.len() as int) {
            Some(i) => Some(HexFault::InvalidHexCharacter { c: d[i] as char, index: i as usize }),
            None => None,
        }
    }
}

/// The bytes that a valid hex text encodes: each pair of digits, high half
/// first.
pub open spec fn hex_bytes(d: Seq<u8>) -> Seq<u8> {
    Seq::new(d.len() / 2, |k: int| (hex_value(d[2 * k])->0 * 16 + hex_value(d[2 * k + 1])->0) as u8)
}

/// Calls `hex::encode`: the lower-case hex text of the bytes.
#[verifier::external_body]
fn hex_encode(bytes: &[u8]) -> (s: String)
    ensures
        s@ == hex_text(bytes@),
{
    hex::encode(bytes)
}

/// Calls `hex::decode` on the text's bytes: an odd length or a byte that is
/// not a hex digit (the first, with its position) is refused, otherwise the
/// pairs of digits give the bytes.
#[verifier::external_body]
fn hex_decode(text: &str) -> (r: Result<Vec<u8>, HexFault>)
    ensures
        match hex_fault(text.spec_bytes()) {
            Some(f) => r == Err::<Vec<u8>, HexFault>(f),
            None => r matches Ok(v) && v@ == hex_bytes(text.spec_bytes()),
        },
{
    match hex::decode(text) {
        Ok(v) => Ok(v),
        Err(hex::FromHexError::InvalidHexCharacter { c, index }) => Err(
            HexFault::InvalidHexCharacter { c, index },
        ),
        Err(hex::FromHexError::OddLength) => Err(HexFault::OddLength),
        Err(hex::FromHexError::InvalidStringLength) => Err(HexFault::InvalidStringLength),
    }
}

/// The hex text of a byte field.
pub fn encode_field(bytes: &[u8]) -> (s: String)
    ensures
        s@ == hex_text(bytes@),
{
    hex_encode(bytes)
}

/// The bytes of a hex field.
pub fn decode_field(text: &str) -> (r: Result<Vec<u8>, HexFault>)
    ensures
        match hex_fault(text.spec_bytes()) {
            Some(f) => r == Err::<Vec<u8>, HexFault>(f),
            None => r matches Ok(v) && v@ == hex_bytes(text.spec_bytes()),
        },
{
    hex_decode(text)
}

/// The 16 bytes of a hex salt field; any other number of bytes is refused.
pub fn decode_salt(text: &str) -> (r: Result<[u8; 16], HexFault>)
    ensures
        match hex_fault(text.spec_bytes()) {
            Some(f) => r == Err::<[u8; 16], HexFault>(f),
            None => if hex_bytes(text.spec_bytes()).len() == 16 {
                r matches Ok(a) && a@ == hex_bytes(text.spec_bytes())
            } else {
                r == Err::<[u8; 16], HexFault>(
                    HexFault::WrongLength { expected: 16, got: hex_bytes(text.spec_bytes()).len() as usize },
                )
            },
        },
{
    let v = match hex_decode(text) {
        Ok(v) => v,
        Err(f) => return Err(f),
    };
    if v.len() != 16 {
        return Err(HexFault::WrongLength { expected: 16, got: v.len() });
    }
    let mut a = [0u8; 16];
    let mut i: usize = 0;
    while i < 16
        invariant
            v.len() == 16,
            0 <= i <= 16,
            forall|j: int| 0 <= j < i ==> a@[j] == v@[j],
        decreases 16 - i,
    {
        a[i] = v[i];
        i = i + 1;
    }
    assert(a@ =~= v@);
    Ok(a)
}

/// The 24 bytes of a hex nonce field; any other number of bytes is refused.
pub fn decode_nonce(text: &str) -> (r: Result<[u8; 24], HexFault>)
    ensures
        match hex_fault(text.spec_bytes()) {
            Some(f) => r == Err::<[u8; 24], HexFault>(f),
            None => if hex_bytes(text.spec_bytes()).len() == 24 {
                r matches Ok(a) && a@ == hex_bytes(text.spec_bytes())
            } else {
                r == Err::<[u8; 24], HexFault>(
                    HexFault::WrongLength { expected: 24, got: hex_bytes(text.spec_bytes()).len() as usize },
                )
            },
        },
{
    let v = match hex_decode(text) {
        Ok(v) => v,
        Err(f) => return Err(f),
    };
    if v.len() != 24 {
        return Err(HexFault::WrongLength { expected: 24, got: v.len() });
    }
    let mut a = [0u8; 24];
    let mut i: usize = 0;
    while i < 24
        invariant
            v.len() == 24,
            0 <= i <= 24,
            forall|j: int| 0 <= j < i ==> a@[j] == v@[j],
        decreases 24 - i,
    {
        a[i] = v[i];
        i = i + 1;
    }
    assert(a@ =~= v@);
    Ok(a)
}

proof fn lemma_hex_digit(v: int)
    requires
        0 <= v < 16,
    ensures
        hex_value(hex_digit(v) as u8) == Some(v as u8),
        '\0' <= hex_digit(v) <= '\u{7f}',
{
}

proof fn lemma_hex_text(b: Seq<u8>)
    ensures
        hex_text(b).len() == 2 * b.len(),
        forall|k: int| 0 <= k < b.len() ==> #[trigger] hex_text(b)[2 * k] == hex_digit((b[k] / 16) as int)
            && hex_text(b)[2 * k + 1] == hex_digit((b[k] % 16) as int),
    decreases b.len(),
{
    if b.len() > 0 {
        lemma_hex_text(b.drop_last());
        assert forall|k: int| 0 <= k < b.len() implies #[trigger] hex_text(b)[2 * k] == hex_digit((b[k] / 16) as int)
            && hex_text(b)[2 * k + 1] == hex_digit((b[k] % 16) as int) by {
            if k < b.len() - 1 {
                assert(b.drop_last()[k] == b[k]);
            }
        }
    }
}

/// Law: the hex text of any bytes decodes back to exactly those bytes.
pub proof fn lemma_hex_roundtrip(b: Seq<u8>)
    ensures
        hex_fault(vstd::utf8::encode_utf8(hex_text(b))) is None,
        hex_bytes(vstd::utf8::encode_utf8(hex_text(b))) == b,
{
    let t = hex_text(b);
    lemma_hex_text(b);
    assert forall|i: int| 0 <= i < t.len() implies hex_value(#[trigger] t[i] as u8) is Some && '\0' <= t[i] <= '\u{7f}' by {
        let k = i / 2;
        assert(t[2 * k] == hex_digit((b[k] / 16) as int) && t[2 * k + 1] == hex_digit((b[k] % 16) as int));
        if i % 2 == 0 {
            assert(i == 2 * k);
            lemma_hex_digit((b[k] / 16) as int);
        } else {
            assert(i == 2 * k + 1);
            lemma_hex_digit((b[k] % 16) as int);
        }
    }
    assert(vstd::utf8::is_ascii_chars(t));
    vstd::utf8::is_ascii_chars_encode_utf8(t);
    let d = vstd::utf8::encode_utf8(t);
    assert(d.len() % 2 == 0);
    lemma_all_hex(d, d.len() as int);
    assert forall|k: int| 0 <= k < b.len() implies #[trigger] hex_bytes(d)[k] == b[k] by {
        lemma_hex_pair(b, d, k);
    }
    assert(hex_bytes(d) =~= b);
}

proof fn lemma_hex_pair(b: Seq<u8>, d: Seq<u8>, k: int)
    requires
        0 <= k < b.len(),
        d.len() == hex_text(b).len(),
        forall|i: int| 0 <= i < d.len() ==> #[trigger] d[i] == hex_text(b)[i] as u8,
    ensures
        hex_bytes(d)[k] == b[k],
{
    lemma_hex_text(b);
    let t = hex_text(b);
    assert(t[2 * k] == hex_digit((b[k] / 16) as int));
    assert(t[2 * k + 1] == hex_digit((b[k] % 16) as int));
    lemma_hex_digit((b[k] / 16) as int);
    lemma_hex_digit((b[k] % 16) as int);
    assert(d[2 * k] == t[2 * k] as u8);
    assert(d[2 * k + 1] == t[2 * k + 1] as u8);
}

proof fn lemma_all_hex(d: Seq<u8>, n: int)
    requires
        0 <= n <= d.len(),
        forall|i: int| 0 <= i < d.len() ==> hex_value(#[trigger] d[i]) is Some,
    ensures
        first_non_hex(d, n) is None,
    decreases n,
{
    if n > 0 {
        lemma_all_hex(d, n - 1);
    }
}

} // verus!
