//! The vault header: 68 bytes, unencrypted but authenticated (it is the
//! additional data of the payload's encryption).
//!
//! Layout, integers little-endian: magic `PASSM3NE` (8), version (2),
//! cipher id (1), KDF id (1), Argon2id memory, time and lanes (4 each),
//! salt (16), nonce (24), payload length (4).
use crate::errors::{Error, Result};
use vstd::prelude::*;

verus! {

/// The current format version.
pub const VERSION: u16 = 1;

/// The identifier of XChaCha20-Poly1305.
pub const CIPHER_XC20P1305: u8 = 1;

/// The identifier of Argon2id.
pub const KDF_ARGON2ID: u8 = 1;

/// The size of a serialized header in bytes.
pub const HEADER_SIZE: usize = 68;

/// The largest payload a vault may carry (100 MiB).
pub const MAX_PAYLOAD_LENGTH: u32 = 104857600;

/// The smallest Argon2id memory cost accepted, in KiB.
pub const MIN_ARGON_MEMORY: u32 = 8192;

/// The magic bytes that open every vault: `PASSM3NE`.
pub open spec fn magic_bytes() -> Seq<u8> {
    seq![0x50u8, 0x41u8, 0x53u8, 0x53u8, 0x4du8, 0x33u8, 0x4eu8, 0x45u8]
}

/// The magic bytes `PASSM3NE`.
pub fn magic() -> (m: [u8; 8])
    ensures
        m@ == magic_bytes(),
{
    let m: [u8; 8] = [0x50, 0x41, 0x53, 0x53, 0x4d, 0x33, 0x4e, 0x45];
    assert(m@ =~= magic_bytes());
    m
}

/// The vault header.
#[derive(Debug, Clone)]
pub struct VaultHeader {
    pub magic: [u8; 8],
    pub version: u16,
    pub cipher_id: u8,
    pub kdf_id: u8,
    pub argon_memory: u32,
    pub argon_time: u32,
    pub argon_lanes: u32,
    pub salt: [u8; 16],
    pub nonce: [u8; 24],
    pub payload_length: u32,
}

/// What is wrong with a header, in the order `validate` checks.
#[derive(Debug, Clone, Copy, PartialEq, Eq)]
pub enum HeaderFault {
    Magic,
    Version,
    Cipher,
    Kdf,
    ArgonMemory,
    ArgonTime,
    ArgonLanes,
    PayloadLength,
}

/// The first fault among the Argon2id costs and the payload length.
pub open spec fn params_fault(memory: u32, time: u32, lanes: u32, payload_length: u32) -> Option<
    HeaderFault,
> {
    if memory < MIN_ARGON_MEMORY {
        Some(HeaderFault::ArgonMemory)
    } else if time < 1 {
        Some(HeaderFault::ArgonTime)
    } else if lanes < 1 {
        Some(HeaderFault::ArgonLanes)
    } else if payload_length > MAX_PAYLOAD_LENGTH {
        Some(HeaderFault::PayloadLength)
    } else {
        None
    }
}

/// The first fault of a header, or `None` when it is valid.
pub open spec fn header_fault(h: VaultHeader) -> Option<HeaderFault> {
    if h.magic@ != magic_bytes() {
        Some(HeaderFault::Magic)
    } else if h.version != VERSION {
        Some(HeaderFault::Version)
    } else if h.cipher_id != CIPHER_XC20P1305 {
        Some(HeaderFault::Cipher)
    } else if h.kdf_id != KDF_ARGON2ID {
        Some(HeaderFault::Kdf)
    } else {
        params_fault(h.argon_memory, h.argon_time, h.argon_lanes, h.payload_length)
    }
}

/// The error that reports a fault.
pub open spec fn fault_error(f: HeaderFault, e: Error) -> bool {
    match f {
        HeaderFault::Magic => e is InvalidMagic,
        HeaderFault::Version => e is UnsupportedVersion,
        HeaderFault::Cipher => e matches Error::InvalidArgument(s) && s@ == "Unsupported cipher"@,
        HeaderFault::Kdf => e matches Error::InvalidArgument(s) && s@ == "Unsupported KDF"@,
        HeaderFault::ArgonMemory => e matches Error::InvalidArgument(s) && s@
            == "Argon2id memory too low"@,
        HeaderFault::ArgonTime => e matches Error::InvalidArgument(s) && s@
            == "Argon2id time cost too low"@,
        HeaderFault::ArgonLanes => e matches Error::InvalidArgument(s) && s@
            == "Argon2id lanes too low"@,
        HeaderFault::PayloadLength => e is PayloadTooLarge,
    }
}

/// The little-endian bytes of a `u16`.
pub open spec fn le_u16(v: u16) -> Seq<u8> {
    seq![(v % 256) as u8, (v / 256) as u8]
}

/// The little-endian bytes of a `u32`.
pub open spec fn le_u32(v: u32) -> Seq<u8> {
    seq![(v % 256) as u8, ((v / 256) % 256) as u8, ((v / 65536) % 256) as u8, (v / 16777216) as u8]
}

/// The `u16` that two little-endian bytes encode.
pub open spec fn read_u16(b0: u8, b1: u8) -> u16 {
    (b0 + 256 * b1) as u16
}

/// The `u32` that four little-endian bytes encode.
pub open spec fn read_u32(b0: u8, b1: u8, b2: u8, b3: u8) -> u32 {
    (b0 + 256 * b1 + 65536 * b2 + 16777216 * b3) as u32
}

/// The 68 bytes of a header.
pub open spec fn header_bytes(h: VaultHeader) -> Seq<u8> {
    h.magic@ + le_u16(h.version) + seq![h.cipher_id, h.kdf_id] + le_u32(h.argon_memory) + le_u32(
        h.argon_time,
    ) + le_u32(h.argon_lanes) + h.salt@ + h.nonce@ + le_u32(h.payload_length)
}

/// `h` is the header that the first 68 bytes of `d` encode.
pub open spec fn decodes_to(d: Seq<u8>, h: VaultHeader) -> bool {
    &&& d.len() >= HEADER_SIZE
    &&& h.magic@ == d.subrange(0, 8)
    &&& h.version == read_u16(d[8], d[9])
    &&& h.cipher_id == d[10]
    &&& h.kdf_id == d[11]
    &&& h.argon_memory == read_u32(d[12], d[13], d[14], d[15])
    &&& h.argon_time == read_u32(d[16], d[17], d[18], d[19])
    &&& h.argon_lanes == read_u32(d[20], d[21], d[22], d[23])
    &&& h.salt@ == d.subrange(24, 40)
    &&& h.nonce@ == d.subrange(40, 64)
    &&& h.payload_length == read_u32(d[64], d[65], d[66], d[67])
}

proof fn lemma_u16_roundtrip(v: u16)
    ensures
        read_u16(le_u16(v)[0], le_u16(v)[1]) == v,
{
}

proof fn lemma_u32_roundtrip(v: u32)
    ensures
        read_u32(le_u32(v)[0], le_u32(v)[1], le_u32(v)[2], le_u32(v)[3]) == v,
{
    let b0 = v % 256;
    let q0 = v / 256;
    let b1 = q0 % 256;
    let q1 = q0 / 256;
    let b2 = q1 % 256;
    let b3 = q1 / 256;
    assert(v / 65536 == q1);
    assert(v / 16777216 == b3);
}

proof fn lemma_bytes_u16(b0: u8, b1: u8)
    ensures
        le_u16(read_u16(b0, b1)) == seq![b0, b1],
{
    let v = read_u16(b0, b1);
    assert(v % 256 == b0);
    assert(v / 256 == b1);
    assert(le_u16(v) =~= seq![b0, b1]);
}

proof fn lemma_bytes_u32(b0: u8, b1: u8, b2: u8, b3: u8)
    ensures
        le_u32(read_u32(b0, b1, b2, b3)) == seq![b0, b1, b2, b3],
{
    let v = read_u32(b0, b1, b2, b3);
    assert(v % 256 == b0);
    assert(v / 256 == b1 + 256 * b2 + 65536 * b3);
    assert((v / 256) % 256 == b1);
    assert(v / 65536 == b2 + 256 * b3);
    assert((v / 65536) % 256 == b2);
    assert(v / 16777216 == b3);
    assert(le_u32(v) =~= seq![b0, b1, b2, b3]);
}

/// The bytes of a header are 68 long and decode to that same header.
pub proof fn lemma_header_bytes_decode(h: VaultHeader)
    ensures
        header_bytes(h).len() == HEADER_SIZE,
        decodes_to(header_bytes(h), h),
{
    let d = header_bytes(h);
    lemma_u16_roundtrip(h.version);
    lemma_u32_roundtrip(h.argon_memory);
    lemma_u32_roundtrip(h.argon_time);
    lemma_u32_roundtrip(h.argon_lanes);
    lemma_u32_roundtrip(h.payload_length);
    assert(d.subrange(0, 8) =~= h.magic@);
    assert(d.subrange(24, 40) =~= h.salt@);
    assert(d.subrange(40, 64) =~= h.nonce@);
}

/// A header that some bytes decode to serializes back to exactly the first
/// 68 of those bytes.
pub proof fn lemma_decode_header_bytes(d: Seq<u8>, h: VaultHeader)
    requires
        decodes_to(d, h),
    ensures
        header_bytes(h) == d.take(HEADER_SIZE as int),
{
    lemma_bytes_u16(d[8], d[9]);
    lemma_bytes_u32(d[12], d[13], d[14], d[15]);
    lemma_bytes_u32(d[16], d[17], d[18], d[19]);
    lemma_bytes_u32(d[20], d[21], d[22], d[23]);
    lemma_bytes_u32(d[64], d[65], d[66], d[67]);
    assert(header_bytes(h) =~= d.take(HEADER_SIZE as int));
}

/// The bytes determine the header they decode to.
pub proof fn lemma_decode_unique(d: Seq<u8>, h1: VaultHeader, h2: VaultHeader)
    requires
        decodes_to(d, h1),
        decodes_to(d, h2),
    ensures
        h1 == h2,
{
    assert(h1.magic =~= h2.magic) by {
        assert forall|i: int| 0 <= i < 8 implies h1.magic[i] == h2.magic[i] by {
            assert(h1.magic@[i] == h2.magic@[i]);
        }
    }
    assert(h1.salt =~= h2.salt) by {
        assert forall|i: int| 0 <= i < 16 implies h1.salt[i] == h2.salt[i] by {
            assert(h1.salt@[i] == h2.salt@[i]);
        }
    }
    assert(h1.nonce =~= h2.nonce) by {
        assert forall|i: int| 0 <= i < 24 implies h1.nonce[i] == h2.nonce[i] by {
            assert(h1.nonce@[i] == h2.nonce@[i]);
        }
    }
}

fn push_all(buf: &mut Vec<u8>, bytes: &[u8])
    ensures
        final(buf)@ == old(buf)@ + bytes@,
{
    let mut i: usize = 0;
    while i < bytes.len()
        invariant
            0 <= i <= bytes.len(),
            buf@ == old(buf)@ + bytes@.take(i as int),
        decreases bytes.len() - i,
    {
        buf.push(bytes[i]);
        i = i + 1;
        assert(bytes@.take(i as int) =~= bytes@.take(i - 1).push(bytes@[i - 1]));
    }
    assert(bytes@.take(bytes.len() as int) =~= bytes@);
}

fn push_u16(buf: &mut Vec<u8>, v: u16)
    ensures
        final(buf)@ == old(buf)@ + le_u16(v),
{
    buf.push((v % 256) as u8);
    buf.push((v / 256) as u8);
    assert(buf@ =~= old(buf)@ + le_u16(v));
}

fn push_u32(buf: &mut Vec<u8>, v: u32)
    ensures
        final(buf)@ == old(buf)@ + le_u32(v),
{
    buf.push((v % 256) as u8);
    buf.push(((v / 256) % 256) as u8);
    buf.push(((v / 65536) % 256) as u8);
    buf.push((v / 16777216) as u8);
    assert(buf@ =~= old(buf)@ + le_u32(v));
}

fn get_u16(data: &[u8], at: usize) -> (v: u16)
    requires
        at + 2 <= data.len(),
    ensures
        v == read_u16(data@[at as int], data@[at + 1]),
{
    (data[at] as u16) + 256 * (data[at + 1] as u16)
}

fn get_u32(data: &[u8], at: usize) -> (v: u32)
    requires
        at + 4 <= data.len(),
    ensures
        v == read_u32(data@[at as int], data@[at + 1], data@[at + 2], data@[at + 3]),
{
    (data[at] as u32) + 256 * (data[at + 1] as u32) + 65536 * (data[at + 2] as u32) + 16777216 * (
    data[at + 3] as u32)
}

impl VaultHeader {
    /// A header for a new vault with the given Argon2id costs, salt, nonce
    /// and payload length (magic, version, cipher and KDF are the current
    /// ones), or the error that `validate` gives for it.
    pub fn new(
        argon_memory: u32,
        argon_time: u32,
        argon_lanes: u32,
        salt: [u8; 16],
        nonce: [u8; 24],
        payload_length: u32,
    ) -> (res: Result<Self>)
        ensures
            match params_fault(argon_memory, argon_time, argon_lanes, payload_length) {
                None => res matches Ok(h) && h.magic@ == magic_bytes() && h.version == VERSION
                    && h.cipher_id == CIPHER_XC20P1305 && h.kdf_id == KDF_ARGON2ID
                    && h.argon_memory == argon_memory && h.argon_time == argon_time
                    && h.argon_lanes == argon_lanes && h.salt == salt && h.nonce == nonce
                    && h.payload_length == payload_length,
                Some(f) => res matches Err(e) && fault_error(f, e),
            },
    {
        let header = VaultHeader {
            magic: magic(),
            version: VERSION,
            cipher_id: CIPHER_XC20P1305,
            kdf_id: KDF_ARGON2ID,
            argon_memory,
            argon_time,
            argon_lanes,
            salt,
            nonce,
            payload_length,
        };
        match header.validate() {
            Ok(()) => Ok(header),
            Err(e) => Err(e),
        }
    }

    /// Checks the header: magic bytes, version, cipher, KDF, Argon2id costs
    /// (at least 8 MiB, one pass, one lane) and payload length (at most
    /// 100 MiB), reporting the first that is wrong.
    pub fn validate(&self) -> (res: Result<()>)
        ensures
            match header_fault(*self) {
                None => res is Ok,
                Some(f) => res matches Err(e) && fault_error(f, e),
            },
    {
        let expected = magic();
        let mut i: usize = 0;
        while i < 8
            invariant
                0 <= i <= 8,
                expected@ == magic_bytes(),
                forall|j: int| 0 <= j < i ==> self.magic@[j] == magic_bytes()[j],
            decreases 8 - i,
        {
            if self.magic[i] != expected[i] {
                return Err(Error::InvalidMagic);
            }
            i = i + 1;
        }
        assert(self.magic@ =~= magic_bytes());
        if self.version != VERSION {
            return Err(Error::UnsupportedVersion);
        }
        if self.cipher_id != CIPHER_XC20P1305 {
            return Err(Error::InvalidArgument("Unsupported cipher".to_string()));
        }
        if self.kdf_id != KDF_ARGON2ID {
            return Err(Error::InvalidArgument("Unsupported KDF".to_string()));
        }
        if self.argon_memory < MIN_ARGON_MEMORY {
            return Err(Error::InvalidArgument("Argon2id memory too low".to_string()));
        }
        if self.argon_time < 1 {
            return Err(Error::InvalidArgument("Argon2id time cost too low".to_string()));
        }
        if self.argon_lanes < 1 {
            return Err(Error::InvalidArgument("Argon2id lanes too low".to_string()));
        }
        if self.payload_length > MAX_PAYLOAD_LENGTH {
            return Err(Error::PayloadTooLarge);
        }
        Ok(())
    }

    /// The header's 68 bytes, as stored on disk and used as additional
    /// authenticated data.
    pub fn serialize(&self) -> (buf: Vec<u8>)
        ensures
            buf@ == header_bytes(*self),
            buf.len() == HEADER_SIZE,
    {
        let mut buf: Vec<u8> = Vec::new();
        push_all(&mut buf, &self.magic);
        push_u16(&mut buf, self.version);
        buf.push(self.cipher_id);
        buf.push(self.kdf_id);
        push_u32(&mut buf, self.argon_memory);
        push_u32(&mut buf, self.argon_time);
        push_u32(&mut buf, self.argon_lanes);
        push_all(&mut buf, &self.salt);
        push_all(&mut buf, &self.nonce);
        push_u32(&mut buf, self.payload_length);
        assert(buf@ =~= header_bytes(*self));
        proof {
            lemma_header_bytes_decode(*self);
        }
        buf
    }

    /// Reads a header from the start of `data` and validates it. Returns
    /// the header and the number of bytes it took (68); data shorter than a
    /// header gives `CorruptedHeader`, an invalid header its `validate`
    /// error.
    pub fn deserialize(data: &[u8]) -> (res: Result<(Self, usize)>)
        ensures
            data.len() < HEADER_SIZE ==> res matches Err(Error::CorruptedHeader),
            forall|h: VaultHeader| #[trigger]
                decodes_to(data@, h) ==> match header_fault(h) {
                    None => res matches Ok((g, n)) && g == h && n == HEADER_SIZE,
                    Some(f) => res matches Err(e) && fault_error(f, e),
                },
    {
        if data.len() < HEADER_SIZE {
            return Err(Error::CorruptedHeader);
        }
        let mut magic = [0u8; 8];
        let mut i: usize = 0;
        while i < 8
            invariant
                data.len() >= HEADER_SIZE,
                0 <= i <= 8,
                forall|j: int| 0 <= j < i ==> magic@[j] == data@[j],
            decreases 8 - i,
        {
            magic[i] = data[i];
            i = i + 1;
        }
        let version = get_u16(data, 8);
        let cipher_id = data[10];
        let kdf_id = data[11];
        let argon_memory = get_u32(data, 12);
        let argon_time = get_u32(data, 16);
        let argon_lanes = get_u32(data, 20);
        let mut salt = [0u8; 16];
        let mut i: usize = 0;
        while i < 16
            invariant
                data.len() >= HEADER_SIZE,
                0 <= i <= 16,
                forall|j: int| 0 <= j < i ==> salt@[j] == data@[24 + j],
            decreases 16 - i,
        {
            salt[i] = data[24 + i];
            i = i + 1;
        }
        let mut nonce = [0u8; 24];
        let mut i: usize = 0;
        while i < 24
            invariant
                data.len() >= HEADER_SIZE,
                0 <= i <= 24,
                forall|j: int| 0 <= j < i ==> nonce@[j] == data@[40 + j],
            decreases 24 - i,
        {
            nonce[i] = data[40 + i];
            i = i + 1;
        }
        let payload_length = get_u32(data, 64);
        let header = VaultHeader {
            magic,
            version,
            cipher_id,
            kdf_id,
            argon_memory,
            argon_time,
            argon_lanes,
            salt,
            nonce,
            payload_length,
        };
        assert(magic@ =~= data@.subrange(0, 8));
        assert(salt@ =~= data@.subrange(24, 40));
        assert(nonce@ =~= data@.subrange(40, 64));
        assert(decodes_to(data@, header));
        proof {
            assert forall|h: VaultHeader| #[trigger] decodes_to(data@, h) implies h == header by {
                lemma_decode_unique(data@, h, header);
            }
        }
        match header.validate() {
            Ok(()) => Ok((header, HEADER_SIZE)),
            Err(e) => Err(e),
        }
    }
}

/// The additional authenticated data of a vault: its serialized header.
pub fn compute_aad(header: &VaultHeader) -> (aad: Vec<u8>)
    ensures
        aad@ == header_bytes(*header),
{
    header.serialize()
}

} // verus!
