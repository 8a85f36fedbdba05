use vstd::bytes::{
    lemma_auto_spec_u32_to_from_le_bytes, lemma_auto_spec_u64_to_from_le_bytes,
    spec_u32_from_le_bytes, spec_u32_to_le_bytes, spec_u64_from_le_bytes, spec_u64_to_le_bytes,
    u32_from_le_bytes, u32_to_le_bytes, u64_from_le_bytes, u64_to_le_bytes,
};
use vstd::prelude::*;
use vstd::slice::slice_subrange;

use crate::errors::TestCounterError;

verus! {

/// Length in bytes of a full persisted record: counter, timestamp and
/// client timestamp, little-endian, no padding.
pub const RECORD_LEN: usize = 20;

/// Length in bytes of the mandatory prefix of a record: counter and
/// timestamp.  A buffer shorter than this cannot be decoded.
pub const RECORD_PREFIX_LEN: usize = 12;

/// The program-defined record persisted inside a data account's buffer.
#[derive(Clone, Copy, Debug, PartialEq, Eq, Structural)]
pub struct TestCounterAccount {
    /// Number of successful Counter calls so far.
    pub counter: u32,
    /// Server-observed time of the last update, -1 if the host clock was
    /// unavailable.
    pub timestamp: i64,
    /// Time value supplied by the caller in the instruction payload.
    pub client_timestamp: i64,
}

/// The two's-complement reinterpretation of a signed 64-bit value as an
/// unsigned one, so that vstd's unsigned byte conversions extend to `i64`.
pub open spec fn spec_i64_to_u64(v: i64) -> u64 {
    if v >= 0 {
        v as u64
    } else {
        (v + 0x1_0000_0000_0000_0000) as u64
    }
}

/// The inverse reinterpretation: the signed 64-bit value whose
/// two's-complement image is `x`.
pub open spec fn spec_u64_to_i64(x: u64) -> i64 {
    if x < 0x8000_0000_0000_0000 {
        x as i64
    } else {
        (x - 0x1_0000_0000_0000_0000) as i64
    }
}

/// The 8-byte little-endian encoding of a signed 64-bit value.
pub open spec fn spec_i64_to_le_bytes(v: i64) -> Seq<u8> {
    spec_u64_to_le_bytes(spec_i64_to_u64(v))
}

/// The signed 64-bit value read from 8 little-endian bytes.
pub open spec fn spec_i64_from_le_bytes(s: Seq<u8>) -> i64 {
    spec_u64_to_i64(spec_u64_from_le_bytes(s))
}

/// Reading back the little-endian bytes of a signed value yields the value.
pub proof fn lemma_i64_le_bytes_roundtrip(v: i64)
    ensures
        spec_i64_to_le_bytes(v).len() == 8,
        spec_i64_from_le_bytes(spec_i64_to_le_bytes(v)) == v,
{
    lemma_auto_spec_u64_to_from_le_bytes();
}

/// Re-encoding the signed value read from 8 bytes yields the same bytes.
pub proof fn lemma_i64_le_bytes_identity(s: Seq<u8>)
    requires
        s.len() == 8,
    ensures
        spec_i64_to_le_bytes(spec_i64_from_le_bytes(s)) == s,
{
    lemma_auto_spec_u64_to_from_le_bytes();
}

/// Write a signed 64-bit value as its 8 little-endian bytes.
pub fn i64_to_le_bytes(v: i64) -> (s: Vec<u8>)
    ensures
        s@ == spec_i64_to_le_bytes(v),
        s@.len() == 8,
{
    let x: u64 = if v >= 0 {
        v as u64
    } else {
        ((v as i128) + 0x1_0000_0000_0000_0000) as u64
    };
    u64_to_le_bytes(x)
}

/// Read a signed 64-bit value from 8 little-endian bytes.
pub fn i64_from_le_bytes(s: &[u8]) -> (v: i64)
    requires
        s@.len() == 8,
    ensures
        v == spec_i64_from_le_bytes(s@),
{
    let x: u64 = u64_from_le_bytes(s);
    if x < 0x8000_0000_0000_0000 {
        x as i64
    } else {
        ((x as i128) - 0x1_0000_0000_0000_0000) as i64
    }
}

/// What decoding an account buffer returns.  The counter and timestamp
/// prefix is mandatory; the client timestamp reads as zero when the buffer
/// is too short to hold it.
pub open spec fn spec_decode(b: Seq<u8>) -> Result<TestCounterAccount, TestCounterError> {
    if b.len() < RECORD_PREFIX_LEN {
        Err(TestCounterError::MalformedState)
    } else {
        Ok(
            TestCounterAccount {
                counter: spec_u32_from_le_bytes(b.subrange(0, 4)),
                timestamp: spec_i64_from_le_bytes(b.subrange(4, 12)),
                client_timestamp: if b.len() >= RECORD_LEN {
                    spec_i64_from_le_bytes(b.subrange(12, 20))
                } else {
                    0
                },
            },
        )
    }
}

/// The bytes left in a buffer that previously held `prev` after a record is
/// written back into it: the buffer keeps its length, the record's encoding
/// fills it from the front, and any bytes past the record are untouched.
pub open spec fn stored_bytes(s: TestCounterAccount, prev: Seq<u8>) -> Seq<u8> {
    if prev.len() <= RECORD_LEN {
        s.encoding().take(prev.len() as int)
    } else {
        s.encoding() + prev.skip(RECORD_LEN as int)
    }
}

impl TestCounterAccount {
    /// The canonical 20-byte little-endian encoding of this record.
    pub open spec fn encoding(self) -> Seq<u8> {
        spec_u32_to_le_bytes(self.counter) + spec_i64_to_le_bytes(self.timestamp)
            + spec_i64_to_le_bytes(self.client_timestamp)
    }

    /// Interpret an account buffer as a record, little-endian: bytes [0,4)
    /// as the counter, [4,12) as the timestamp, [12,20) as the client
    /// timestamp.  Fails only when the buffer cannot hold the mandatory
    /// prefix.
    pub fn decode(data: &[u8]) -> (r: Result<TestCounterAccount, TestCounterError>)
        ensures
            r == spec_decode(data@),
    {
        if data.len() < RECORD_PREFIX_LEN {
            return Err(TestCounterError::MalformedState);
        }
        let counter: u32 = u32_from_le_bytes(slice_subrange(data, 0, 4));
        let timestamp: i64 = i64_from_le_bytes(slice_subrange(data, 4, 12));
        let client_timestamp: i64 = if data.len() >= RECORD_LEN {
            i64_from_le_bytes(slice_subrange(data, 12, 20))
        } else {
            0
        };
        Ok(TestCounterAccount { counter, timestamp, client_timestamp })
    }

    /// Produce the canonical 20-byte encoding of this record.
    pub fn encode(&self) -> (out: Vec<u8>)
        ensures
            out@ == self.encoding(),
            out@.len() == RECORD_LEN,
    {
        let mut out = u32_to_le_bytes(self.counter);
        let mut t = i64_to_le_bytes(self.timestamp);
        let mut c = i64_to_le_bytes(self.client_timestamp);
        out.append(&mut t);
        out.append(&mut c);
        out
    }

    /// Write this record back into an account buffer, keeping the buffer's
    /// length: the encoding fills the buffer from the front and any bytes
    /// past the full record stay as they were.
    pub fn store_into(&self, data: &mut Vec<u8>)
        ensures
            final(data)@ == stored_bytes(*self, old(data)@),
            final(data)@.len() == old(data)@.len(),
    {
        let mut out = self.encode();
        if data.len() <= RECORD_LEN {
            out.truncate(data.len());
        } else {
            let tail = slice_subrange(data.as_slice(), RECORD_LEN, data.len());
            out.extend_from_slice(tail);
        }
        proof {
            assert(out@ =~= stored_bytes(*self, data@));
        }
        *data = out;
    }
}

/// Law: a buffer a record was written back into still decodes, to a record
/// with that counter and timestamp; when the buffer holds the full record
/// length, it decodes to exactly the record that was written.
pub proof fn lemma_store_decode(s: TestCounterAccount, prev: Seq<u8>)
    requires
        prev.len() >= RECORD_PREFIX_LEN,
    ensures
        stored_bytes(s, prev).len() == prev.len(),
        spec_decode(stored_bytes(s, prev)) is Ok,
        spec_decode(stored_bytes(s, prev))->Ok_0.counter == s.counter,
        spec_decode(stored_bytes(s, prev))->Ok_0.timestamp == s.timestamp,
        prev.len() >= RECORD_LEN ==> spec_decode(stored_bytes(s, prev)) == Ok::<
            TestCounterAccount,
            TestCounterError,
        >(s),
{
    lemma_auto_spec_u32_to_from_le_bytes();
    lemma_auto_spec_u64_to_from_le_bytes();
    let stored = stored_bytes(s, prev);
    assert(s.encoding().len() == 20);
    assert(stored.subrange(0, 4) =~= spec_u32_to_le_bytes(s.counter));
    assert(stored.subrange(4, 12) =~= spec_i64_to_le_bytes(s.timestamp));
    lemma_i64_le_bytes_roundtrip(s.timestamp);
    if prev.len() >= RECORD_LEN {
        assert(stored.subrange(12, 20) =~= spec_i64_to_le_bytes(s.client_timestamp));
        lemma_i64_le_bytes_roundtrip(s.client_timestamp);
    }
}

/// Law: any buffer of the canonical record length decodes successfully, and
/// encoding the decoded record reproduces the buffer byte for byte.
pub proof fn lemma_encode_decode_identity(b: Seq<u8>)
    requires
        b.len() == RECORD_LEN,
    ensures
        spec_decode(b) is Ok,
        spec_decode(b)->Ok_0.encoding() == b,
{
    lemma_auto_spec_u32_to_from_le_bytes();
    lemma_i64_le_bytes_identity(b.subrange(4, 12));
    lemma_i64_le_bytes_identity(b.subrange(12, 20));
    assert(spec_decode(b)->Ok_0.encoding() =~= b);
}

/// Law: every record decodes back from its own encoding.
pub proof fn lemma_decode_encode_identity(s: TestCounterAccount)
    ensures
        spec_decode(s.encoding()) == Ok::<TestCounterAccount, TestCounterError>(s),
{
    lemma_auto_spec_u32_to_from_le_bytes();
    lemma_i64_le_bytes_roundtrip(s.timestamp);
    lemma_i64_le_bytes_roundtrip(s.client_timestamp);
    assert(s.encoding().subrange(0, 4) =~= spec_u32_to_le_bytes(s.counter));
    assert(s.encoding().subrange(4, 12) =~= spec_i64_to_le_bytes(s.timestamp));
    assert(s.encoding().subrange(12, 20) =~= spec_i64_to_le_bytes(s.client_timestamp));
}

} // verus!
