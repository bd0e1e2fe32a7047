//! The cache entry and its record layout.
//!
//! A record is, in order: one tag byte (`0`: the entry never expires, `1`: an
//! expiry follows); with tag `1`, the expiry's seconds as 8 bytes and its
//! nanoseconds as 4 bytes; the length of the value as 8 bytes; the value. All
//! integers are little-endian, the seconds in two's complement. Nothing may
//! follow the value.

use crate::error::Error;
use crate::time::Timestamp;
use vstd::bytes::*;
use vstd::prelude::*;
use vstd::slice::*;

verus! {

/// Tag of a record without an expiry.
pub const TAG_NEVER: u8 = 0;

/// Tag of a record that carries an expiry.
pub const TAG_EXPIRES: u8 = 1;

/// What the store keeps for one key: the body of a response and the instant
/// up to which it may be served.
#[derive(Debug, PartialEq, Eq)]
pub struct CacheEntry {
    /// The entry is valid strictly before this instant; `None`: for ever.
    pub expires: Option<Timestamp>,
    /// The response body as it was received.
    pub value: Vec<u8>,
}

/// A [`CacheEntry`] as a mathematical value.
pub struct EntryView {
    pub expires: Option<Timestamp>,
    pub value: Seq<u8>,
}

impl View for CacheEntry {
    type V = EntryView;

    open spec fn view(&self) -> EntryView {
        EntryView { expires: self.expires, value: self.value@ }
    }
}

impl Clone for CacheEntry {
    fn clone(&self) -> (r: Self)
        ensures
            r@ == self@,
    {
        CacheEntry { expires: self.expires, value: slice_to_vec(self.value.as_slice()) }
    }
}

impl EntryView {
    /// Fresh at `now`: no expiry, or an expiry strictly later than `now`.
    pub open spec fn is_fresh(self, now: Timestamp) -> bool {
        match self.expires {
            None => true,
            Some(t) => t.as_nanos() > now.as_nanos(),
        }
    }

    /// An entry that a record can hold: the length of its value fits the
    /// record's length field.
    pub open spec fn fits(self) -> bool {
        self.value.len() <= u64::MAX
    }
}

/// The leading bytes of a record: the tag and, with it, the expiry.
pub open spec fn expiry_field(expires: Option<Timestamp>) -> Seq<u8> {
    match expires {
        None => seq![TAG_NEVER],
        Some(t) => seq![TAG_EXPIRES] + spec_u64_to_le_bytes(t.secs as u64) + spec_u32_to_le_bytes(
            t.nanos,
        ),
    }
}

/// The record of an entry.
pub open spec fn encoded(e: EntryView) -> Seq<u8> {
    expiry_field(e.expires) + spec_u64_to_le_bytes(e.value.len() as u64) + e.value
}

/// Reads the length field and the value that make up the rest of a record.
pub open spec fn decoded_value(rest: Seq<u8>) -> Option<Seq<u8>> {
    if rest.len() >= 8 && spec_u64_from_le_bytes(rest.subrange(0, 8)) == rest.len() - 8 {
        Some(rest.skip(8))
    } else {
        None
    }
}

/// Reads the expiry that follows the tag `1`.
pub open spec fn decoded_expiry(bytes: Seq<u8>) -> Timestamp
    recommends
        bytes.len() >= 13,
{
    Timestamp {
        secs: spec_u64_from_le_bytes(bytes.subrange(1, 9)) as i64,
        nanos: spec_u32_from_le_bytes(bytes.subrange(9, 13)),
    }
}

/// The entry that a record holds, or `None` where the bytes are no record.
pub open spec fn decoded(bytes: Seq<u8>) -> Option<EntryView> {
    if bytes.len() >= 1 && bytes[0] == TAG_NEVER {
        match decoded_value(bytes.skip(1)) {
            Some(value) => Some(EntryView { expires: None, value }),
            None => None,
        }
    } else if bytes.len() >= 13 && bytes[0] == TAG_EXPIRES {
        match decoded_value(bytes.skip(13)) {
            Some(value) => Some(EntryView { expires: Some(decoded_expiry(bytes)), value }),
            None => None,
        }
    } else {
        None
    }
}

impl CacheEntry {
    /// Whether the entry may still be served at `now`.
    pub fn is_fresh(&self, now: &Timestamp) -> (r: bool)
        ensures
            r == self@.is_fresh(*now),
    {
        match &self.expires {
            None => true,
            Some(t) => t.is_after(now),
        }
    }

    /// Writes the entry as a record.
    pub fn encode(&self) -> (r: Vec<u8>)
        ensures
            r@ == encoded(self@),
            decoded(r@) == Some(self@),
    {
        let mut out: Vec<u8> = Vec::new();
        match self.expires {
            None => {
                out.push(TAG_NEVER);
            },
            Some(t) => {
                out.push(TAG_EXPIRES);
                let mut secs = u64_to_le_bytes(t.secs as u64);
                out.append(&mut secs);
                let mut nanos = u32_to_le_bytes(t.nanos);
                out.append(&mut nanos);
            },
        }
        let mut len = u64_to_le_bytes(self.value.len() as u64);
        out.append(&mut len);
        let mut value = slice_to_vec(self.value.as_slice());
        out.append(&mut value);
        proof {
            assert(out@ =~= encoded(self@));
            lemma_decode_encode(self@);
        }
        out
    }

    /// Reads a record. Fails with [`Error::Decode`] exactly where the bytes are
    /// not the record of any entry.
    pub fn decode(bytes: &[u8]) -> (r: Result<CacheEntry, Error>)
        ensures
            match r {
                Ok(e) => decoded(bytes@) == Some(e@),
                Err(err) => err == Error::Decode && decoded(bytes@).is_none(),
            },
    {
        if bytes.len() < 1 {
            return Err(Error::Decode);
        }
        let tag = bytes[0];
        let (expires, at): (Option<Timestamp>, usize) = if tag == TAG_NEVER {
            (None, 1)
        } else if tag == TAG_EXPIRES && bytes.len() >= 13 {
            let secs = u64_from_le_bytes(slice_subrange(bytes, 1, 9));
            let nanos = u32_from_le_bytes(slice_subrange(bytes, 9, 13));
            (Some(Timestamp { secs: #[verifier::truncate] (secs as i64), nanos }), 13)
        } else {
            return Err(Error::Decode);
        };
        if bytes.len() - at < 8 {
            return Err(Error::Decode);
        }
        proof {
            let rest = bytes@.skip(at as int);
            assert(rest.subrange(0, 8) =~= bytes@.subrange(at as int, at + 8));
            assert(rest.skip(8) =~= bytes@.subrange(at + 8, bytes@.len() as int));
        }
        let len = u64_from_le_bytes(slice_subrange(bytes, at, at + 8));
        if len != (bytes.len() - at - 8) as u64 {
            return Err(Error::Decode);
        }
        let value = slice_to_vec(slice_subrange(bytes, at + 8, bytes.len()));
        Ok(CacheEntry { expires, value })
    }
}

/// Decoding the record of an entry gives the entry back, whether or not it
/// has an expiry and whatever its value holds, the empty value included.
pub proof fn lemma_decode_encode(e: EntryView)
    requires
        e.fits(),
    ensures
        decoded(encoded(e)) == Some(e),
{
    lemma_auto_spec_u64_to_from_le_bytes();
    lemma_auto_spec_u32_to_from_le_bytes();
    let len = spec_u64_to_le_bytes(e.value.len() as u64);
    let bytes = encoded(e);
    match e.expires {
        None => {
            let rest = bytes.skip(1);
            assert(rest =~= len + e.value);
            assert(rest.subrange(0, 8) =~= len);
            assert(rest.skip(8) =~= e.value);
        },
        Some(t) => {
            let secs = spec_u64_to_le_bytes(t.secs as u64);
            let nanos = spec_u32_to_le_bytes(t.nanos);
            assert(bytes.subrange(1, 9) =~= secs);
            assert(bytes.subrange(9, 13) =~= nanos);
            let s: i64 = t.secs;
            assert((s as u64) as i64 == s) by (bit_vector);
            let rest = bytes.skip(13);
            assert(rest =~= len + e.value);
            assert(rest.subrange(0, 8) =~= len);
            assert(rest.skip(8) =~= e.value);
            assert(decoded_expiry(bytes) == t);
        },
    }
}

/// A record is the encoding of the entry it decodes to, and of no other: the
/// layout has one record for each entry.
pub proof fn lemma_encode_decode(bytes: Seq<u8>, e: EntryView)
    requires
        decoded(bytes) == Some(e),
    ensures
        encoded(e) == bytes,
        e.fits(),
{
    lemma_auto_spec_u64_to_from_le_bytes();
    lemma_auto_spec_u32_to_from_le_bytes();
    if bytes[0] == TAG_NEVER {
        let rest = bytes.skip(1);
        assert(spec_u64_to_le_bytes(e.value.len() as u64) == rest.subrange(0, 8));
        assert(encoded(e) =~= bytes);
    } else {
        let rest = bytes.skip(13);
        let t = decoded_expiry(bytes);
        let raw = spec_u64_from_le_bytes(bytes.subrange(1, 9));
        assert((raw as i64) as u64 == raw) by (bit_vector);
        assert(spec_u64_to_le_bytes(t.secs as u64) == bytes.subrange(1, 9));
        assert(spec_u32_to_le_bytes(t.nanos) == bytes.subrange(9, 13));
        assert(spec_u64_to_le_bytes(e.value.len() as u64) == rest.subrange(0, 8));
        assert(encoded(e) =~= bytes);
    }
}

} // verus!
