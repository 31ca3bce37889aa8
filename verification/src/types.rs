//! Core identifiers and values of the DAG engine: content hashes, vertex and session
//! identifiers, payload references, DIDs, signatures and timestamps.

use vstd::prelude::*;
use crate::outside::{
    blake3_digest, blake3_hash, duration_as_nanos, duration_since_unix_epoch, duration_total_nanos,
    since_unix_epoch, system_time_now,
    random_ten_bytes, uuid_from_bytes, uuid_into_bytes, uuid_octets, uuid_v7_from_parts,
    uuid_v7_layout,
};
use crate::text::{decimal, hex_chars, hex_string, push_decimal, push_hex};
use std::cmp::Ordering;
use vstd::std_specs::cmp::PartialOrdSpecImpl;

verus! {

/// 32-byte content hash (BLAKE3).
pub type ContentHash = [u8; 32];

/// Lowercase hexadecimal rendering of a byte string.
pub fn hex_encode(bytes: &[u8]) -> (s: String)
    ensures
        s@ == hex_chars(bytes@),
{
    hex_string(bytes)
}

/// Vertex identifier: the BLAKE3 hash of the vertex content.
#[derive(Clone, Copy, Debug, PartialEq, Eq, Hash)]
pub struct VertexId(pub ContentHash);

impl VertexId {
    /// The zero vertex ID (padding in Merkle trees).
    pub fn zero() -> (r: Self)
        ensures
            forall|i: int| 0 <= i < 32 ==> #[trigger] r.0[i] == 0u8,
    {
        VertexId([0u8; 32])
    }

    /// A vertex ID holding the given hash.
    pub fn new(hash: ContentHash) -> (r: Self)
        ensures
            r.0 == hash,
    {
        VertexId(hash)
    }

    /// The vertex ID of `data`: its BLAKE3 hash.
    pub fn from_bytes(data: &[u8]) -> (r: Self)
        ensures
            r.0@ == blake3_digest(data@),
    {
        VertexId(blake3_hash(data))
    }

    /// The hash bytes.
    pub fn as_bytes(&self) -> (r: &[u8; 32])
        ensures
            *r == self.0,
    {
        &self.0
    }

    /// The hash as 64 lowercase hexadecimal digits.
    pub fn to_hex(&self) -> (s: String)
        ensures
            s@ == hex_chars(self.0@),
    {
        hex_encode(&self.0)
    }

    /// Display form: the first 16 hexadecimal digits.
    pub fn to_string(&self) -> (s: String)
        ensures
            s@ == hex_chars(self.0@).subrange(0, 16),
    {
        let prefix: [u8; 8] = [
            self.0[0],
            self.0[1],
            self.0[2],
            self.0[3],
            self.0[4],
            self.0[5],
            self.0[6],
            self.0[7],
        ];
        let s = hex_encode(&prefix);
        assert(s@ =~= hex_chars(self.0@).subrange(0, 16));
        s
    }

    /// Debug form: `VertexId(` the display form `)`.
    pub fn debug_string(&self) -> (s: String)
        ensures
            s@ == "VertexId("@ + hex_chars(self.0@).subrange(0, 16) + ")"@,
    {
        let mut s = String::from_str("VertexId(");
        let short = self.to_string();
        s.append(short.as_str());
        s.append(")");
        s
    }
}

/// The hyphenated lowercase text of a UUID given by its 16 bytes: the bytes in
/// hexadecimal, in groups of 4, 2, 2, 2 and 6 bytes joined by `-`.
pub open spec fn uuid_text(b: Seq<u8>) -> Seq<char> {
    hex_chars(b.subrange(0, 4)) + seq!['-'] + hex_chars(b.subrange(4, 6)) + seq!['-']
        + hex_chars(b.subrange(6, 8)) + seq!['-'] + hex_chars(b.subrange(8, 10)) + seq!['-']
        + hex_chars(b.subrange(10, 16))
}

/// The bytes of a version 7 UUID: version nibble 7 (high half of byte 6) and variant
/// bits `10` (top two bits of byte 8).
pub open spec fn is_uuid_v7(b: Seq<u8>) -> bool {
    &&& b.len() == 16
    &&& b[6] / 16 == 7
    &&& b[8] / 64 == 2
}

/// The Unix time of `t` in whole milliseconds, saturated to `u64::MAX`, or 0 where `t`
/// lies before the epoch.
pub open spec fn unix_millis_of(t: std::time::SystemTime) -> u64 {
    match since_unix_epoch(t) {
        Some(d) => saturate_u64(duration_total_nanos(d) / 1_000_000),
        None => 0,
    }
}

/// The bytes of the version 7 UUID made at time `t` with the random bytes `rand`.
pub open spec fn uuid_v7_at(t: std::time::SystemTime, rand: Seq<u8>) -> Seq<u8> {
    uuid_v7_layout(unix_millis_of(t), rand)
}

/// Every version 7 layout has the version nibble 7 and the variant bits `10`.
pub proof fn lemma_uuid_v7_layout_is_v7(millis: u64, rand: Seq<u8>)
    requires
        rand.len() == 10,
    ensures
        is_uuid_v7(uuid_v7_layout(millis, rand)),
{
}

/// A new version 7 UUID: the clock's Unix time in milliseconds (0 before the epoch)
/// and ten bytes from the system's random source (zeros where the source fails).
pub(crate) fn uuid_v7_now() -> (r: [u8; 16])
    ensures
        is_uuid_v7(r@),
        exists|t: std::time::SystemTime, rand: Seq<u8>|
            rand.len() == 10 && r@ == #[trigger] uuid_v7_at(t, rand),
{
    let t = system_time_now();
    let millis: u64 = match duration_since_unix_epoch(&t) {
        Some(d) => saturating_u128_to_u64(duration_as_nanos(&d) / 1_000_000),
        None => 0,
    };
    let rand = match random_ten_bytes() {
        Some(b) => b,
        None => [0u8; 10],
    };
    let r = uuid_v7_from_parts(millis, &rand);
    proof {
        lemma_uuid_v7_layout_is_v7(millis, rand@);
        assert(millis == unix_millis_of(t));
        assert(r@ == uuid_v7_at(t, rand@));
    }
    r
}

/// The hyphenated text of the UUID with bytes `b`.
pub fn uuid_hyphenated(b: &[u8; 16]) -> (s: String)
    ensures
        s@ == uuid_text(b@),
{
    let bytes = b.as_slice();
    let mut s = String::new();
    push_hex(&mut s, vstd::slice::slice_subrange(bytes, 0, 4));
    s.push('-');
    push_hex(&mut s, vstd::slice::slice_subrange(bytes, 4, 6));
    s.push('-');
    push_hex(&mut s, vstd::slice::slice_subrange(bytes, 6, 8));
    s.push('-');
    push_hex(&mut s, vstd::slice::slice_subrange(bytes, 8, 10));
    s.push('-');
    push_hex(&mut s, vstd::slice::slice_subrange(bytes, 10, 16));
    proof {
        assert(s@ =~= uuid_text(b@));
    }
    s
}

/// Session identifier: a time-ordered UUID (version 7), held as its 16 bytes.
#[derive(Clone, Copy, Debug, PartialEq, Eq, Hash)]
pub struct SessionId(pub [u8; 16]);

impl SessionId {
    /// A new session ID: a version 7 UUID from the clock and the system's random source
    /// (its random bits zero where the source fails).
    pub fn now() -> (r: Self)
        ensures
            is_uuid_v7(r.0@),
            exists|t: std::time::SystemTime, rand: Seq<u8>|
                rand.len() == 10 && r.0@ == #[trigger] uuid_v7_at(t, rand),
    {
        SessionId(uuid_v7_now())
    }

    /// The session ID of `uuid`.
    pub fn new(uuid: uuid::Uuid) -> (r: Self)
        ensures
            r.0@ == uuid_octets(uuid),
    {
        SessionId(uuid_into_bytes(uuid))
    }

    /// The session ID as a UUID.
    pub fn as_uuid(&self) -> (r: uuid::Uuid)
        ensures
            uuid_octets(r) == self.0@,
    {
        uuid_from_bytes(self.0)
    }

    /// The 16 bytes of the UUID.
    pub fn as_bytes(&self) -> (r: &[u8])
        ensures
            r@ == self.0@,
    {
        self.0.as_slice()
    }

    /// Display form: the hyphenated UUID.
    pub fn to_string(&self) -> (s: String)
        ensures
            s@ == uuid_text(self.0@),
    {
        uuid_hyphenated(&self.0)
    }
}

/// Slice identifier: a time-ordered UUID (version 7), held as its 16 bytes.
#[derive(Clone, Copy, Debug, PartialEq, Eq, Hash)]
pub struct SliceId(pub [u8; 16]);

impl SliceId {
    /// A new slice ID: a version 7 UUID from the clock and the system's random source
    /// (its random bits zero where the source fails).
    pub fn now() -> (r: Self)
        ensures
            is_uuid_v7(r.0@),
            exists|t: std::time::SystemTime, rand: Seq<u8>|
                rand.len() == 10 && r.0@ == #[trigger] uuid_v7_at(t, rand),
    {
        SliceId(uuid_v7_now())
    }

    /// The slice ID of `uuid`.
    pub fn new(uuid: uuid::Uuid) -> (r: Self)
        ensures
            r.0@ == uuid_octets(uuid),
    {
        SliceId(uuid_into_bytes(uuid))
    }

    /// Display form: the hyphenated UUID.
    pub fn to_string(&self) -> (s: String)
        ensures
            s@ == uuid_text(self.0@),
    {
        uuid_hyphenated(&self.0)
    }
}

/// Payload reference: the BLAKE3 hash of the payload and its size.
#[derive(Clone, Copy, Debug, PartialEq, Eq, Hash)]
pub struct PayloadRef {
    /// BLAKE3 hash of the payload.
    pub hash: ContentHash,
    /// Size of the payload in bytes.
    pub size: u64,
}

impl PayloadRef {
    /// The reference of `data`: its BLAKE3 hash and its length.
    pub fn from_bytes(data: &[u8]) -> (r: Self)
        ensures
            r.hash@ == blake3_digest(data@),
            r.size == data@.len(),
    {
        PayloadRef { hash: blake3_hash(data), size: data.len() as u64 }
    }

    /// A reference with known hash and size.
    pub fn new(hash: ContentHash, size: u64) -> (r: Self)
        ensures
            r.hash == hash,
            r.size == size,
    {
        PayloadRef { hash, size }
    }

    /// The hash as 64 lowercase hexadecimal digits.
    pub fn to_hex(&self) -> (s: String)
        ensures
            s@ == hex_chars(self.hash@),
    {
        hex_encode(&self.hash)
    }

    /// A reference from a hash given as bytes, with size 0: the first 32 bytes are kept,
    /// a shorter hash is padded with zero bytes.
    pub fn from_hash(hash: &[u8]) -> (r: Self)
        ensures
            r.size == 0,
            forall|i: int|
                0 <= i < 32 ==> #[trigger] r.hash[i] == (if i < hash@.len() {
                    hash@[i]
                } else {
                    0u8
                }),
    {
        let mut content_hash = [0u8; 32];
        let len = if hash.len() < 32 {
            hash.len()
        } else {
            32
        };
        let mut i: usize = 0;
        while i < len
            invariant
                i <= len <= 32,
                len <= hash@.len(),
                len == hash@.len() || len == 32,
                forall|k: int| 0 <= k < i ==> #[trigger] content_hash[k] == hash@[k],
                forall|k: int| i <= k < 32 ==> #[trigger] content_hash[k] == 0u8,
            decreases len - i,
        {
            content_hash[i] = hash[i];
            i = i + 1;
        }
        PayloadRef { hash: content_hash, size: 0 }
    }

    /// The hash bytes.
    pub fn as_bytes(&self) -> (r: &[u8; 32])
        ensures
            *r == self.hash,
    {
        &self.hash
    }

    /// Display form: the full hexadecimal hash.
    pub fn to_string(&self) -> (s: String)
        ensures
            s@ == hex_chars(self.hash@),
    {
        self.to_hex()
    }

    /// Debug form: `PayloadRef(` 16 hexadecimal digits `..., ` size ` bytes)`.
    pub fn debug_string(&self) -> (s: String)
        ensures
            s@ == "PayloadRef("@ + hex_chars(self.hash@).subrange(0, 16) + "..., "@ + decimal(
                self.size as nat,
            ) + " bytes)"@,
    {
        let mut s = String::from_str("PayloadRef(");
        let short = VertexId(self.hash).to_string();
        s.append(short.as_str());
        s.append("..., ");
        push_decimal(&mut s, self.size);
        s.append(" bytes)");
        s
    }
}

/// Decentralized identifier (DID).
#[derive(Debug, PartialEq, Eq, Hash)]
pub struct Did(pub String);

/// The characters of a string slice.
pub open spec fn str_view(s: &str) -> Seq<char> {
    s@
}

impl std::borrow::Borrow<str> for Did {
    fn borrow(&self) -> (r: &str)
        ensures
            str_view(r) == self.0@,
    {
        self.0.as_str()
    }
}

impl Clone for Did {
    fn clone(&self) -> (r: Self)
        ensures
            r == *self,
    {
        Did(self.0.clone())
    }
}

impl Did {
    /// A DID from its text.
    pub fn new(did: &str) -> (r: Self)
        ensures
            r.0@ == did@,
    {
        Did(String::from_str(did))
    }

    /// The DID text.
    pub fn as_str(&self) -> (r: &str)
        ensures
            r@ == self.0@,
    {
        self.0.as_str()
    }

    /// Display form: the DID text.
    pub fn to_string(&self) -> (s: String)
        ensures
            s@ == self.0@,
    {
        self.0.clone()
    }

    /// Debug form: `Did(` the DID text `)`.
    pub fn debug_string(&self) -> (s: String)
        ensures
            s@ == "Did("@ + self.0@ + ")"@,
    {
        let mut s = String::from_str("Did(");
        s.append(self.0.as_str());
        s.append(")");
        s
    }
}

impl Default for Did {
    /// The anonymous DID `did:key:anonymous`.
    fn default() -> (r: Self)
        ensures
            r.0@ == "did:key:anonymous"@,
    {
        Did(String::from_str("did:key:anonymous"))
    }
}

/// Cryptographic signature bytes.
#[derive(Clone, Debug, PartialEq, Eq)]
pub struct Signature(pub Vec<u8>);

impl Signature {
    /// A signature holding `bytes`.
    pub fn new(bytes: Vec<u8>) -> (r: Self)
        ensures
            r.0@ == bytes@,
    {
        Signature(bytes)
    }

    /// A signature copied from static bytes.
    pub fn from_static(bytes: &'static [u8]) -> (r: Self)
        ensures
            r.0@ == bytes@,
    {
        let mut v: Vec<u8> = Vec::new();
        let mut i: usize = 0;
        while i < bytes.len()
            invariant
                i <= bytes@.len(),
                v@ == bytes@.subrange(0, i as int),
            decreases bytes@.len() - i,
        {
            v.push(bytes[i]);
            i = i + 1;
            assert(v@ =~= bytes@.subrange(0, i as int));
        }
        assert(v@ =~= bytes@);
        Signature(v)
    }

    /// The signature bytes.
    pub fn as_bytes(&self) -> (r: &[u8])
        ensures
            r@ == self.0@,
    {
        self.0.as_slice()
    }

    /// The signature bytes, taking the signature.
    pub fn into_bytes(self) -> (r: Vec<u8>)
        ensures
            r@ == self.0@,
    {
        self.0
    }

    /// Debug form: `Signature(` number of bytes ` bytes)`.
    pub fn debug_string(&self) -> (s: String)
        ensures
            s@ == "Signature("@ + decimal(self.0@.len()) + " bytes)"@,
    {
        let mut s = String::from_str("Signature(");
        push_decimal(&mut s, self.0.len() as u64);
        s.append(" bytes)");
        s
    }
}

/// Timestamp in nanoseconds since the Unix epoch.
#[derive(Clone, Copy, Debug, PartialEq, Eq, Ord, Hash, Structural)]
pub struct Timestamp(pub u64);

/// Timestamps compare by their nanoseconds.
pub open spec fn timestamp_order(a: Timestamp, b: Timestamp) -> Option<Ordering> {
    if a.0 < b.0 {
        Some(Ordering::Less)
    } else if a.0 == b.0 {
        Some(Ordering::Equal)
    } else {
        Some(Ordering::Greater)
    }
}

impl PartialOrd for Timestamp {
    fn partial_cmp(&self, other: &Self) -> (r: Option<Ordering>) {
        if self.0 < other.0 {
            Some(Ordering::Less)
        } else if self.0 == other.0 {
            Some(Ordering::Equal)
        } else {
            Some(Ordering::Greater)
        }
    }
}

impl PartialOrdSpecImpl for Timestamp {
    open spec fn obeys_partial_cmp_spec() -> bool {
        true
    }

    open spec fn partial_cmp_spec(&self, other: &Self) -> Option<Ordering> {
        timestamp_order(*self, *other)
    }
}

/// Timestamps are ordered as their nanoseconds are: earlier is less, the same count
/// is equal, later is greater; and two timestamps are equal exactly when their counts
/// are.
pub proof fn lemma_timestamp_order_follows_nanos(a: Timestamp, b: Timestamp)
    ensures
        (timestamp_order(a, b) == Some(Ordering::Less)) <==> a.0 < b.0,
        (timestamp_order(a, b) == Some(Ordering::Equal)) <==> a == b,
        (timestamp_order(a, b) == Some(Ordering::Greater)) <==> a.0 > b.0,
{
}

/// Nanoseconds as a `u64`, saturating at `u64::MAX`.
pub open spec fn saturate_u64(n: nat) -> u64 {
    if n <= u64::MAX {
        n as u64
    } else {
        u64::MAX
    }
}

/// `n` as a `u64`, saturating at `u64::MAX`.
pub fn saturating_u128_to_u64(n: u128) -> (r: u64)
    ensures
        r == saturate_u64(n as nat),
{
    if n <= u64::MAX as u128 {
        n as u64
    } else {
        u64::MAX
    }
}

/// The timestamp of the time `t`: nanoseconds since the Unix epoch, saturated to
/// `u64::MAX`, or 0 where `t` lies before the epoch.
pub open spec fn timestamp_of(t: std::time::SystemTime) -> Timestamp {
    match since_unix_epoch(t) {
        Some(d) => Timestamp(saturate_u64(duration_total_nanos(d))),
        None => Timestamp(0),
    }
}

impl Timestamp {
    /// The current time: nanoseconds since the Unix epoch, saturated to `u64::MAX`, or 0
    /// when the clock reads a time before the epoch. The time read is the clock's, so
    /// the value is that of some time `t`.
    pub fn now() -> (r: Self)
        ensures
            exists|t: std::time::SystemTime| r == #[trigger] timestamp_of(t),
    {
        let t = system_time_now();
        let r = match duration_since_unix_epoch(&t) {
            Some(d) => Timestamp(saturating_u128_to_u64(duration_as_nanos(&d))),
            None => Timestamp(0),
        };
        assert(r == timestamp_of(t));
        r
    }

    /// A timestamp of `nanos` nanoseconds.
    pub fn from_nanos(nanos: u64) -> (r: Self)
        ensures
            r.0 == nanos,
    {
        Timestamp(nanos)
    }

    /// The nanoseconds.
    pub fn as_nanos(&self) -> (r: u64)
        ensures
            r == self.0,
    {
        self.0
    }

    /// The whole seconds.
    pub fn as_secs(&self) -> (r: u64)
        ensures
            r == self.0 / 1_000_000_000,
    {
        self.0 / 1_000_000_000
    }

    /// Display form: the nanoseconds followed by `ns`.
    pub fn to_string(&self) -> (s: String)
        ensures
            s@ == decimal(self.0 as nat) + "ns"@,
    {
        let mut s = String::new();
        push_decimal(&mut s, self.0);
        s.append("ns");
        s
    }

    /// Debug form: `Timestamp(` the nanoseconds `ns)`.
    pub fn debug_string(&self) -> (s: String)
        ensures
            s@ == "Timestamp("@ + decimal(self.0 as nat) + "ns)"@,
    {
        let mut s = String::from_str("Timestamp(");
        push_decimal(&mut s, self.0);
        s.append("ns)");
        s
    }
}

/// The BLAKE3 hash of two hashes, left then right (a Merkle tree node).
pub fn hash_pair(left: &ContentHash, right: &ContentHash) -> (r: ContentHash)
    ensures
        r@ == blake3_digest(left@ + right@),
{
    let mut data: Vec<u8> = Vec::new();
    let mut i: usize = 0;
    while i < 32
        invariant
            i <= 32,
            data@ == left@.subrange(0, i as int),
        decreases 32 - i,
    {
        data.push(left[i]);
        i = i + 1;
        assert(data@ =~= left@.subrange(0, i as int));
    }
    let mut j: usize = 0;
    while j < 32
        invariant
            j <= 32,
            data@ == left@ + right@.subrange(0, j as int),
        decreases 32 - j,
    {
        data.push(right[j]);
        j = j + 1;
        assert(data@ =~= left@ + right@.subrange(0, j as int));
    }
    assert(data@ =~= left@ + right@);
    blake3_hash(data.as_slice())
}

} // verus!
