//! The calls this library makes into other crates and into the parts of std that
//! have no specification of their own, each with the contract it is trusted to meet.

use vstd::prelude::*;

verus! {

/// The BLAKE3 digest (32 bytes) of a byte string.
pub uninterp spec fn blake3_digest(data: Seq<u8>) -> Seq<u8>;

/// Calls `blake3::hash`. Trusted to return the BLAKE3 digest of `data`, which depends on
/// `data` alone; nothing more about the digest is stated.
#[verifier::external_body]
pub fn blake3_hash(data: &[u8]) -> (h: [u8; 32])
    ensures
        h@ == blake3_digest(data@),
{
    blake3::hash(data).into()
}

#[verifier::external_type_specification]
#[verifier::external_body]
pub struct ExUuid(uuid::Uuid);

#[verifier::external_type_specification]
#[verifier::external_body]
pub struct ExSystemTime(std::time::SystemTime);

/// The 16 bytes of the version 7 UUID for Unix time `millis` (milliseconds) and the
/// 10 bytes `rand`: the low 48 bits of `millis` big-endian; the version nibble 7 with
/// the low half of `rand[0]`; `rand[1]`; the variant bits `10` with the low six bits
/// of `rand[2]`; then `rand[3]` to `rand[9]`.
pub open spec fn uuid_v7_layout(millis: u64, rand: Seq<u8>) -> Seq<u8> {
    seq![
        ((millis / 0x100_0000_0000) % 256) as u8,
        ((millis / 0x1_0000_0000) % 256) as u8,
        ((millis / 0x100_0000) % 256) as u8,
        ((millis / 0x1_0000) % 256) as u8,
        ((millis / 0x100) % 256) as u8,
        (millis % 256) as u8,
        (0x70 + rand[0] % 16) as u8,
        rand[1],
        (0x80 + rand[2] % 64) as u8,
        rand[3],
        rand[4],
        rand[5],
        rand[6],
        rand[7],
        rand[8],
        rand[9],
    ]
}

/// Calls `uuid::Builder::from_unix_timestamp_millis` and hands back the bytes of the
/// UUID it builds: the version 7 layout of `millis` and `rand`.
#[verifier::external_body]
pub fn uuid_v7_from_parts(millis: u64, rand: &[u8; 10]) -> (r: [u8; 16])
    ensures
        r@ == uuid_v7_layout(millis, rand@),
{
    uuid::Builder::from_unix_timestamp_millis(millis, rand).into_uuid().into_bytes()
}

/// Calls `getrandom::fill` on ten bytes: the bytes from the system's random source, or
/// `None` where the source fails. The bytes are random, so nothing is stated of them.
#[verifier::external_body]
pub fn random_ten_bytes() -> Option<[u8; 10]> {
    let mut bytes = [0u8; 10];
    match getrandom::fill(&mut bytes) {
        Ok(()) => Some(bytes),
        Err(_) => None,
    }
}

/// The 16 bytes of a UUID: what `uuid::Uuid::into_bytes` returns for it.
pub uninterp spec fn uuid_octets(u: uuid::Uuid) -> Seq<u8>;

/// Calls `uuid::Uuid::from_bytes`: the UUID made of the bytes `b`.
#[verifier::external_body]
pub fn uuid_from_bytes(b: [u8; 16]) -> (r: uuid::Uuid)
    ensures
        uuid_octets(r) == b@,
{
    uuid::Uuid::from_bytes(b)
}

/// Calls `uuid::Uuid::into_bytes`: the 16 bytes of `u`.
#[verifier::external_body]
pub fn uuid_into_bytes(u: uuid::Uuid) -> (r: [u8; 16])
    ensures
        r@ == uuid_octets(u),
{
    u.into_bytes()
}

/// Calls `std::time::SystemTime::now`. It reads the clock: nothing is stated.
#[verifier::external_body]
pub fn system_time_now() -> std::time::SystemTime {
    std::time::SystemTime::now()
}

/// How long after the Unix epoch the time `t` lies; `None` where it lies before the
/// epoch: what `SystemTime::duration_since(UNIX_EPOCH)` gives for `t`, its error
/// dropped.
pub uninterp spec fn since_unix_epoch(t: std::time::SystemTime) -> Option<std::time::Duration>;

/// Calls `SystemTime::duration_since` with `UNIX_EPOCH`; `None` where the time lies
/// before the epoch. The answer depends on `t` alone; `t` itself came from the clock.
#[verifier::external_body]
pub fn duration_since_unix_epoch(t: &std::time::SystemTime) -> (r: Option<std::time::Duration>)
    ensures
        r == since_unix_epoch(*t),
{
    t.duration_since(std::time::UNIX_EPOCH).ok()
}

/// The total number of nanoseconds a `Duration` holds: what `Duration::as_nanos`
/// returns for it.
pub uninterp spec fn duration_total_nanos(d: std::time::Duration) -> nat;

/// Calls `Duration::as_nanos`: the total number of nanoseconds of `d`.
#[verifier::external_body]
pub fn duration_as_nanos(d: &std::time::Duration) -> (r: u128)
    ensures
        r == duration_total_nanos(*d),
{
    d.as_nanos()
}

/// `Duration` is `Copy`; its `clone` returns the same value.
pub assume_specification[ <std::time::Duration as Clone>::clone ](d: &std::time::Duration) -> (r: std::time::Duration)
    ensures
        r == *d,
;

/// Calls `Duration::from_secs`: a duration of `secs` whole seconds.
#[verifier::external_body]
pub fn duration_from_secs(secs: u64) -> (r: std::time::Duration)
    ensures
        duration_total_nanos(r) == secs * 1_000_000_000,
{
    std::time::Duration::from_secs(secs)
}

/// Calls `Duration::from_millis`: a duration of `millis` milliseconds.
#[verifier::external_body]
pub fn duration_from_millis(millis: u64) -> (r: std::time::Duration)
    ensures
        duration_total_nanos(r) == millis * 1_000_000,
{
    std::time::Duration::from_millis(millis)
}


#[verifier::external_type_specification]
#[verifier::external_body]
pub struct ExInstant(std::time::Instant);

/// Calls `std::time::Instant::now`. It reads the clock: nothing is stated.
#[verifier::external_body]
pub fn instant_now() -> std::time::Instant {
    std::time::Instant::now()
}

/// Calls `Instant::elapsed`. It reads the clock: nothing is stated.
#[verifier::external_body]
pub fn instant_elapsed(start: &std::time::Instant) -> std::time::Duration {
    start.elapsed()
}

/// Calls `PartialOrd::ge` on two durations: whether `a` is at least as long as `b`.
#[verifier::external_body]
pub fn duration_ge(a: &std::time::Duration, b: &std::time::Duration) -> (r: bool)
    ensures
        r == (duration_total_nanos(*a) >= duration_total_nanos(*b)),
{
    a.ge(b)
}

/// Payload bytes keyed by their 32-byte content hash, in a `hashbrown::HashMap`.
/// Verus refuses a declaration of `hashbrown::HashMap` (its allocator parameter is
/// bounded by a trait of another crate), so the map is held here, opaque, and reached
/// only through the items below.
#[verifier::external_body]
pub struct PayloadTable {
    map: hashbrown::HashMap<[u8; 32], Vec<u8>>,
}

/// What a `PayloadTable` holds: each content hash with its payload bytes.
pub uninterp spec fn payload_table_entries(t: PayloadTable) -> Map<[u8; 32], Seq<u8>>;

/// Calls `hashbrown::HashMap::new`: an empty map.
#[verifier::external_body]
pub fn payload_table_new() -> (r: PayloadTable)
    ensures
        payload_table_entries(r) =~= Map::empty(),
{
    PayloadTable { map: hashbrown::HashMap::new() }
}

/// Calls `hashbrown::HashMap::insert`: `value` is stored under `key`, replacing what
/// was there; the other entries stay.
#[verifier::external_body]
pub fn payload_table_insert(t: &mut PayloadTable, key: [u8; 32], value: Vec<u8>)
    ensures
        payload_table_entries(*final(t)) == payload_table_entries(*old(t)).insert(key, value@),
{
    t.map.insert(key, value);
}

/// Calls `hashbrown::HashMap::get` and clones the value found: the bytes stored under
/// `key`, or `None` where there are none.
#[verifier::external_body]
pub fn payload_table_get(t: &PayloadTable, key: &[u8; 32]) -> (r: Option<Vec<u8>>)
    ensures
        match r {
            Some(v) => payload_table_entries(*t).contains_key(*key) && v@
                == payload_table_entries(*t)[*key],
            None => !payload_table_entries(*t).contains_key(*key),
        },
{
    t.map.get(key).cloned()
}

/// Calls `hashbrown::HashMap::contains_key`: whether bytes are stored under `key`.
#[verifier::external_body]
pub fn payload_table_contains(t: &PayloadTable, key: &[u8; 32]) -> (r: bool)
    ensures
        r == payload_table_entries(*t).contains_key(*key),
{
    t.map.contains_key(key)
}

/// Calls `hashbrown::HashMap::remove`: the entry under `key` leaves the map, and its
/// bytes are returned; `None` where there was none. The other entries stay.
#[verifier::external_body]
pub fn payload_table_remove(t: &mut PayloadTable, key: &[u8; 32]) -> (r: Option<Vec<u8>>)
    ensures
        payload_table_entries(*final(t)) == payload_table_entries(*old(t)).remove(*key),
        match r {
            Some(v) => payload_table_entries(*old(t)).contains_key(*key) && v@
                == payload_table_entries(*old(t))[*key],
            None => !payload_table_entries(*old(t)).contains_key(*key),
        },
{
    t.map.remove(key)
}

/// Calls `hashbrown::HashMap::len`: the number of entries.
#[verifier::external_body]
pub fn payload_table_len(t: &PayloadTable) -> (r: usize)
    ensures
        r == payload_table_entries(*t).len(),
{
    t.map.len()
}

/// Walks the map with `hashbrown::HashMap::iter` and hands out each content hash with
/// the size of its bytes. The order is the map's own, which rests on a hasher seeded
/// per process, so it is left unsaid: each key comes out once, with its size.
#[verifier::external_body]
pub fn payload_table_sizes(t: &PayloadTable) -> (r: Vec<([u8; 32], usize)>)
    ensures
        forall|i: int, j: int| 0 <= i < j < r@.len() ==> r@[i].0 != r@[j].0,
        forall|i: int|
            0 <= i < r@.len() ==> payload_table_entries(*t).contains_key(#[trigger] r@[i].0)
                && r@[i].1 == payload_table_entries(*t)[r@[i].0].len(),
        forall|k: [u8; 32]|
            payload_table_entries(*t).contains_key(k) ==> exists|i: int|
                0 <= i < r@.len() && #[trigger] r@[i].0 == k,
{
    t.map.iter().map(|(k, v)| (*k, v.len())).collect()
}

/// A set of 32-byte vertex IDs in a `hashbrown::HashSet`. Verus refuses a declaration
/// of `hashbrown::HashSet` (its allocator parameter is bounded by a trait of another
/// crate), so the set is held here, opaque, and reached only through the items below.
#[verifier::external_body]
#[derive(Debug)]
pub struct IdSet {
    set: hashbrown::HashSet<[u8; 32]>,
}

/// What an `IdSet` holds.
pub uninterp spec fn id_set_items(s: IdSet) -> Set<[u8; 32]>;

/// Calls `hashbrown::HashSet::new`: an empty set.
#[verifier::external_body]
pub fn id_set_new() -> (r: IdSet)
    ensures
        id_set_items(r) =~= Set::empty(),
{
    IdSet { set: hashbrown::HashSet::new() }
}

/// Calls `hashbrown::HashSet::insert`: `id` joins the set; `true` where it was not there
/// before.
#[verifier::external_body]
pub fn id_set_insert(s: &mut IdSet, id: [u8; 32]) -> (added: bool)
    ensures
        id_set_items(*final(s)) == id_set_items(*old(s)).insert(id),
        added == !id_set_items(*old(s)).contains(id),
{
    s.set.insert(id)
}

/// Calls `hashbrown::HashSet::remove`: `id` leaves the set; `true` where it was there.
#[verifier::external_body]
pub fn id_set_remove(s: &mut IdSet, id: &[u8; 32]) -> (removed: bool)
    ensures
        id_set_items(*final(s)) == id_set_items(*old(s)).remove(*id),
        removed == id_set_items(*old(s)).contains(*id),
{
    s.set.remove(id)
}

/// Walks the set with `hashbrown::HashSet::iter` and hands out its IDs. The order is the
/// set's own, which rests on a hasher seeded per process, so it is left unsaid: each ID
/// of the set comes out once.
#[verifier::external_body]
pub fn id_set_ids(s: &IdSet) -> (r: Vec<[u8; 32]>)
    ensures
        r@.no_duplicates(),
        r@.to_set() == id_set_items(*s),
{
    s.set.iter().copied().collect()
}

/// Calls `hashbrown::HashSet::contains`: whether `id` is in the set.
#[verifier::external_body]
pub fn id_set_contains(s: &IdSet, id: &[u8; 32]) -> (r: bool)
    ensures
        r == id_set_items(*s).contains(*id),
{
    s.set.contains(id)
}

/// Calls `hashbrown::HashSet::len`: the number of IDs in the set.
#[verifier::external_body]
pub fn id_set_len(s: &IdSet) -> (r: usize)
    ensures
        r == id_set_items(*s).len(),
{
    s.set.len()
}

/// Writes `text` to stderr with `std::io::Write::write_all`; a failed write is
/// ignored. Nothing is stated: the effect is outside the program.
#[verifier::external_body]
pub fn write_stderr(text: &str) {
    let _ = std::io::Write::write_all(&mut std::io::stderr(), text.as_bytes());
}

/// The parents of each stored vertex, keyed by vertex ID, in a `hashbrown::HashMap`
/// (held opaque, as `PayloadTable` is).
#[verifier::external_body]
pub struct ParentTable {
    map: hashbrown::HashMap<[u8; 32], Vec<[u8; 32]>>,
}

/// What a `ParentTable` holds: each stored vertex ID with its parents.
pub uninterp spec fn parent_table_entries(t: ParentTable) -> Map<[u8; 32], Seq<[u8; 32]>>;

/// Calls `hashbrown::HashMap::new`: an empty map.
#[verifier::external_body]
pub fn parent_table_new() -> (r: ParentTable)
    ensures
        parent_table_entries(r) =~= Map::empty(),
{
    ParentTable { map: hashbrown::HashMap::new() }
}

/// Calls `hashbrown::HashMap::insert`: `parents` is stored under `id`, replacing what
/// was there; the other entries stay.
#[verifier::external_body]
pub fn parent_table_insert(t: &mut ParentTable, id: [u8; 32], parents: Vec<[u8; 32]>)
    ensures
        parent_table_entries(*final(t)) == parent_table_entries(*old(t)).insert(id, parents@),
{
    t.map.insert(id, parents);
}

/// Calls `hashbrown::HashMap::get` and clones the value found: the parents stored under
/// `id`, or `None` where there are none.
#[verifier::external_body]
pub fn parent_table_get(t: &ParentTable, id: &[u8; 32]) -> (r: Option<Vec<[u8; 32]>>)
    ensures
        match r {
            Some(v) => parent_table_entries(*t).contains_key(*id) && v@
                == parent_table_entries(*t)[*id],
            None => !parent_table_entries(*t).contains_key(*id),
        },
{
    t.map.get(id).cloned()
}

/// Calls `hashbrown::HashMap::len`: the number of stored vertices.
#[verifier::external_body]
pub fn parent_table_len(t: &ParentTable) -> (r: usize)
    ensures
        r == parent_table_entries(*t).len(),
{
    t.map.len()
}

/// Walks the map with `hashbrown::HashMap::keys` and hands out the stored IDs. The order
/// rests on a hasher seeded per process, so it is left unsaid: each ID comes out once.
#[verifier::external_body]
pub fn parent_table_ids(t: &ParentTable) -> (r: Vec<[u8; 32]>)
    ensures
        r@.no_duplicates(),
        r@.to_set() == parent_table_entries(*t).dom(),
{
    t.map.keys().copied().collect()
}

/// The children of each parent ID, in a `hashbrown::HashMap` of `hashbrown::HashSet`s
/// (held opaque, as `PayloadTable` is).
#[verifier::external_body]
pub struct ChildTable {
    map: hashbrown::HashMap<[u8; 32], hashbrown::HashSet<[u8; 32]>>,
}

/// What a `ChildTable` holds: each parent ID with the set of its children.
pub uninterp spec fn child_table_entries(t: ChildTable) -> Map<[u8; 32], Set<[u8; 32]>>;

/// Calls `hashbrown::HashMap::new`: an empty map.
#[verifier::external_body]
pub fn child_table_new() -> (r: ChildTable)
    ensures
        child_table_entries(r) =~= Map::empty(),
{
    ChildTable { map: hashbrown::HashMap::new() }
}

/// Calls `hashbrown::HashMap::entry(parent).or_default()` and then
/// `hashbrown::HashSet::insert(child)`: `child` joins the children of `parent` (an empty
/// set where `parent` had none); the other entries stay.
#[verifier::external_body]
pub fn child_table_add(t: &mut ChildTable, parent: [u8; 32], child: [u8; 32])
    ensures
        child_table_entries(*final(t)) == child_table_entries(*old(t)).insert(
            parent,
            if child_table_entries(*old(t)).contains_key(parent) {
                child_table_entries(*old(t))[parent]
            } else {
                Set::empty()
            }.insert(child),
        ),
{
    t.map.entry(parent).or_default().insert(child);
}

/// Calls `hashbrown::HashMap::get` and walks the set found with `hashbrown::HashSet::iter`:
/// the children of `parent`, each once, in the set's own order (left unsaid); none
/// where `parent` has no entry.
#[verifier::external_body]
pub fn child_table_children(t: &ChildTable, parent: &[u8; 32]) -> (r: Vec<[u8; 32]>)
    ensures
        r@.no_duplicates(),
        child_table_entries(*t).contains_key(*parent) ==> r@.to_set() == child_table_entries(
            *t,
        )[*parent],
        !child_table_entries(*t).contains_key(*parent) ==> r@.len() == 0,
{
    match t.map.get(parent) {
        Some(children) => children.iter().copied().collect(),
        None => Vec::new(),
    }
}

} // verus!
