//! Root key hashes, and the hash over their table.
use crate::error::BootError;
#[allow(unused_imports)]
use crate::rkh_laws::law_bytes_in_place;
use vstd::prelude::*;

verus! {

/// The number of bytes in a hash.
pub const HASH_LEN: usize = 32;

/// The number of root keys in a certificate block.
pub const RKH_COUNT: usize = 4;

/// The number of bytes in a table of root key hashes.
pub const TABLE_LEN: usize = 128;

/// A root key hash as lives in the certificate block at the end of an image.
#[derive(Debug)]
pub struct Rkh(pub [u8; 32]);

/// A root key table hash: the hash over all root key hashes of an image.
#[derive(Clone, Copy, Debug)]
pub struct Rkth(pub [u8; 32]);

/// Whether two hashes are the same, byte for byte.
fn same_hash(left: &[u8; 32], right: &[u8; 32]) -> (same: bool)
    ensures
        same == (left@ == right@),
{
    let mut i: usize = 0;
    while i < 32
        invariant
            0 <= i <= 32,
            forall|j: int| 0 <= j < i ==> left@[j] == right@[j],
        decreases 32 - i,
    {
        if left[i] != right[i] {
            return false;
        }
        i = i + 1;
    }
    assert(left@ =~= right@);
    true
}

impl PartialEq for Rkh {
    fn eq(&self, other: &Self) -> (same: bool) {
        same_hash(&self.0, &other.0)
    }
}

impl vstd::std_specs::cmp::PartialEqSpecImpl for Rkh {
    open spec fn obeys_eq_spec() -> bool {
        true
    }

    open spec fn eq_spec(&self, other: &Self) -> bool {
        self.0@ == other.0@
    }
}

impl PartialEq for Rkth {
    fn eq(&self, other: &Self) -> (same: bool) {
        same_hash(&self.0, &other.0)
    }
}

impl vstd::std_specs::cmp::PartialEqSpecImpl for Rkth {
    open spec fn obeys_eq_spec() -> bool {
        true
    }

    open spec fn eq_spec(&self, other: &Self) -> bool {
        self.0@ == other.0@
    }
}

/// The bytes of a table of root key hashes: the hashes, one behind the other.
pub open spec fn table_bytes(rkhs: [Rkh; 4]) -> Seq<u8> {
    rkhs@[0].0@ + rkhs@[1].0@ + rkhs@[2].0@ + rkhs@[3].0@
}

/// Whether `data` starts with the bytes of each of the hashes in turn.
pub open spec fn is_table_at_start(data: Seq<u8>, rkhs: [Rkh; 4]) -> bool {
    &&& data.len() >= TABLE_LEN
    &&& forall|i: int|
        0 <= i < RKH_COUNT ==> (#[trigger] rkhs@[i]).0@ == data.subrange(
            HASH_LEN * i,
            HASH_LEN * i + HASH_LEN,
        )
}

/// The hash that starts at `at`.
fn read_hash(data: &[u8], at: usize) -> (hash: [u8; 32])
    requires
        at + 32 <= data.len(),
    ensures
        hash@ == data@.subrange(at as int, at + 32),
{
    let mut hash = [0u8; 32];
    let mut i: usize = 0;
    while i < 32
        invariant
            0 <= i <= 32,
            at + 32 <= data.len(),
            forall|j: int| 0 <= j < i ==> hash@[j] == data@[at + j],
        decreases 32 - i,
    {
        hash[i] = data[at + i];
        i = i + 1;
    }
    assert(hash@ =~= data@.subrange(at as int, at + 32));
    hash
}

/// The result that is handed on for what a hash function came back with.
pub open spec fn rkth_of<E>(digest: Result<[u8; 32], E>) -> Result<Rkth, BootError> {
    match digest {
        Ok(bytes) => Ok(Rkth(bytes)),
        Err(_) => Err(BootError::Hash),
    }
}

impl Rkth {
    /// Makes a root key table hash of what a hash function came back with.
    pub fn from_digest<E>(digest: Result<[u8; 32], E>) -> (result: Result<Rkth, BootError>)
        ensures
            result == rkth_of(digest),
            digest matches Ok(bytes) ==> (result matches Ok(rkth) && rkth.0@ == bytes@),
            result is Err <==> digest is Err,
            result matches Err(error) ==> error == BootError::Hash,
    {
        match digest {
            Ok(bytes) => Ok(Rkth(bytes)),
            Err(_) => Err(BootError::Hash),
        }
    }
}

impl Rkh {
    /// The bytes of a table, as they are hashed.
    fn to_bytes(rkhs: &[Rkh; 4]) -> (bytes: [u8; 128])
        ensures
            bytes@ == table_bytes(*rkhs),
    {
        let mut bytes = [0u8; 128];
        let mut i: usize = 0;
        while i < 128
            invariant
                0 <= i <= 128,
                forall|j: int| 0 <= j < i ==> bytes@[j] == table_bytes(*rkhs)[j],
            decreases 128 - i,
        {
            bytes[i] = rkhs[i / 32].0[i % 32];
            i = i + 1;
        }
        assert(bytes@ =~= table_bytes(*rkhs));
        bytes
    }

    /// Hashes a table of root key hashes with the given hash function.
    ///
    /// The function is called once, on the bytes of the table. Where it fails, so does this,
    /// with [`BootError::Hash`].
    pub fn to_rkth<E, H: FnOnce(&[u8]) -> Result<[u8; 32], E>>(
        rkhs: &[Rkh; 4],
        sha256: H,
    ) -> (result: Result<Rkth, BootError>)
        requires
            forall|table: &[u8]|
                table@ == table_bytes(*rkhs) ==> #[trigger] call_requires(sha256, (table,)),
        ensures
            exists|table: &[u8], digest: Result<[u8; 32], E>|
                {
                    &&& table@ == table_bytes(*rkhs)
                    &&& #[trigger] call_ensures(sha256, (table,), digest)
                    &&& result == rkth_of(digest)
                    &&& digest matches Ok(bytes) ==> (result matches Ok(rkth) && rkth.0@ == bytes@)
                    &&& result is Err <==> digest is Err
                    &&& result matches Err(error) ==> error == BootError::Hash
                    &&& table@.len() == 128
                    &&& forall|i: int, j: int|
                        0 <= i < 4 && 0 <= j < 32 ==> table@[32 * i + j] == #[trigger] rkhs@[i].0@[j]
                },
    {
        let bytes = Self::to_bytes(rkhs);
        let table: &[u8] = &bytes;
        let digest = sha256(table);
        proof {
            assert forall|i: int, j: int| 0 <= i < 4 && 0 <= j < 32 implies table@[32 * i + j]
                == #[trigger] rkhs@[i].0@[j] by {
                law_bytes_in_place(*rkhs, i, j);
            }
        }
        Rkth::from_digest(digest)
    }

    /// Reads a table of root key hashes off the start of `data`. There is none where `data`
    /// is too short.
    pub fn read_all_from_slice(data: &[u8]) -> (result: Option<[Rkh; 4]>)
        ensures
            result is Some <==> data@.len() >= TABLE_LEN,
            result matches Some(rkhs) ==> is_table_at_start(data@, rkhs),
            result is Some <==> data@.len() >= 128,
            result matches Some(rkhs) ==> forall|i: int, j: int|
                0 <= i < 4 && 0 <= j < 32 ==> #[trigger] rkhs@[i].0@[j] == data@[32 * i + j],
    {
        if data.len() < TABLE_LEN {
            return None;
        }
        Some(
            [
                Rkh(read_hash(data, 0)),
                Rkh(read_hash(data, 32)),
                Rkh(read_hash(data, 64)),
                Rkh(read_hash(data, 96)),
            ],
        )
    }
}

} // verus!
