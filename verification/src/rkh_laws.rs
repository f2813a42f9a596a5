//! What holds of every table of root key hashes.
#[allow(unused_imports)]
use crate::error::BootError;
#[allow(unused_imports)]
use crate::rkh::{
    is_table_at_start, rkth_of, table_bytes, Rkh, Rkth, HASH_LEN, RKH_COUNT, TABLE_LEN,
};
use vstd::prelude::*;
#[allow(unused_imports)]
use vstd::std_specs::cmp::PartialEqSpec;

verus! {

/// Each byte of each hash is hashed once, in its place: there are four hashes of 32 bytes,
/// one behind the other.
pub proof fn law_bytes_in_place(rkhs: [Rkh; 4], i: int, j: int)
    requires
        0 <= i < 4,
        0 <= j < 32,
    ensures
        table_bytes(rkhs).len() == 128,
        table_bytes(rkhs)[32 * i + j] == rkhs@[i].0@[j],
{
}

/// Each byte of each hash is read from its place, and none is read where there are fewer
/// than 128 bytes.
pub proof fn law_read_in_place(data: Seq<u8>, rkhs: [Rkh; 4], i: int, j: int)
    requires
        is_table_at_start(data, rkhs),
        0 <= i < 4,
        0 <= j < 32,
    ensures
        data.len() >= 128,
        rkhs@[i].0@[j] == data[32 * i + j],
{
}

/// A hash function that succeeds gives the root key table hash, byte for byte. One that
/// fails gives the hash error, and nothing else does.
pub proof fn law_digest_is_kept<E>(digest: Result<[u8; 32], E>)
    ensures
        rkth_of(digest) is Ok <==> digest is Ok,
        rkth_of(digest) matches Err(error) ==> error == BootError::Hash,
        forall|bytes: [u8; 32], j: int|
            #![trigger bytes@[j]]
            digest == Ok::<[u8; 32], E>(bytes) && 0 <= j < 32 ==> (rkth_of(digest)->Ok_0).0@[j]
                == bytes@[j],
{
}

/// Two root key hashes are equal exactly where all of their 32 bytes are, and so are two
/// root key table hashes.
pub proof fn law_equal_where_all_bytes_are(left: [u8; 32], right: [u8; 32])
    ensures
        Rkh::obeys_eq_spec(),
        Rkth::obeys_eq_spec(),
        Rkh(left).eq_spec(&Rkh(right)) <==> forall|j: int|
            0 <= j < 32 ==> left@[j] == #[trigger] right@[j],
        Rkth(left).eq_spec(&Rkth(right)) <==> forall|j: int|
            0 <= j < 32 ==> left@[j] == #[trigger] right@[j],
{
    if forall|j: int| 0 <= j < 32 ==> left@[j] == #[trigger] right@[j] {
        assert(left@ =~= right@);
    }
}

/// What is hashed of a table that was read off some bytes is those bytes, as far as the
/// table goes.
pub proof fn law_hashed_as_read(data: Seq<u8>, rkhs: [Rkh; 4])
    requires
        is_table_at_start(data, rkhs),
    ensures
        table_bytes(rkhs) == data.take(TABLE_LEN as int),
{
    assert(rkhs@[0].0@ == data.subrange(0, 32));
    assert(rkhs@[1].0@ == data.subrange(32, 64));
    assert(rkhs@[2].0@ == data.subrange(64, 96));
    assert(rkhs@[3].0@ == data.subrange(96, 128));
    assert(table_bytes(rkhs) =~= data.take(TABLE_LEN as int));
}

/// A table is read back from its own bytes, whatever comes after them, and no other table
/// is.
pub proof fn law_read_back(rkhs: [Rkh; 4], rest: Seq<u8>, read: [Rkh; 4])
    ensures
        is_table_at_start(table_bytes(rkhs) + rest, read) <==> forall|i: int|
            0 <= i < RKH_COUNT ==> (#[trigger] read@[i]).0@ == rkhs@[i].0@,
{
    let data = table_bytes(rkhs) + rest;
    assert forall|i: int| 0 <= i < RKH_COUNT implies data.subrange(
        HASH_LEN * i,
        HASH_LEN * i + HASH_LEN,
    ) == (#[trigger] rkhs@[i]).0@ by {
        assert(data.subrange(HASH_LEN * i, HASH_LEN * i + HASH_LEN) =~= rkhs@[i].0@);
    }
    if is_table_at_start(data, read) {
        assert forall|i: int| 0 <= i < RKH_COUNT implies (#[trigger] read@[i]).0@
            == rkhs@[i].0@ by {
            assert(rkhs@[i].0@ == rkhs@[i].0@);
        }
    }
    if forall|i: int| 0 <= i < RKH_COUNT ==> (#[trigger] read@[i]).0@ == rkhs@[i].0@ {
        assert(is_table_at_start(data, read));
    }
}

/// Tables that differ in any hash are hashed as different bytes.
pub proof fn law_tables_differ_in_bytes(left: [Rkh; 4], right: [Rkh; 4])
    requires
        table_bytes(left) == table_bytes(right),
    ensures
        forall|i: int| 0 <= i < RKH_COUNT ==> (#[trigger] left@[i]).0@ == right@[i].0@,
{
    let none = Seq::<u8>::empty();
    law_read_back(left, none, left);
    law_read_back(right, none, left);
}

} // verus!
