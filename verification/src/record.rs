use crate::bits::max_bits;
use crate::item::{lemma_byte_round_trip, Flags};
use crate::memory::{
    flags_at, inserted, lemma_inserted_trimmed, lemma_removed, lemma_same_flags, removed, trimmed,
};
use crate::storage::Rows;
use crate::types::PointOffsetType;
use vstd::prelude::*;

verus! {

/// The key of the row of a point: its offset in four bytes, the most
/// significant first.
pub open spec fn be_key(id: PointOffsetType) -> Seq<u8> {
    seq![
        (id / 0x100_0000) as u8,
        ((id / 0x1_0000) % 0x100) as u8,
        ((id / 0x100) % 0x100) as u8,
        (id % 0x100) as u8,
    ]
}

/// The offset that a key of four bytes stands for.
pub open spec fn key_offset(key: Seq<u8>) -> PointOffsetType {
    (key[0] * 0x100_0000 + key[1] * 0x1_0000 + key[2] * 0x100 + key[3]) as PointOffsetType
}

/// A key of four bytes is the key of the offset that it stands for.
pub proof fn lemma_key_of_offset(key: Seq<u8>)
    requires
        key.len() == 4,
    ensures
        be_key(key_offset(key)) == key,
{
    let b0 = key[0];
    let b1 = key[1];
    let b2 = key[2];
    let b3 = key[3];
    let id = key_offset(key);
    let sum = (b0 as u32) * 0x100_0000 + (b1 as u32) * 0x1_0000 + (b2 as u32) * 0x100 + (b3 as u32);
    assert({
        &&& id / 0x100_0000 == b0 as u32
        &&& (id / 0x1_0000) % 0x100 == b1 as u32
        &&& (id / 0x100) % 0x100 == b2 as u32
        &&& id % 0x100 == b3 as u32
    }) by (bit_vector)
        requires
            id == (b0 as u32) * 0x100_0000 + (b1 as u32) * 0x1_0000 + (b2 as u32) * 0x100 + (b3 as u32),
    ;
}

/// The key of an offset has four bytes and stands for that offset.
pub proof fn lemma_offset_of_key(id: PointOffsetType)
    ensures
        be_key(id).len() == 4,
        key_offset(be_key(id)) == id,
{
    assert({
        &&& id / 0x100_0000 < 0x100
        &&& id == (id / 0x100_0000) * 0x100_0000 + ((id / 0x1_0000) % 0x100) * 0x1_0000 + ((id
            / 0x100) % 0x100) * 0x100 + id % 0x100
    }) by (bit_vector);
}

/// The key of the row of `id`.
pub fn encode_key(id: PointOffsetType) -> (key: Vec<u8>)
    ensures
        key@ == be_key(id),
{
    let mut key: Vec<u8> = Vec::new();
    key.push((id / 0x100_0000) as u8);
    key.push(((id / 0x1_0000) % 0x100) as u8);
    key.push(((id / 0x100) % 0x100) as u8);
    key.push((id % 0x100) as u8);
    key
}

/// The offset that `key` stands for.
pub fn decode_key(key: &Vec<u8>) -> (id: PointOffsetType)
    requires
        key@.len() == 4,
    ensures
        id == key_offset(key@),
{
    let b0 = key[0] as u32;
    let b1 = key[1] as u32;
    let b2 = key[2] as u32;
    let b3 = key[3] as u32;
    b0 * 0x100_0000 + b1 * 0x1_0000 + b2 * 0x100 + b3
}

/// A row as it is read from the store: its key and its value.
pub type Row = (Vec<u8>, Vec<u8>);

/// The key of a row.
pub open spec fn row_key(row: Row) -> Seq<u8> {
    row.0@
}

/// The value of a row.
pub open spec fn row_value(row: Row) -> Seq<u8> {
    row.1@
}

/// All rows have a key of four bytes, for an offset that a memory can hold.
pub open spec fn keys_are_offsets(rows: Seq<Row>, limit: nat) -> bool {
    forall|i: int|
        0 <= i < rows.len() ==> (#[trigger] row_key(rows[i])).len() == 4 && key_offset(
            row_key(rows[i]),
        ) < limit
}

/// Whether a memory can hold the offset `id`: a bit vector has room for one
/// bit more than the offset.
pub fn offset_fits(id: PointOffsetType) -> (fits: bool)
    ensures
        fits == (id < max_bits()),
{
    (id as usize) < usize::MAX / 8
}

/// Whether every row has a key of four bytes, for an offset that a memory
/// can hold.
pub fn keys_fit(rows: &Vec<Row>) -> (fit: bool)
    ensures
        fit == keys_are_offsets(rows@, max_bits()),
{
    let mut i: usize = 0;
    while i < rows.len()
        invariant
            i <= rows.len(),
            keys_are_offsets(rows@.take(i as int), max_bits()),
        decreases rows.len() - i,
    {
        let row = &rows[i];
        assert(row_key(rows@[i as int]) == row.0@);
        if row.0.len() != 4 || !offset_fits(decode_key(&row.0)) {
            return false;
        }
        i += 1;
    }
    assert(rows@.take(i as int) =~= rows@);
    true
}

/// The index of the first row without a value; the number of rows where
/// every row has one.
pub open spec fn first_corrupt(rows: Seq<Row>) -> nat
    decreases rows.len(),
{
    if rows.len() == 0 {
        0
    } else {
        let before = first_corrupt(rows.drop_last());
        if before < rows.len() - 1 {
            before
        } else if row_value(rows.last()).len() == 0 {
            (rows.len() - 1) as nat
        } else {
            rows.len()
        }
    }
}

/// The memory `m` after the rows were read into it, one after the other: each
/// row stores the flags of the first byte of its value at the offset of its
/// key.
pub open spec fn loaded(m: Seq<Flags>, rows: Seq<Row>) -> Seq<Flags>
    decreases rows.len(),
{
    if rows.len() == 0 {
        m
    } else {
        inserted(
            loaded(m, rows.drop_last()),
            key_offset(row_key(rows.last())) as int,
            Flags::of_byte(row_value(rows.last())[0]),
        )
    }
}

/// The rows under which the memory `m` is persisted: one for each point that
/// holds a value, with the byte of its flags.
pub open spec fn persisted(m: Seq<Flags>) -> Rows {
    Map::new(
        |key: Seq<u8>| key.len() == 4 && !flags_at(m, key_offset(key) as int).is_empty(),
        |key: Seq<u8>| seq![m[key_offset(key) as int].byte()],
    )
}

/// Every row of `rows` is a row of `stored`.
pub open spec fn rows_within(rows: Seq<Row>, stored: Rows) -> bool {
    forall|i: int|
        0 <= i < rows.len() ==> stored.contains_key(#[trigger] row_key(rows[i])) && stored[row_key(
            rows[i],
        )] == row_value(rows[i])
}

/// `rows` lists the rows of `stored`, in any order: every row of `rows` is
/// one of `stored`, and none of `stored` is missing.
pub open spec fn lists(rows: Seq<Row>, stored: Rows) -> bool {
    &&& rows_within(rows, stored)
    &&& forall|key: Seq<u8>| #[trigger]
        stored.contains_key(key) ==> exists|i: int|
            0 <= i < rows.len() && #[trigger] row_key(rows[i]) == key
}

/// The flags that the rows give for the offset `id`: those of the last row
/// for it that holds any; none without such a row.
pub open spec fn stored_flags(rows: Seq<Row>, id: int) -> Flags
    decreases rows.len(),
{
    if rows.len() == 0 {
        Flags::none()
    } else if key_offset(row_key(rows.last())) == id && !Flags::of_byte(
        row_value(rows.last())[0],
    ).is_empty() {
        Flags::of_byte(row_value(rows.last())[0])
    } else {
        stored_flags(rows.drop_last(), id)
    }
}

/// What `first_corrupt` finds.
pub proof fn lemma_first_corrupt(rows: Seq<Row>)
    ensures
        first_corrupt(rows) <= rows.len(),
        forall|i: int| 0 <= i < first_corrupt(rows) ==> row_value(#[trigger] rows[i]).len() > 0,
        first_corrupt(rows) < rows.len() ==> row_value(rows[first_corrupt(rows) as int]).len()
            == 0,
    decreases rows.len(),
{
    if rows.len() > 0 {
        let shorter = rows.drop_last();
        lemma_first_corrupt(shorter);
        assert forall|i: int| 0 <= i < first_corrupt(rows) implies row_value(
            #[trigger] rows[i],
        ).len() > 0 by {
            if i < shorter.len() {
                assert(shorter[i] == rows[i]);
            }
        }
    }
}

/// `first_corrupt(rows)` is `n` where the first `n` rows have a value and
/// the next one, if there is one, has none.
pub proof fn lemma_first_corrupt_is(rows: Seq<Row>, n: nat)
    requires
        n <= rows.len(),
        forall|i: int| 0 <= i < n ==> row_value(#[trigger] rows[i]).len() > 0,
        n < rows.len() ==> row_value(rows[n as int]).len() == 0,
    ensures
        first_corrupt(rows) == n,
    decreases rows.len(),
{
    if rows.len() > 0 {
        let shorter = rows.drop_last();
        if n < rows.len() {
            lemma_first_corrupt_is(shorter, n);
        } else {
            lemma_first_corrupt_is(shorter, shorter.len());
        }
    }
}

/// Loading rows into a memory gives every offset the flags that the rows
/// give for it, and leaves the others as they were.
pub proof fn lemma_loaded_flags(m: Seq<Flags>, rows: Seq<Row>)
    requires
        trimmed(m),
    ensures
        trimmed(loaded(m, rows)),
        forall|id: int|
            flags_at(loaded(m, rows), id) == if stored_flags(rows, id).is_empty() {
                flags_at(m, id)
            } else {
                stored_flags(rows, id)
            },
    decreases rows.len(),
{
    if rows.len() > 0 {
        let shorter = rows.drop_last();
        let before = loaded(m, shorter);
        let offset = key_offset(row_key(rows.last())) as int;
        let flags = Flags::of_byte(row_value(rows.last())[0]);
        lemma_loaded_flags(m, shorter);
        lemma_inserted_trimmed(before, offset, flags);
        assert forall|id: int|
            flags_at(loaded(m, rows), id) == if stored_flags(rows, id).is_empty() {
                flags_at(m, id)
            } else {
                stored_flags(rows, id)
            } by {
            assert(flags_at(before, id) == if stored_flags(shorter, id).is_empty() {
                flags_at(m, id)
            } else {
                stored_flags(shorter, id)
            });
            assert(flags_at(inserted(before, offset, flags), id) == if id == offset
                && !flags.is_empty() {
                flags
            } else {
                flags_at(before, id)
            });
        }
    }
}

/// Loading the same rows a second time changes nothing.
pub proof fn lemma_load_twice(m: Seq<Flags>, rows: Seq<Row>)
    requires
        trimmed(m),
    ensures
        loaded(loaded(m, rows), rows) == loaded(m, rows),
{
    let once = loaded(m, rows);
    lemma_loaded_flags(m, rows);
    lemma_loaded_flags(once, rows);
    lemma_same_flags(loaded(once, rows), once);
}

/// Rows that were taken from the rows of a memory give its flags for every
/// offset that they name.
proof fn lemma_stored_flags_within(rows: Seq<Row>, m: Seq<Flags>, id: int)
    requires
        rows_within(rows, persisted(m)),
    ensures
        stored_flags(rows, id) == flags_at(m, id) || stored_flags(rows, id) == Flags::none(),
        (exists|i: int| 0 <= i < rows.len() && key_offset(#[trigger] row_key(rows[i])) == id)
            ==> stored_flags(rows, id) == flags_at(m, id),
    decreases rows.len(),
{
    if rows.len() > 0 {
        let shorter = rows.drop_last();
        lemma_stored_flags_within(shorter, m, id);
        let key = row_key(rows.last());
        lemma_byte_round_trip(flags_at(m, key_offset(key) as int));
        if key_offset(key) != id {
            if exists|i: int| 0 <= i < rows.len() && key_offset(#[trigger] row_key(rows[i])) == id {
                let i = choose|i: int|
                    0 <= i < rows.len() && key_offset(#[trigger] row_key(rows[i])) == id;
                assert(shorter[i] == rows[i]);
            }
        }
    }
}

/// An index that is filled from the rows under which a memory is persisted
/// holds that memory again: after a reload, every filter finds what it found
/// before.
pub proof fn lemma_reload_restores(m: Seq<Flags>, rows: Seq<Row>)
    requires
        trimmed(m),
        m.len() <= 0x1_0000_0000,
        lists(rows, persisted(m)),
    ensures
        first_corrupt(rows) == rows.len(),
        loaded(Seq::empty(), rows) == m,
{
    assert forall|i: int| 0 <= i < rows.len() implies row_value(#[trigger] rows[i]).len() > 0 by {
        assert(persisted(m).contains_key(row_key(rows[i])));
    }
    lemma_first_corrupt(rows);
    lemma_loaded_flags(Seq::empty(), rows);
    let reloaded = loaded(Seq::empty(), rows);
    assert forall|id: int| flags_at(reloaded, id) == flags_at(m, id) by {
        lemma_stored_flags_within(rows, m, id);
        if !flags_at(m, id).is_empty() {
            let key = be_key(id as PointOffsetType);
            lemma_offset_of_key(id as PointOffsetType);
            assert(persisted(m).contains_key(key));
        }
    }
    lemma_same_flags(reloaded, m);
}

/// An empty memory is persisted under no row.
pub proof fn lemma_nothing_persisted()
    ensures
        persisted(Seq::empty()) == Map::<Seq<u8>, Seq<u8>>::empty(),
{
    assert(persisted(Seq::empty()) =~= Map::<Seq<u8>, Seq<u8>>::empty());
}

/// Storing flags for a point changes the rows of the memory as a `put` of
/// their byte under the point's key does.
pub proof fn lemma_put_persists(m: Seq<Flags>, id: PointOffsetType, flags: Flags)
    requires
        !flags.is_empty(),
    ensures
        persisted(inserted(m, id as int, flags)) == persisted(m).insert(
            be_key(id),
            seq![flags.byte()],
        ),
{
    let after = inserted(m, id as int, flags);
    lemma_offset_of_key(id);
    assert forall|key: Seq<u8>|
        persisted(after).contains_key(key) == persisted(m).insert(
            be_key(id),
            seq![flags.byte()],
        ).contains_key(key) by {
        if key.len() == 4 {
            lemma_key_of_offset(key);
        }
    }
    assert forall|key: Seq<u8>| persisted(after).contains_key(key) implies persisted(after)[key]
        == persisted(m).insert(be_key(id), seq![flags.byte()])[key] by {
        lemma_key_of_offset(key);
    }
}

/// Removing a point changes the rows of the memory as deleting the row of
/// the point's key does.
pub proof fn lemma_remove_persists(m: Seq<Flags>, id: PointOffsetType)
    ensures
        persisted(removed(m, id as int)) == persisted(m).remove(be_key(id)),
{
    let after = removed(m, id as int);
    lemma_removed(m, id as int);
    lemma_offset_of_key(id);
    assert forall|key: Seq<u8>|
        persisted(after).contains_key(key) == persisted(m).remove(be_key(id)).contains_key(
            key,
        ) by {
        if key.len() == 4 {
            lemma_key_of_offset(key);
        }
    }
    assert forall|key: Seq<u8>| persisted(after).contains_key(key) implies persisted(after)[key]
        == persisted(m).remove(be_key(id))[key] by {
        lemma_key_of_offset(key);
    }
}

} // verus!
