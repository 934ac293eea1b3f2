use crate::storage::{ColumnOp, ColumnOpView, Rows};
use vstd::prelude::*;
use vstd::slice::slice_to_vec;

verus! {

/// The keys of a list, as a set.
pub open spec fn key_set(keys: Seq<Vec<u8>>) -> Set<Seq<u8>> {
    Set::new(|key: Seq<u8>| exists|i: int| 0 <= i < keys.len() && #[trigger] keys[i]@ == key)
}

/// No key occurs twice in the list.
pub open spec fn distinct_keys(keys: Seq<Vec<u8>>) -> bool {
    forall|i: int, j: int| 0 <= i < j < keys.len() ==> #[trigger] keys[i]@ != #[trigger] keys[j]@
}

/// The rows of a column after the writes were made to it, first to last.
pub open spec fn apply_all(ops: Seq<ColumnOp>, rows: Rows) -> Rows
    decreases ops.len(),
{
    if ops.len() == 0 {
        rows
    } else {
        ops.last()@.apply(apply_all(ops.drop_last(), rows))
    }
}

/// The deletes of `keys`, one for each key and in their order.
pub open spec fn deletes_of(ops: Seq<ColumnOp>, keys: Seq<Vec<u8>>) -> bool {
    &&& ops.len() == keys.len()
    &&& forall|i: int|
        0 <= i < ops.len() ==> (#[trigger] ops[i])@ == (ColumnOpView::Remove { key: keys[i]@ })
}

/// Whether two byte strings are equal.
fn same_bytes(a: &[u8], b: &[u8]) -> (same: bool)
    ensures
        same == (a@ == b@),
{
    if a.len() != b.len() {
        return false;
    }
    let mut i: usize = 0;
    while i < a.len()
        invariant
            a.len() == b.len(),
            i <= a.len(),
            forall|j: int| 0 <= j < i ==> a[j] == b[j],
        decreases a.len() - i,
    {
        if a[i] != b[i] {
            return false;
        }
        i += 1;
    }
    assert(a@ =~= b@);
    true
}

/// The position of `key` in `keys`.
fn position(keys: &Vec<Vec<u8>>, key: &[u8]) -> (found: Option<usize>)
    ensures
        match found {
            Some(i) => i < keys.len() && keys[i as int]@ == key@,
            None => !key_set(keys@).contains(key@),
        },
{
    let mut i: usize = 0;
    while i < keys.len()
        invariant
            i <= keys.len(),
            forall|j: int| 0 <= j < i ==> keys[j]@ != key@,
        decreases keys.len() - i,
    {
        if same_bytes(keys[i].as_slice(), key) {
            return Some(i);
        }
        i += 1;
    }
    None
}

/// The deletes that were scheduled when a flush was asked for. They are to
/// be made to the store beneath, in any order and all of them; after that
/// the store itself is flushed.
#[derive(Debug)]
pub struct Flusher {
    ids_to_delete: Vec<Vec<u8>>,
}

impl View for Flusher {
    type V = Set<Seq<u8>>;

    open spec fn view(&self) -> Set<Seq<u8>> {
        key_set(self.keys())
    }
}

impl Flusher {
    /// The keys to delete, in the order in which `into_ops` hands them out.
    pub closed spec fn keys(&self) -> Seq<Vec<u8>> {
        self.ids_to_delete@
    }

    /// The deletes to make, one for each key.
    pub fn into_ops(self) -> (ops: Vec<ColumnOp>)
        ensures
            deletes_of(ops@, self.keys()),
            forall|rows: Rows| #[trigger] apply_all(ops@, rows) == rows.remove_keys(self@),
    {
        let mut ops: Vec<ColumnOp> = Vec::new();
        let mut i: usize = 0;
        while i < self.ids_to_delete.len()
            invariant
                i <= self.ids_to_delete.len(),
                deletes_of(ops@, self.keys().take(i as int)),
            decreases self.ids_to_delete.len() - i,
        {
            let key = slice_to_vec(self.ids_to_delete[i].as_slice());
            ops.push(ColumnOp::Remove { key });
            i += 1;
        }
        proof {
            assert forall|rows: Rows| #[trigger]
                apply_all(ops@, rows) == rows.remove_keys(self@) by {
                lemma_deletes_remove_keys(ops@, self.keys(), rows);
            }
        }
        ops
    }
}

/// The keys of a list with one key more are those of the list and that key.
proof fn lemma_key_set_push(keys: Seq<Vec<u8>>, key: Vec<u8>)
    ensures
        key_set(keys.push(key)) == key_set(keys).insert(key@),
{
    let longer = keys.push(key);
    assert forall|k: Seq<u8>| key_set(longer).contains(k) == key_set(keys).insert(key@).contains(
        k,
    ) by {
        if key_set(longer).contains(k) {
            let j = choose|j: int| 0 <= j < longer.len() && #[trigger] longer[j]@ == k;
            if j < keys.len() {
                assert(keys[j]@ == k);
            }
        }
        if key_set(keys).contains(k) {
            let j = choose|j: int| 0 <= j < keys.len() && #[trigger] keys[j]@ == k;
            assert(longer[j]@ == k);
        }
        if k == key@ {
            assert(longer[keys.len() as int]@ == k);
        }
    }
    assert(key_set(longer) =~= key_set(keys).insert(key@));
}

/// The keys of a list without the key at `i`, where no key occurs twice, are
/// those of the list but that key.
proof fn lemma_key_set_remove(keys: Seq<Vec<u8>>, i: int)
    requires
        distinct_keys(keys),
        0 <= i < keys.len(),
    ensures
        distinct_keys(keys.remove(i)),
        key_set(keys.remove(i)) == key_set(keys).remove(keys[i]@),
{
    let fewer = keys.remove(i);
    assert forall|k: Seq<u8>| key_set(fewer).contains(k) == key_set(keys).remove(
        keys[i]@,
    ).contains(k) by {
        if key_set(fewer).contains(k) {
            let j = choose|j: int| 0 <= j < fewer.len() && #[trigger] fewer[j]@ == k;
            if j < i {
                assert(keys[j]@ == k);
            } else {
                assert(keys[j + 1]@ == k);
            }
        }
        if key_set(keys).remove(keys[i]@).contains(k) {
            let j = choose|j: int| 0 <= j < keys.len() && #[trigger] keys[j]@ == k;
            if j < i {
                assert(fewer[j]@ == k);
            } else {
                assert(fewer[j - 1]@ == k);
            }
        }
    }
    assert(key_set(fewer) =~= key_set(keys).remove(keys[i]@));
}

/// Making the deletes of `keys` removes exactly the rows of those keys.
pub proof fn lemma_deletes_remove_keys(ops: Seq<ColumnOp>, keys: Seq<Vec<u8>>, rows: Rows)
    requires
        deletes_of(ops, keys),
    ensures
        apply_all(ops, rows) == rows.remove_keys(key_set(keys)),
    decreases ops.len(),
{
    if ops.len() == 0 {
        assert(rows.remove_keys(key_set(keys)) =~= rows);
    } else {
        let shorter = keys.drop_last();
        lemma_deletes_remove_keys(ops.drop_last(), shorter, rows);
        lemma_key_set_push(shorter, keys.last());
        assert(shorter.push(keys.last()) =~= keys);
        assert(apply_all(ops, rows) =~= rows.remove_keys(key_set(keys)));
    }
}

/// Keeps the deletes of a column back until a flush is asked for.
///
/// A layer that copies on write must not lose a row of the store beneath
/// before what replaces it is durable. So `remove` only schedules the
/// delete, a later `put` of the key takes it off the schedule again, and
/// `flusher` hands the scheduled deletes out. Reads go to the store beneath
/// and still see a row whose delete is only scheduled.
#[derive(Debug)]
pub struct ScheduledDelete {
    deleted_pending_persistence: Vec<Vec<u8>>,
}

impl View for ScheduledDelete {
    type V = Set<Seq<u8>>;

    /// The keys whose delete is scheduled.
    open spec fn view(&self) -> Set<Seq<u8>> {
        key_set(self.pending())
    }
}

impl ScheduledDelete {
    /// The scheduled keys, as they are kept.
    pub closed spec fn pending(&self) -> Seq<Vec<u8>> {
        self.deleted_pending_persistence@
    }

    /// The invariant of the schedule: no key is kept twice.
    pub open spec fn wf(&self) -> bool {
        distinct_keys(self.pending())
    }

    /// The decorated column that this schedule makes of a store that holds
    /// `rows`.
    pub open spec fn over(&self, rows: Rows) -> DecoratedColumn {
        DecoratedColumn { rows, scheduled: self@ }
    }

    /// A decorator with nothing scheduled.
    pub fn new() -> (decorator: Self)
        ensures
            decorator.wf(),
            decorator@ == Set::<Seq<u8>>::empty(),
    {
        Self { deleted_pending_persistence: Vec::new() }
    }

    /// Takes `key` off the schedule, as the write supersedes the delete, and
    /// hands back the write for the store beneath.
    pub fn put(&mut self, key: &[u8], value: &[u8]) -> (op: ColumnOp)
        requires
            old(self).wf(),
        ensures
            final(self).wf(),
            final(self)@ == old(self)@.remove(key@),
            op@ == (ColumnOpView::Put { key: key@, value: value@ }),
            forall|rows: Rows|
                final(self).over(#[trigger] op@.apply(rows)) == old(self).over(rows).put(
                    key@,
                    value@,
                ),
    {
        match position(&self.deleted_pending_persistence, key) {
            Some(i) => {
                proof {
                    lemma_key_set_remove(self.pending(), i as int);
                }
                self.deleted_pending_persistence.remove(i);
            },
            None => {
                assert(self@ =~= old(self)@.remove(key@));
            },
        }
        ColumnOp::Put { key: slice_to_vec(key), value: slice_to_vec(value) }
    }

    /// Schedules the delete of `key`. Nothing is written to the store
    /// beneath.
    pub fn remove(&mut self, key: &[u8])
        requires
            old(self).wf(),
        ensures
            final(self).wf(),
            final(self)@ == old(self)@.insert(key@),
            forall|rows: Rows| #[trigger] final(self).over(rows) == old(self).over(rows).remove(key@),
    {
        match position(&self.deleted_pending_persistence, key) {
            Some(_) => {
                assert(self@ =~= old(self)@.insert(key@));
            },
            None => {
                let key = slice_to_vec(key);
                proof {
                    lemma_key_set_push(self.pending(), key);
                }
                self.deleted_pending_persistence.push(key);
            },
        }
    }

    /// Takes every scheduled delete off the schedule and hands them out.
    /// Nothing is written yet: the deletes are made when the flusher is run.
    pub fn flusher(&mut self) -> (flusher: Flusher)
        requires
            old(self).wf(),
        ensures
            final(self).wf(),
            final(self)@ == Set::<Seq<u8>>::empty(),
            flusher@ == old(self)@,
            flusher.keys() == old(self).pending(),
            forall|rows: Rows|
                final(self).over(#[trigger] rows.remove_keys(flusher@)) == old(self).over(
                    rows,
                ).flush(),
    {
        let mut ids_to_delete: Vec<Vec<u8>> = Vec::new();
        core::mem::swap(&mut self.deleted_pending_persistence, &mut ids_to_delete);
        Flusher { ids_to_delete }
    }
}

/// A decorated column as its users see it: the rows of the store beneath,
/// and the keys whose delete is scheduled.
pub struct DecoratedColumn {
    pub rows: Rows,
    pub scheduled: Set<Seq<u8>>,
}

impl DecoratedColumn {
    /// The column after `put`: the write goes through and supersedes a
    /// scheduled delete of its key.
    pub open spec fn put(self, key: Seq<u8>, value: Seq<u8>) -> DecoratedColumn {
        DecoratedColumn {
            rows: (ColumnOpView::Put { key, value }).apply(self.rows),
            scheduled: self.scheduled.remove(key),
        }
    }

    /// The column after `remove`: the delete is scheduled, the rows stay.
    pub open spec fn remove(self, key: Seq<u8>) -> DecoratedColumn {
        DecoratedColumn { rows: self.rows, scheduled: self.scheduled.insert(key) }
    }

    /// What a read of `key` returns: the row of the store beneath.
    pub open spec fn get(self, key: Seq<u8>) -> Option<Seq<u8>> {
        if self.rows.contains_key(key) {
            Some(self.rows[key])
        } else {
            None
        }
    }

    /// The column after `flusher` was called and what it handed out was
    /// run: every scheduled delete is made.
    pub open spec fn flush(self) -> DecoratedColumn {
        DecoratedColumn {
            rows: self.rows.remove_keys(self.scheduled),
            scheduled: Set::empty(),
        }
    }
}

/// A removed key is still read with its value until the column is flushed,
/// and is absent afterwards.
pub proof fn lemma_delete_waits_for_flush(column: DecoratedColumn, key: Seq<u8>)
    ensures
        column.remove(key).get(key) == column.get(key),
        column.remove(key).flush().get(key) is None,
{
}

/// A write after a delete of the same key wins: the flush keeps the row.
pub proof fn lemma_put_supersedes_delete(column: DecoratedColumn, key: Seq<u8>, value: Seq<u8>)
    ensures
        column.remove(key).put(key, value).flush().get(key) == Some(value),
{
}

} // verus!
