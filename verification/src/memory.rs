use crate::bits::{bit_contents, count_true, max_bits, Bits};
use crate::item::{BinaryItem, Flags};
use crate::types::PointOffsetType;
use vstd::prelude::*;

verus! {

/// The flags at position `i` of `m`, or no flag at all past its end.
pub open spec fn flags_at(m: Seq<Flags>, i: int) -> Flags {
    if 0 <= i < m.len() {
        m[i]
    } else {
        Flags::none()
    }
}

/// `m` does not end in a position without flags.
pub open spec fn trimmed(m: Seq<Flags>) -> bool {
    m.len() == 0 || !m.last().is_empty()
}

/// One past the last position of `m` that holds a flag; 0 where none does.
pub open spec fn populated_len(m: Seq<Flags>) -> nat
    decreases m.len(),
{
    if m.len() == 0 {
        0
    } else if !m.last().is_empty() {
        m.len()
    } else {
        populated_len(m.drop_last())
    }
}

/// `m` without the empty positions at its end.
pub open spec fn trim(m: Seq<Flags>) -> Seq<Flags> {
    m.subrange(0, populated_len(m) as int)
}

/// `m` after `flags` were stored at `id`: nothing changes for empty flags;
/// otherwise `m` grows, with empty positions, as far as `id` requires.
pub open spec fn inserted(m: Seq<Flags>, id: int, flags: Flags) -> Seq<Flags> {
    if flags.is_empty() {
        m
    } else {
        Seq::new(
            if id < m.len() {
                m.len()
            } else {
                (id + 1) as nat
            },
            |i: int|
                if i == id {
                    flags
                } else {
                    flags_at(m, i)
                },
        )
    }
}

/// `m` with the flags at `id` cleared, where `id` lies inside `m`.
pub open spec fn cleared(m: Seq<Flags>, id: int) -> Seq<Flags> {
    if 0 <= id < m.len() {
        m.update(id, Flags::none())
    } else {
        m
    }
}

/// `m` after the point `id` was removed.
pub open spec fn removed(m: Seq<Flags>, id: int) -> Seq<Flags> {
    trim(cleared(m, id))
}

/// For each position of `m`, whether it answers a match against `value`.
pub open spec fn flag_column(m: Seq<Flags>, value: bool) -> Seq<bool> {
    Seq::new(m.len(), |i: int| m[i].has(value))
}

/// How many positions of `m` answer a match against `value`.
pub open spec fn count_flag(m: Seq<Flags>, value: bool) -> nat {
    count_true(flag_column(m, value))
}

/// The positions of `column` that are set, in ascending order.
pub open spec fn set_positions(column: Seq<bool>) -> Seq<PointOffsetType>
    decreases column.len(),
{
    if column.len() == 0 {
        Seq::empty()
    } else if column.last() {
        set_positions(column.drop_last()).push((column.len() - 1) as PointOffsetType)
    } else {
        set_positions(column.drop_last())
    }
}

/// The offsets of the points of `m` that answer a match against `value`, in
/// ascending order.
pub open spec fn matching_offsets(m: Seq<Flags>, value: bool) -> Seq<PointOffsetType> {
    set_positions(flag_column(m, value))
}

/// `set_positions`, one position further.
pub proof fn lemma_set_positions_step(column: Seq<bool>, n: int)
    requires
        0 <= n < column.len(),
    ensures
        set_positions(column.take(n + 1)) == if column[n] {
            set_positions(column.take(n)).push(n as PointOffsetType)
        } else {
            set_positions(column.take(n))
        },
{
    assert(column.take(n + 1).drop_last() =~= column.take(n));
}

/// `set_positions` lists exactly the positions that are set, each once and
/// in ascending order.
pub proof fn lemma_set_positions(column: Seq<bool>)
    requires
        column.len() <= max_points(),
    ensures
        set_positions(column).len() == count_true(column),
        forall|k: int|
            0 <= k < set_positions(column).len() ==> (#[trigger] set_positions(column)[k])
                < column.len() && column[set_positions(column)[k] as int],
        forall|k: int, l: int|
            0 <= k < l < set_positions(column).len() ==> set_positions(column)[k]
                < set_positions(column)[l],
        forall|i: int|
            0 <= i < column.len() && #[trigger] column[i] ==> set_positions(column).contains(
                i as PointOffsetType,
            ),
    decreases column.len(),
{
    if column.len() > 0 {
        let shorter = column.drop_last();
        let before = set_positions(shorter);
        let all = set_positions(column);
        lemma_set_positions(shorter);
        let last = (column.len() - 1) as PointOffsetType;
        assert forall|i: int| 0 <= i < column.len() && #[trigger] column[i] implies all.contains(
            i as PointOffsetType,
        ) by {
            if i < shorter.len() {
                assert(shorter[i]);
                let k = choose|k: int| 0 <= k < before.len() && before[k] == i as PointOffsetType;
                assert(all[k] == i as PointOffsetType);
            } else {
                assert(all[all.len() - 1] == last);
            }
        }
    }
}

/// The most positions a memory can have: one for each offset.
pub open spec fn max_points() -> nat {
    0x1_0000_0000
}

/// `populated_len` is the one length `n` whose last position holds a flag
/// and past which no position does.
pub proof fn lemma_populated_len(m: Seq<Flags>, n: nat)
    requires
        n <= m.len(),
        n == 0 || !m[n - 1].is_empty(),
        forall|j: int| n <= j < m.len() ==> (#[trigger] m[j]).is_empty(),
    ensures
        populated_len(m) == n,
    decreases m.len(),
{
    if m.len() > n {
        lemma_populated_len(m.drop_last(), n);
    }
}

/// What `trim` keeps and what it drops.
pub proof fn lemma_trim(m: Seq<Flags>)
    ensures
        populated_len(m) <= m.len(),
        trimmed(trim(m)),
        trimmed(m) ==> trim(m) == m,
        forall|j: int| populated_len(m) <= j < m.len() ==> (#[trigger] m[j]).is_empty(),
    decreases m.len(),
{
    if m.len() > 0 && m.last().is_empty() {
        let shorter = m.drop_last();
        lemma_trim(shorter);
        assert forall|j: int| populated_len(m) <= j < m.len() implies (#[trigger] m[j]).is_empty() by {
            if j < shorter.len() {
                assert(shorter[j] == m[j]);
            }
        }
    }
}

/// Storing flags keeps a memory cut to its last populated position.
pub proof fn lemma_inserted_trimmed(m: Seq<Flags>, id: int, flags: Flags)
    requires
        trimmed(m),
        0 <= id,
    ensures
        trimmed(inserted(m, id, flags)),
        forall|i: int|
            flags_at(inserted(m, id, flags), i) == if i == id && !flags.is_empty() {
                flags
            } else {
                flags_at(m, i)
            },
{
}

/// After a point is removed, the memory ends one past the highest position
/// that still holds a flag, or is empty where none does; every position
/// that is kept holds what it held, but for the one that was removed.
pub proof fn lemma_removed(m: Seq<Flags>, id: int)
    ensures
        trimmed(removed(m, id)),
        removed(m, id).len() == populated_len(cleared(m, id)),
        removed(m, id).len() <= m.len(),
        forall|i: int|
            flags_at(removed(m, id), i) == if i == id {
                Flags::none()
            } else {
                flags_at(m, i)
            },
{
    lemma_trim(cleared(m, id));
    assert forall|i: int|
        flags_at(removed(m, id), i) == if i == id {
            Flags::none()
        } else {
            flags_at(m, i)
        } by {
        if 0 <= i < cleared(m, id).len() && i >= removed(m, id).len() {
            assert(cleared(m, id)[i].is_empty());
        }
    }
}

/// Two memories that are cut to their last populated position and hold the
/// same flags for every offset are one memory.
pub proof fn lemma_same_flags(a: Seq<Flags>, b: Seq<Flags>)
    requires
        trimmed(a),
        trimmed(b),
        forall|i: int| flags_at(a, i) == flags_at(b, i),
    ensures
        a == b,
{
    if a.len() > b.len() {
        assert(flags_at(a, a.len() - 1) == flags_at(b, a.len() - 1));
    }
    if b.len() > a.len() {
        assert(flags_at(a, b.len() - 1) == flags_at(b, b.len() - 1));
    }
    assert forall|i: int| 0 <= i < a.len() implies a[i] == b[i] by {
        assert(flags_at(a, i) == flags_at(b, i));
    }
}

/// The exact count of the points that answer a match is the number of
/// offsets that a scan of the whole memory finds.
pub proof fn lemma_count_is_scan_len(m: Seq<Flags>, value: bool)
    requires
        m.len() <= max_points(),
    ensures
        count_flag(m, value) == matching_offsets(m, value).len(),
{
    lemma_set_positions(flag_column(m, value));
}

/// What a scan for `value` finds: the offsets of exactly the points that
/// hold it, in ascending order.
pub proof fn lemma_matching_offsets(m: Seq<Flags>, value: bool)
    requires
        m.len() <= max_points(),
    ensures
        forall|k: int|
            0 <= k < matching_offsets(m, value).len() ==> flags_at(
                m,
                (#[trigger] matching_offsets(m, value)[k]) as int,
            ).has(value),
        forall|k: int, l: int|
            0 <= k < l < matching_offsets(m, value).len() ==> matching_offsets(m, value)[k]
                < matching_offsets(m, value)[l],
        forall|id: PointOffsetType| #[trigger]
            flags_at(m, id as int).has(value) ==> matching_offsets(m, value).contains(id),
{
    let column = flag_column(m, value);
    lemma_set_positions(column);
    assert forall|id: PointOffsetType| #[trigger]
        flags_at(m, id as int).has(value) implies matching_offsets(m, value).contains(id) by {
        assert(column[id as int]);
    }
}

/// The in-memory image of a boolean field: for every point offset, the flags
/// of the values that the point holds. Two bit vectors of one length hold it,
/// one for `true` and one for `false`.
pub struct BinaryMemory {
    trues: Bits,
    falses: Bits,
}

impl View for BinaryMemory {
    type V = Seq<Flags>;

    open spec fn view(&self) -> Seq<Flags> {
        Seq::new(
            self.trues().len(),
            |i: int| Flags { has_true: self.trues()[i], has_false: self.falses()[i] },
        )
    }
}

impl BinaryMemory {
    /// The bits that say which points hold `true`.
    pub closed spec fn trues(&self) -> Seq<bool> {
        bit_contents(self.trues)
    }

    /// The bits that say which points hold `false`.
    pub closed spec fn falses(&self) -> Seq<bool> {
        bit_contents(self.falses)
    }

    /// Both bit vectors have one length, which is no more than a bit vector
    /// can hold and than there are offsets.
    pub open spec fn aligned(&self) -> bool {
        &&& self.trues().len() == self.falses().len()
        &&& self.trues().len() <= max_points()
        &&& self.trues().len() <= max_bits()
    }

    /// The invariant of the memory: the vectors are aligned and end at the
    /// last point that holds a value.
    pub open spec fn wf(&self) -> bool {
        &&& self.aligned()
        &&& trimmed(self@)
    }

    /// An empty memory.
    pub fn new() -> (memory: Self)
        ensures
            memory.wf(),
            memory@ == Seq::<Flags>::empty(),
    {
        let memory = Self { trues: Bits::new(), falses: Bits::new() };
        memory
    }

    /// The flags stored for `id`; none for an offset past the end.
    pub fn get(&self, id: PointOffsetType) -> (item: BinaryItem)
        requires
            self.aligned(),
        ensures
            item@ == flags_at(self@, id as int),
    {
        if (id as usize) >= self.trues.len() {
            return BinaryItem::empty();
        }
        let has_true = self.trues.get(id as usize);
        let has_false = self.falses.get(id as usize);
        BinaryItem::from_bools(has_true, has_false)
    }

    /// Stores `item` for `id`, in place of what was stored there. Empty flags
    /// are not stored: the call then changes nothing.
    pub fn set_or_insert(&mut self, id: PointOffsetType, item: BinaryItem)
        requires
            old(self).wf(),
            id < max_bits(),
        ensures
            final(self).wf(),
            final(self)@ == inserted(old(self)@, id as int, item@),
    {
        if item.is_empty() {
            return ;
        }
        if (id as usize) >= self.trues.len() {
            self.trues.resize(id as usize + 1, false);
            self.falses.resize(id as usize + 1, false);
        }
        self.trues.set(id as usize, item.has_true());
        self.falses.set(id as usize, item.has_false());
    }

    /// Removes the point `id`, then cuts the memory down to the last point
    /// that still holds a value. An offset past the end changes nothing.
    pub fn remove(&mut self, id: PointOffsetType)
        requires
            old(self).wf(),
        ensures
            final(self).wf(),
            final(self)@ == removed(old(self)@, id as int),
    {
        if (id as usize) < self.trues.len() {
            self.trues.set(id as usize, false);
            self.falses.set(id as usize, false);
        }
        assert(self@ =~= cleared(old(self)@, id as int));
        self.shrink();
    }

    /// Cuts both vectors down to the last position that holds a flag.
    fn shrink(&mut self)
        requires
            old(self).aligned(),
        ensures
            final(self).wf(),
            final(self)@ == trim(old(self)@),
    {
        let last_true = self.trues.last_one();
        let last_false = self.falses.last_one();
        let last_populated_index = match (last_true, last_false) {
            (Some(t), Some(f)) => Some(
                if t < f {
                    f
                } else {
                    t
                },
            ),
            (Some(t), None) => Some(t),
            (None, other) => other,
        };
        match last_populated_index {
            Some(index) => {
                proof {
                    lemma_populated_len(self@, (index + 1) as nat);
                }
                if index < self.trues.len() - 1 {
                    self.trues.truncate(index + 1);
                    self.falses.truncate(index + 1);
                }
            },
            None => {
                proof {
                    lemma_populated_len(self@, 0);
                }
                self.trues.clear();
                self.falses.clear();
            },
        }
    }

    /// The number of positions of the memory.
    pub fn len(&self) -> (len: usize)
        requires
            self.aligned(),
        ensures
            len == self@.len(),
    {
        self.trues.len()
    }

    /// The number of points that hold a `true` value.
    pub fn count_trues(&self) -> (count: usize)
        requires
            self.aligned(),
        ensures
            count == count_flag(self@, true),
    {
        assert(self.trues() =~= flag_column(self@, true));
        self.trues.count_ones()
    }

    /// The number of points that hold a `false` value.
    pub fn count_falses(&self) -> (count: usize)
        requires
            self.aligned(),
        ensures
            count == count_flag(self@, false),
    {
        assert(self.falses() =~= flag_column(self@, false));
        self.falses.count_ones()
    }

    /// The larger of the two counts. A point that holds both values is
    /// counted once on each side, so this is an estimate of the number of
    /// indexed points, not the number itself.
    pub fn indexed_count(&self) -> (count: usize)
        requires
            self.aligned(),
        ensures
            count == indexed_points(self@),
    {
        let trues = self.count_trues();
        let falses = self.count_falses();
        if trues < falses {
            falses
        } else {
            trues
        }
    }

    /// An iterator over the flags of the positions 0 to the last populated
    /// one. An empty memory still yields one item, without flags.
    pub fn iter(&self) -> (iter: BinaryMemoryIterator<'_>)
        requires
            self.wf(),
        ensures
            iter.wf(),
            iter.memory() == *self,
            iter.position() == 0,
    {
        let last_false = self.falses.last_one();
        let last_true = self.trues.last_one();
        let last = match (last_false, last_true) {
            (Some(f), Some(t)) => Some(
                if f < t {
                    t
                } else {
                    f
                },
            ),
            (Some(f), None) => Some(f),
            (None, other) => other,
        };
        let end = match last {
            Some(index) => index + 1,
            None => 1,
        };
        BinaryMemoryIterator { memory: self, ptr: 0, end }
    }
}

/// The estimate of the number of indexed points in `m`: the larger of the
/// number of points that hold `true` and of those that hold `false`.
pub open spec fn indexed_points(m: Seq<Flags>) -> nat {
    if count_flag(m, true) < count_flag(m, false) {
        count_flag(m, false)
    } else {
        count_flag(m, true)
    }
}

/// A pass over a memory, position by position.
pub struct BinaryMemoryIterator<'a> {
    memory: &'a BinaryMemory,
    ptr: usize,
    end: usize,
}

impl<'a> BinaryMemoryIterator<'a> {
    /// The memory that is passed over.
    pub closed spec fn memory(&self) -> BinaryMemory {
        *self.memory
    }

    /// The position of the next item.
    pub closed spec fn position(&self) -> nat {
        self.ptr as nat
    }

    /// The position at which the pass ends: the memory's length, and 1 for an
    /// empty memory.
    pub closed spec fn end(&self) -> nat {
        self.end as nat
    }

    /// The invariant of the pass: it is over a valid memory and has not
    /// gone past its end.
    pub open spec fn wf(&self) -> bool {
        &&& self.memory().wf()
        &&& self.position() <= self.end()
        &&& self.end() == if self.memory()@.len() == 0 {
            1
        } else {
            self.memory()@.len()
        }
    }

    /// The flags at the current position, and a step forward; `None` at the
    /// end.
    pub fn next(&mut self) -> (item: Option<BinaryItem>)
        requires
            old(self).wf(),
        ensures
            final(self).wf(),
            final(self).memory() == old(self).memory(),
            match item {
                Some(item) => {
                    &&& old(self).position() < old(self).end()
                    &&& final(self).position() == old(self).position() + 1
                    &&& item@ == flags_at(old(self).memory()@, old(self).position() as int)
                },
                None => {
                    &&& old(self).position() == old(self).end()
                    &&& final(self).position() == old(self).position()
                },
            },
    {
        if self.ptr == self.end {
            return None;
        }
        let item = self.memory.get(self.ptr as PointOffsetType);
        self.ptr += 1;
        Some(item)
    }
}

} // verus!
