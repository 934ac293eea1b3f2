use crate::bits::{lemma_count_true_bound, max_bits};
use crate::item::{BinaryItem, Flags};
use crate::json::json_bool;
use crate::memory::{
    count_flag, flag_column, flags_at, indexed_points, inserted, lemma_count_is_scan_len,
    lemma_matching_offsets, lemma_set_positions_step, matching_offsets, removed, set_positions,
    BinaryMemory,
};
use crate::record::{
    be_key, decode_key, encode_key, first_corrupt, keys_are_offsets, lemma_first_corrupt_is,
    lemma_put_persists, lemma_remove_persists, loaded, persisted, row_key, row_value, Row,
};
use crate::storage::{apply_optional, ColumnOp, ColumnOpView, Rows};
use crate::types::{
    CardinalityEstimation, FieldCondition, Match, MatchValue, OperationError,
    PayloadBlockCondition, PayloadIndexTelemetry, PayloadKeyType, PointOffsetType,
    PrimaryCondition, ValueVariants,
};
use vstd::prelude::*;

verus! {

/// The flags of a point that holds `values`.
pub open spec fn value_flags(values: Seq<bool>) -> Flags {
    Flags { has_true: values.contains(true), has_false: values.contains(false) }
}

/// The memory `m` after `values` were indexed for the point `id`: they
/// take the place of what was indexed for it; without values nothing
/// changes.
pub open spec fn indexed(m: Seq<Flags>, id: PointOffsetType, values: Seq<bool>) -> Seq<Flags> {
    if values.len() == 0 {
        m
    } else {
        inserted(m, id as int, value_flags(values))
    }
}

/// The write that persists `values` for the point `id`: none without
/// values.
pub open spec fn persisting_write(id: PointOffsetType, values: Seq<bool>) -> Option<ColumnOpView> {
    if values.len() == 0 {
        None
    } else {
        Some(ColumnOpView::Put { key: be_key(id), value: seq![value_flags(values).byte()] })
    }
}

/// The rows of a column after the write that persists `values` for `id`.
pub open spec fn written(rows: Rows, id: PointOffsetType, values: Seq<bool>) -> Rows {
    match persisting_write(id, values) {
        Some(write) => write.apply(rows),
        None => rows,
    }
}

/// Indexing the same values for a point a second time changes neither the
/// memory nor the rows of the store.
pub proof fn lemma_add_many_twice(
    m: Seq<Flags>,
    rows: Rows,
    id: PointOffsetType,
    values: Seq<bool>,
)
    ensures
        indexed(indexed(m, id, values), id, values) == indexed(m, id, values),
        written(written(rows, id, values), id, values) == written(rows, id, values),
{
}

/// The condition that the field `key` holds `value`.
pub open spec fn bool_condition(key: PayloadKeyType, value: bool) -> FieldCondition {
    FieldCondition {
        key,
        matcher: Some(Match::Value(MatchValue { value: ValueVariants::Bool(value) })),
    }
}

/// The block of the points of `m` that hold `value`, where there are more of
/// them than `threshold`.
pub open spec fn payload_block(
    m: Seq<Flags>,
    threshold: usize,
    key: PayloadKeyType,
    value: bool,
) -> Seq<PayloadBlockCondition> {
    if count_flag(m, value) > threshold {
        seq![
            PayloadBlockCondition {
                condition: bool_condition(key, value),
                cardinality: count_flag(m, value) as usize,
            },
        ]
    } else {
        Seq::empty()
    }
}

/// Whether `wanted` occurs in `values`.
fn holds(values: &Vec<bool>, wanted: bool) -> (found: bool)
    ensures
        found == values@.contains(wanted),
{
    let mut i: usize = 0;
    while i < values.len()
        invariant
            i <= values.len(),
            forall|j: int| 0 <= j < i ==> values[j] != wanted,
        decreases values.len() - i,
    {
        if values[i] == wanted {
            return true;
        }
        i += 1;
    }
    false
}

/// The index of a boolean payload field: which points hold `true`, which
/// hold `false`, kept in memory for filtering and counting.
///
/// The index does not write to the persistent store itself. Each change
/// hands back the write that persists it, and `load` takes the rows that
/// were read from the store.
pub struct BinaryIndex {
    memory: BinaryMemory,
    store_cf_name: String,
}

impl View for BinaryIndex {
    type V = Seq<Flags>;

    open spec fn view(&self) -> Seq<Flags> {
        self.memory()@
    }
}

impl BinaryIndex {
    /// The memory of the index.
    pub closed spec fn memory(&self) -> BinaryMemory {
        self.memory
    }

    /// The name of the column family that persists the index.
    pub closed spec fn column_family(&self) -> Seq<char> {
        self.store_cf_name@
    }

    /// The invariant of the index: that of its memory.
    pub open spec fn wf(&self) -> bool {
        self.memory().wf()
    }

    /// An empty index for the field `field_name`.
    pub fn new(field_name: &str) -> (index: BinaryIndex)
        ensures
            index.wf(),
            index@ == Seq::<Flags>::empty(),
            index.column_family() == field_name@ + "_binary"@,
    {
        let store_cf_name = Self::storage_cf_name(field_name);
        Self { memory: BinaryMemory::new(), store_cf_name }
    }

    /// The name of the column family that persists the index of `field`.
    pub fn storage_cf_name(field: &str) -> (name: String)
        ensures
            name@ == field@ + "_binary"@,
    {
        field.to_owned().concat("_binary")
    }

    /// The name of the column family that persists this index.
    pub fn store_cf_name(&self) -> (name: &str)
        ensures
            name@ == self.column_family(),
    {
        self.store_cf_name.as_str()
    }

    /// The figures that the index reports about itself. The count of values
    /// is twice the number of points that hold `false`.
    pub fn get_telemetry_data(&self) -> (telemetry: PayloadIndexTelemetry)
        requires
            self.wf(),
        ensures
            telemetry.field_name is None,
            telemetry.points_count == indexed_points(self@),
            telemetry.points_values_count == 2 * count_flag(self@, false),
            telemetry.histogram_bucket_size is None,
    {
        proof {
            lemma_count_true_bound(flag_column(self@, false));
        }
        PayloadIndexTelemetry {
            field_name: None,
            points_count: self.memory.indexed_count(),
            points_values_count: self.memory.count_falses() + self.memory.count_falses(),
            histogram_bucket_size: None,
        }
    }

    /// How many values are indexed for the point: one for each flag.
    pub fn values_count(&self, point_id: PointOffsetType) -> (count: usize)
        requires
            self.wf(),
        ensures
            count == flags_at(self@, point_id as int).count(),
    {
        self.memory.get(point_id).count()
    }

    /// Whether no value is indexed for the point.
    pub fn values_is_empty(&self, point_id: PointOffsetType) -> (empty: bool)
        requires
            self.wf(),
        ensures
            empty == flags_at(self@, point_id as int).is_empty(),
    {
        self.memory.get(point_id).is_empty()
    }

    /// The estimate of the number of indexed points: the larger of the
    /// number of points that hold `true` and of those that hold `false`. A
    /// point that holds both is counted on each side, so the estimate can be
    /// lower than the number of points that hold a value.
    pub fn indexed_points(&self) -> (count: usize)
        requires
            self.wf(),
        ensures
            count == indexed_points(self@),
    {
        self.memory.indexed_count()
    }

    /// The same estimate as `indexed_points`.
    pub fn count_indexed_points(&self) -> (count: usize)
        requires
            self.wf(),
        ensures
            count == indexed_points(self@),
    {
        self.memory.indexed_count()
    }

    /// Fills the memory from the rows of the index's column family. `None`
    /// says that the column family does not exist: there is nothing to load,
    /// and the answer is `false`.
    ///
    /// A row without a value is corrupt: loading stops there with an error,
    /// and the rows before it stay loaded.
    pub fn load(&mut self, stored: Option<Vec<Row>>) -> (result: Result<bool, OperationError>)
        requires
            old(self).wf(),
            stored matches Some(rows) ==> keys_are_offsets(rows@, max_bits()),
        ensures
            final(self).wf(),
            final(self).column_family() == old(self).column_family(),
            match stored {
                None => result == Ok::<bool, OperationError>(false) && final(self)@ == old(self)@,
                Some(rows) => {
                    &&& final(self)@ == loaded(old(self)@, rows@.take(first_corrupt(rows@) as int))
                    &&& if first_corrupt(rows@) == rows@.len() {
                        result == Ok::<bool, OperationError>(true)
                    } else {
                        result matches Err(error) && error.description_text()
                            == "Expected a value in binary index"@
                    }
                },
            },
    {
        let rows = match stored {
            None => {
                return Ok(false);
            },
            Some(rows) => rows,
        };
        let mut i: usize = 0;
        while i < rows.len()
            invariant
                stored == Some(rows),
                i <= rows.len(),
                self.wf(),
                self.column_family() == old(self).column_family(),
                keys_are_offsets(rows@, max_bits()),
                forall|j: int| 0 <= j < i ==> row_value(#[trigger] rows@[j]).len() > 0,
                self@ == loaded(old(self)@, rows@.take(i as int)),
            decreases rows.len() - i,
        {
            let row = &rows[i];
            assert(row_key(rows@[i as int]) == row.0@);
            let idx = decode_key(&row.0);
            if row.1.len() == 0 {
                proof {
                    lemma_first_corrupt_is(rows@, i as nat);
                }
                return Err(OperationError::service_error("Expected a value in binary index"));
            }
            let item = BinaryItem::from_bits_truncate(row.1[0]);
            self.memory.set_or_insert(idx, item);
            proof {
                assert(rows@.take(i + 1).drop_last() =~= rows@.take(i as int));
            }
            i += 1;
        }
        proof {
            lemma_first_corrupt_is(rows@, rows@.len());
        }
        Ok(true)
    }

    /// The offsets of the points that satisfy `condition`, in ascending
    /// order; `None` for a condition that is not a match against a boolean.
    pub fn filter(&self, condition: &FieldCondition) -> (offsets: Option<Vec<PointOffsetType>>)
        requires
            self.wf(),
        ensures
            match condition.bool_match() {
                Some(value) => {
                    &&& offsets matches Some(offsets)
                    &&& offsets@ == matching_offsets(self@, value)
                    &&& forall|k: int|
                        0 <= k < offsets@.len() ==> flags_at(
                            self@,
                            (#[trigger] offsets@[k]) as int,
                        ).has(value)
                    &&& forall|k: int, l: int|
                        0 <= k < l < offsets@.len() ==> offsets@[k] < offsets@[l]
                    &&& forall|id: PointOffsetType| #[trigger]
                        flags_at(self@, id as int).has(value) ==> offsets@.contains(id)
                },
                None => offsets is None,
            },
    {
        match &condition.matcher {
            Some(Match::Value(MatchValue { value: ValueVariants::Bool(value) })) => {
                let ghost column = flag_column(self@, *value);
                proof {
                    lemma_matching_offsets(self@, *value);
                }
                let mut iter = self.memory.iter();
                let mut offsets: Vec<PointOffsetType> = Vec::new();
                let mut point_id: usize = 0;
                loop
                    invariant_except_break
                        offsets@ == set_positions(
                            column.take(
                                if point_id <= column.len() {
                                    point_id as int
                                } else {
                                    column.len() as int
                                },
                            ),
                        ),
                    invariant
                        self.wf(),
                        column == flag_column(self@, *value),
                        iter.wf(),
                        iter.memory() == self.memory(),
                        point_id == iter.position(),
                    ensures
                        offsets@ == set_positions(column),
                    decreases iter.end() - iter.position(),
                {
                    match iter.next() {
                        Some(stored) => {
                            let hit = if *value {
                                stored.has_true()
                            } else {
                                stored.has_false()
                            };
                            proof {
                                if point_id < column.len() {
                                    lemma_set_positions_step(column, point_id as int);
                                }
                            }
                            if hit {
                                offsets.push(point_id as PointOffsetType);
                            }
                            point_id += 1;
                        },
                        None => {
                            proof {
                                assert(column.take(column.len() as int) =~= column);
                            }
                            break ;
                        },
                    }
                }
                Some(offsets)
            },
            _ => None,
        }
    }

    /// The number of points that satisfy `condition`, which the index knows
    /// exactly; `None` for a condition that is not a match against a boolean.
    pub fn estimate_cardinality(&self, condition: &FieldCondition) -> (estimation: Option<
        CardinalityEstimation,
    >)
        requires
            self.wf(),
        ensures
            match condition.bool_match() {
                Some(value) => {
                    &&& estimation matches Some(estimation)
                    &&& estimation.min == count_flag(self@, value)
                    &&& estimation.exp == count_flag(self@, value)
                    &&& estimation.max == count_flag(self@, value)
                    &&& estimation.exp == matching_offsets(self@, value).len()
                    &&& estimation.primary_clauses@ == seq![PrimaryCondition::Condition(*condition)]
                },
                None => estimation is None,
            },
    {
        match &condition.matcher {
            Some(Match::Value(MatchValue { value: ValueVariants::Bool(value) })) => {
                proof {
                    lemma_count_is_scan_len(self@, *value);
                }
                let count = if *value {
                    self.memory.count_trues()
                } else {
                    self.memory.count_falses()
                };
                let estimation = CardinalityEstimation::exact(count).with_primary_clause(
                    PrimaryCondition::Condition(condition.clone()),
                );
                assert(estimation.primary_clauses@ =~= seq![
                    PrimaryCondition::Condition(*condition),
                ]);
                Some(estimation)
            },
            _ => None,
        }
    }

    /// The blocks of the index that hold more than `threshold` points: that
    /// of `true`, then that of `false`.
    pub fn payload_blocks(&self, threshold: usize, key: PayloadKeyType) -> (blocks: Vec<
        PayloadBlockCondition,
    >)
        requires
            self.wf(),
        ensures
            blocks@ == payload_block(self@, threshold, key, true) + payload_block(
                self@,
                threshold,
                key,
                false,
            ),
    {
        let mut blocks: Vec<PayloadBlockCondition> = Vec::new();
        let trues = self.memory.count_trues();
        if trues > threshold {
            blocks.push(
                PayloadBlockCondition {
                    condition: FieldCondition::new_match(
                        key.clone(),
                        Match::Value(MatchValue { value: ValueVariants::Bool(true) }),
                    ),
                    cardinality: trues,
                },
            );
        }
        let falses = self.memory.count_falses();
        if falses > threshold {
            blocks.push(
                PayloadBlockCondition {
                    condition: FieldCondition::new_match(
                        key,
                        Match::Value(MatchValue { value: ValueVariants::Bool(false) }),
                    ),
                    cardinality: falses,
                },
            );
        }
        assert(blocks@ =~= payload_block(self@, threshold, key, true) + payload_block(
            self@,
            threshold,
            key,
            false,
        ));
        blocks
    }

    /// Indexes `values` for the point `id`, in place of what was indexed for
    /// it, and hands back the write that persists the change. Without values
    /// nothing changes and nothing is to be written.
    pub fn add_many(&mut self, id: PointOffsetType, values: Vec<bool>) -> (op: Option<ColumnOp>)
        requires
            old(self).wf(),
            id < max_bits(),
        ensures
            final(self).wf(),
            final(self).column_family() == old(self).column_family(),
            final(self)@ == indexed(old(self)@, id, values@),
            match op {
                Some(op) => persisting_write(id, values@) == Some(op@),
                None => persisting_write(id, values@) is None,
            },
            apply_optional(op, persisted(old(self)@)) == persisted(final(self)@),
    {
        if values.len() == 0 {
            return None;
        }
        proof {
            assert(values@.contains(values@[0]));
            lemma_put_persists(old(self)@, id, value_flags(values@));
        }
        let has_true = holds(&values, true);
        let has_false = holds(&values, false);
        let item = BinaryItem::from_bools(has_true, has_false);
        self.memory.set_or_insert(id, item);
        let record = BinaryItem::from_bools(has_true, has_false).bits();
        let mut value: Vec<u8> = Vec::new();
        value.push(record);
        Some(ColumnOp::Put { key: encode_key(id), value })
    }

    /// The boolean that a payload value is, which is what this index can
    /// hold of it; `None` for a value of another kind.
    pub fn get_value(&self, value: &serde_json::Value) -> (boolean: Option<bool>)
        ensures
            boolean == json_bool(*value),
    {
        value.as_bool()
    }

    /// Removes the point `id` from the index and hands back the write that
    /// deletes its row.
    pub fn remove_point(&mut self, id: PointOffsetType) -> (op: ColumnOp)
        requires
            old(self).wf(),
        ensures
            final(self).wf(),
            final(self).column_family() == old(self).column_family(),
            final(self)@ == removed(old(self)@, id as int),
            op@ == (ColumnOpView::Remove { key: be_key(id) }),
            op@.apply(persisted(old(self)@)) == persisted(final(self)@),
    {
        proof {
            lemma_remove_persists(old(self)@, id);
        }
        self.memory.remove(id);
        ColumnOp::Remove { key: encode_key(id) }
    }
}

} // verus!
