use vstd::prelude::*;

verus! {

/// Position of a point inside its segment. Offsets are dense, so they index
/// the in-memory structures directly.
pub type PointOffsetType = u32;

/// Identifier of a point, as its owner chose it.
pub type PointIdType = u64;

/// Name of a payload field.
pub type PayloadKeyType = String;

/// A single value to match a field against.
#[derive(Debug, PartialEq, Eq)]
pub enum ValueVariants {
    Keyword(String),
    Integer(i64),
    Bool(bool),
}

impl Clone for ValueVariants {
    fn clone(&self) -> (copy: Self)
        ensures
            copy == *self,
    {
        match self {
            ValueVariants::Keyword(keyword) => ValueVariants::Keyword(keyword.clone()),
            ValueVariants::Integer(integer) => ValueVariants::Integer(*integer),
            ValueVariants::Bool(value) => ValueVariants::Bool(*value),
        }
    }
}

/// Matches the points whose field holds `value`.
#[derive(Debug, PartialEq, Eq)]
pub struct MatchValue {
    pub value: ValueVariants,
}

impl Clone for MatchValue {
    fn clone(&self) -> (copy: Self)
        ensures
            copy == *self,
    {
        MatchValue { value: self.value.clone() }
    }
}

/// The values of a match against any of several.
#[derive(Debug, PartialEq, Eq)]
pub enum AnyVariants {
    Keywords(Vec<String>),
    Integers(Vec<i64>),
}

/// The mathematical content of an [`AnyVariants`].
pub enum AnyVariantsView {
    Keywords(Seq<Seq<char>>),
    Integers(Seq<i64>),
}

/// The texts of a list of keywords, in order.
pub open spec fn keyword_views(keywords: Seq<String>) -> Seq<Seq<char>> {
    keywords.map_values(|keyword: String| keyword@)
}

impl View for AnyVariants {
    type V = AnyVariantsView;

    open spec fn view(&self) -> AnyVariantsView {
        match self {
            AnyVariants::Keywords(keywords) => AnyVariantsView::Keywords(keyword_views(keywords@)),
            AnyVariants::Integers(integers) => AnyVariantsView::Integers(integers@),
        }
    }
}

impl Clone for AnyVariants {
    fn clone(&self) -> (copy: Self)
        ensures
            copy@ == self@,
    {
        match self {
            AnyVariants::Keywords(keywords) => AnyVariants::Keywords(keywords.clone()),
            AnyVariants::Integers(integers) => AnyVariants::Integers(integers.clone()),
        }
    }
}

/// Matches the points whose field holds one of the values of `any`.
#[derive(Debug, PartialEq, Eq)]
pub struct MatchAny {
    pub any: AnyVariants,
}

/// What a field is matched against.
#[derive(Debug, PartialEq, Eq)]
pub enum Match {
    Value(MatchValue),
    Any(MatchAny),
}

/// The mathematical content of a [`Match`].
pub enum MatchView {
    Value(MatchValue),
    Any(AnyVariantsView),
}

impl View for Match {
    type V = MatchView;

    open spec fn view(&self) -> MatchView {
        match self {
            Match::Value(value) => MatchView::Value(*value),
            Match::Any(any) => MatchView::Any(any.any@),
        }
    }
}

impl Match {
    /// A match against any of `variants`.
    pub fn new_any(variants: AnyVariants) -> (matcher: Self)
        ensures
            matcher == Match::Any(MatchAny { any: variants }),
    {
        Match::Any(MatchAny { any: variants })
    }
}

impl Clone for Match {
    fn clone(&self) -> (copy: Self)
        ensures
            copy@ == self@,
    {
        match self {
            Match::Value(value) => Match::Value(value.clone()),
            Match::Any(any) => Match::Any(MatchAny { any: any.any.clone() }),
        }
    }
}

/// The view of an optional match.
pub open spec fn match_view(matcher: Option<Match>) -> Option<MatchView> {
    match matcher {
        Some(matcher) => Some(matcher@),
        None => None,
    }
}

/// A condition on one payload field.
#[derive(Debug, PartialEq, Eq)]
pub struct FieldCondition {
    /// The field that the condition is about.
    pub key: PayloadKeyType,
    /// What the field is matched against; `None` for a condition of another
    /// shape.
    pub matcher: Option<Match>,
}

/// The mathematical content of a [`FieldCondition`].
pub struct FieldConditionView {
    pub key: PayloadKeyType,
    pub matcher: Option<MatchView>,
}

impl View for FieldCondition {
    type V = FieldConditionView;

    open spec fn view(&self) -> FieldConditionView {
        FieldConditionView { key: self.key, matcher: match_view(self.matcher) }
    }
}

impl FieldCondition {
    /// The condition that `key` matches `matcher`.
    pub fn new_match(key: PayloadKeyType, matcher: Match) -> (condition: Self)
        ensures
            condition == (FieldCondition { key, matcher: Some(matcher) }),
    {
        FieldCondition { key, matcher: Some(matcher) }
    }

    /// The value of a condition that matches the field against one boolean.
    pub open spec fn bool_match(&self) -> Option<bool> {
        match self.matcher {
            Some(Match::Value(MatchValue { value: ValueVariants::Bool(value) })) => Some(value),
            _ => None,
        }
    }
}

impl Clone for FieldCondition {
    fn clone(&self) -> (copy: Self)
        ensures
            copy@ == self@,
            copy.bool_match() == self.bool_match(),
            self.bool_match() is Some ==> copy == *self,
    {
        let matcher = match &self.matcher {
            Some(matcher) => Some(matcher.clone()),
            None => None,
        };
        FieldCondition { key: self.key.clone(), matcher }
    }
}

/// The condition that a field is null.
#[derive(Debug, PartialEq, Eq)]
pub struct IsNullCondition {
    pub key: PayloadKeyType,
}

impl IsNullCondition {
    /// The condition that the field `key` is null.
    pub fn from(key: PayloadKeyType) -> (condition: Self)
        ensures
            condition.key == key,
    {
        IsNullCondition { key }
    }
}

impl Clone for IsNullCondition {
    fn clone(&self) -> (copy: Self)
        ensures
            copy == *self,
    {
        IsNullCondition { key: self.key.clone() }
    }
}

/// The condition that a point's identifier is one of `has_id`.
#[derive(Debug, PartialEq, Eq)]
pub struct HasIdCondition {
    pub has_id: Vec<PointIdType>,
}

impl HasIdCondition {
    /// The condition that a point is one of `ids`.
    pub fn from(ids: Vec<PointIdType>) -> (condition: Self)
        ensures
            condition.has_id == ids,
    {
        HasIdCondition { has_id: ids }
    }
}

/// One clause of a filter.
#[derive(Debug, PartialEq, Eq)]
pub enum Condition {
    Field(FieldCondition),
    IsNull(IsNullCondition),
    HasId(HasIdCondition),
}

/// The mathematical content of a [`Condition`]. The identifiers of a
/// `HasId` clause form a set: their order means nothing.
pub enum ConditionView {
    Field(FieldConditionView),
    IsNull(IsNullCondition),
    HasId(Set<PointIdType>),
}

impl View for Condition {
    type V = ConditionView;

    open spec fn view(&self) -> ConditionView {
        match self {
            Condition::Field(field) => ConditionView::Field(field@),
            Condition::IsNull(is_null) => ConditionView::IsNull(*is_null),
            Condition::HasId(has_id) => ConditionView::HasId(has_id.has_id@.to_set()),
        }
    }
}

impl Clone for Condition {
    fn clone(&self) -> (copy: Self)
        ensures
            copy@ == self@,
    {
        match self {
            Condition::Field(field) => Condition::Field(field.clone()),
            Condition::IsNull(is_null) => Condition::IsNull(is_null.clone()),
            Condition::HasId(has_id) => Condition::HasId(
                HasIdCondition { has_id: has_id.has_id.clone() },
            ),
        }
    }
}

/// The views of a list of clauses, in order.
pub open spec fn clause_views(clauses: Seq<Condition>) -> Seq<ConditionView> {
    clauses.map_values(|clause: Condition| clause@)
}

/// The view of an optional list of clauses.
pub open spec fn component_view(component: Option<Vec<Condition>>) -> Option<Seq<ConditionView>> {
    match component {
        Some(clauses) => Some(clause_views(clauses@)),
        None => None,
    }
}

/// A filter over points: clauses of which at least one should hold, clauses
/// that must hold, and clauses that must not.
#[derive(Debug, PartialEq, Eq)]
pub struct Filter {
    pub should: Option<Vec<Condition>>,
    pub must: Option<Vec<Condition>>,
    pub must_not: Option<Vec<Condition>>,
}

/// The mathematical content of a [`Filter`].
pub struct FilterView {
    pub should: Option<Seq<ConditionView>>,
    pub must: Option<Seq<ConditionView>>,
    pub must_not: Option<Seq<ConditionView>>,
}

impl View for Filter {
    type V = FilterView;

    open spec fn view(&self) -> FilterView {
        FilterView {
            should: component_view(self.should),
            must: component_view(self.must),
            must_not: component_view(self.must_not),
        }
    }
}

/// The clauses of two components, one after the other; `None` where both
/// are absent.
pub open spec fn merged_component(
    this: Option<Seq<ConditionView>>,
    other: Option<Seq<ConditionView>>,
) -> Option<Seq<ConditionView>> {
    match (this, other) {
        (None, None) => None,
        (Some(this), None) => Some(this),
        (None, Some(other)) => Some(other),
        (Some(this), Some(other)) => Some(this + other),
    }
}

impl FilterView {
    /// The filter without clauses.
    pub open spec fn empty() -> FilterView {
        FilterView { should: None, must: None, must_not: None }
    }

    /// The filter that asks for what `self` and `other` both ask for.
    pub open spec fn merge(self, other: FilterView) -> FilterView {
        FilterView {
            should: merged_component(self.should, other.should),
            must: merged_component(self.must, other.must),
            must_not: merged_component(self.must_not, other.must_not),
        }
    }
}

/// A copy of a list of clauses.
fn clone_clauses(clauses: &Vec<Condition>) -> (copy: Vec<Condition>)
    ensures
        clause_views(copy@) == clause_views(clauses@),
{
    let mut copy: Vec<Condition> = Vec::new();
    let mut i: usize = 0;
    while i < clauses.len()
        invariant
            i <= clauses.len(),
            copy.len() == i,
            forall|j: int| 0 <= j < i ==> (#[trigger] copy[j])@ == clauses[j]@,
        decreases clauses.len() - i,
    {
        copy.push(clauses[i].clone());
        i += 1;
    }
    copy
}

/// A copy of an optional list of clauses.
fn clone_component(component: &Option<Vec<Condition>>) -> (copy: Option<Vec<Condition>>)
    ensures
        component_view(copy) == component_view(*component),
{
    match component {
        Some(clauses) => Some(clone_clauses(clauses)),
        None => None,
    }
}

/// The clauses of `this`, then those of `other`; `None` where both are
/// absent.
fn merge_component(this: &Option<Vec<Condition>>, other: &Option<Vec<Condition>>) -> (merged:
    Option<Vec<Condition>>)
    ensures
        component_view(merged) == merged_component(component_view(*this), component_view(*other)),
{
    match (this, other) {
        (None, None) => None,
        (Some(this), None) => Some(clone_clauses(this)),
        (None, Some(other)) => Some(clone_clauses(other)),
        (Some(this), Some(other)) => {
            let mut merged = clone_clauses(this);
            let mut tail = clone_clauses(other);
            merged.append(&mut tail);
            Some(merged)
        },
    }
}

impl Filter {
    /// The filter that asks that `condition` holds.
    pub fn new_must(condition: Condition) -> (filter: Self)
        ensures
            filter@ == (FilterView { should: None, must: Some(seq![condition@]), must_not: None }),
    {
        let mut must: Vec<Condition> = Vec::new();
        must.push(condition);
        assert(clause_views(must@) =~= seq![condition@]);
        Filter { should: None, must: Some(must), must_not: None }
    }

    /// The filter that asks that `condition` does not hold.
    pub fn new_must_not(condition: Condition) -> (filter: Self)
        ensures
            filter@ == (FilterView { should: None, must: None, must_not: Some(seq![condition@]) }),
    {
        let mut must_not: Vec<Condition> = Vec::new();
        must_not.push(condition);
        assert(clause_views(must_not@) =~= seq![condition@]);
        Filter { should: None, must: None, must_not: Some(must_not) }
    }

    /// The filter that asks for what `self` and `other` both ask for: each
    /// component holds the clauses of `self`, then those of `other`.
    pub fn merge(&self, other: &Filter) -> (merged: Filter)
        ensures
            merged@ == self@.merge(other@),
    {
        Filter {
            should: merge_component(&self.should, &other.should),
            must: merge_component(&self.must, &other.must),
            must_not: merge_component(&self.must_not, &other.must_not),
        }
    }
}

impl Default for Filter {
    fn default() -> (filter: Self)
        ensures
            filter@ == FilterView::empty(),
    {
        Filter { should: None, must: None, must_not: None }
    }
}

impl Clone for Filter {
    fn clone(&self) -> (copy: Self)
        ensures
            copy@ == self@,
    {
        Filter {
            should: clone_component(&self.should),
            must: clone_component(&self.must),
            must_not: clone_component(&self.must_not),
        }
    }
}

/// Which payload fields a request asks to have returned.
#[derive(Debug, PartialEq, Eq)]
pub enum WithPayloadInterface {
    /// All of them, or none.
    Bool(bool),
    /// The fields that are named.
    Fields(Vec<String>),
}

/// The mathematical content of a [`WithPayloadInterface`].
pub enum WithPayloadView {
    Bool(bool),
    Fields(Seq<String>),
}

impl View for WithPayloadInterface {
    type V = WithPayloadView;

    open spec fn view(&self) -> WithPayloadView {
        match self {
            WithPayloadInterface::Bool(all) => WithPayloadView::Bool(*all),
            WithPayloadInterface::Fields(fields) => WithPayloadView::Fields(fields@),
        }
    }
}

impl Clone for WithPayloadInterface {
    fn clone(&self) -> (copy: Self)
        ensures
            copy@ == self@,
    {
        match self {
            WithPayloadInterface::Bool(all) => WithPayloadInterface::Bool(*all),
            WithPayloadInterface::Fields(fields) => WithPayloadInterface::Fields(fields.clone()),
        }
    }
}

/// Which vectors a request asks to have returned.
#[derive(Debug, PartialEq, Eq)]
pub enum WithVector {
    /// All of them, or none.
    Bool(bool),
    /// The vectors that are named.
    Selector(Vec<String>),
}

/// The mathematical content of a [`WithVector`].
pub enum WithVectorView {
    Bool(bool),
    Selector(Seq<String>),
}

impl View for WithVector {
    type V = WithVectorView;

    open spec fn view(&self) -> WithVectorView {
        match self {
            WithVector::Bool(all) => WithVectorView::Bool(*all),
            WithVector::Selector(names) => WithVectorView::Selector(names@),
        }
    }
}

impl Clone for WithVector {
    fn clone(&self) -> (copy: Self)
        ensures
            copy@ == self@,
    {
        match self {
            WithVector::Bool(all) => WithVector::Bool(*all),
            WithVector::Selector(names) => WithVector::Selector(names.clone()),
        }
    }
}

impl Default for WithVector {
    /// No vector is returned unless one is asked for.
    fn default() -> (with_vector: Self)
        ensures
            with_vector == WithVector::Bool(false),
    {
        WithVector::Bool(false)
    }
}

/// The view of an optional filter.
pub open spec fn filter_view(filter: Option<Filter>) -> Option<FilterView> {
    match filter {
        Some(filter) => Some(filter@),
        None => None,
    }
}

/// The view of an optional choice of payload fields.
pub open spec fn payload_view(with_payload: Option<WithPayloadInterface>) -> Option<
    WithPayloadView,
> {
    match with_payload {
        Some(with_payload) => Some(with_payload@),
        None => None,
    }
}

/// The view of an optional choice of vectors.
pub open spec fn vector_view(with_vector: Option<WithVector>) -> Option<WithVectorView> {
    match with_vector {
        Some(with_vector) => Some(with_vector@),
        None => None,
    }
}

/// The clause of a condition that an estimation was made from.
#[derive(Debug, PartialEq, Eq)]
pub enum PrimaryCondition {
    Condition(FieldCondition),
    IsNull(IsNullCondition),
}

/// An estimate of how many points satisfy a condition.
#[derive(Debug, PartialEq, Eq)]
pub struct CardinalityEstimation {
    /// The clauses that the estimate was made from.
    pub primary_clauses: Vec<PrimaryCondition>,
    /// No fewer points than this satisfy the condition.
    pub min: usize,
    /// The expected number of points that satisfy it.
    pub exp: usize,
    /// No more points than this satisfy it.
    pub max: usize,
}

impl CardinalityEstimation {
    /// The estimation of a condition that exactly `count` points satisfy.
    pub fn exact(count: usize) -> (estimation: Self)
        ensures
            estimation.primary_clauses@ == Seq::<PrimaryCondition>::empty(),
            estimation.min == count,
            estimation.exp == count,
            estimation.max == count,
    {
        CardinalityEstimation { primary_clauses: Vec::new(), min: count, exp: count, max: count }
    }

    /// The same estimation, with `clause` added to its primary clauses.
    pub fn with_primary_clause(self, clause: PrimaryCondition) -> (estimation: Self)
        ensures
            estimation.primary_clauses@ == self.primary_clauses@.push(clause),
            estimation.min == self.min,
            estimation.exp == self.exp,
            estimation.max == self.max,
    {
        let mut estimation = self;
        estimation.primary_clauses.push(clause);
        estimation
    }
}

/// A partition of the index whose size makes it worth a structure of its
/// own: the condition that selects it, and how many points it holds.
#[derive(Debug, PartialEq, Eq)]
pub struct PayloadBlockCondition {
    pub condition: FieldCondition,
    pub cardinality: usize,
}

/// Figures that an index reports about itself.
#[derive(Debug, PartialEq, Eq)]
pub struct PayloadIndexTelemetry {
    pub field_name: Option<String>,
    pub points_values_count: usize,
    pub points_count: usize,
    pub histogram_bucket_size: Option<usize>,
}

/// Why an operation on an index failed.
#[derive(Debug, PartialEq, Eq)]
pub enum OperationError {
    /// An invariant of the index does not hold, or what was persisted is
    /// corrupt.
    ServiceError { description: String },
}

impl OperationError {
    /// The error of a broken invariant, with its description.
    pub fn service_error(description: &str) -> (error: Self)
        ensures
            error.description_text() == description@,
    {
        OperationError::ServiceError { description: description.to_owned() }
    }

    /// The text that describes the error.
    pub open spec fn description_text(&self) -> Seq<char> {
        match self {
            OperationError::ServiceError { description } => description@,
        }
    }
}

} // verus!
