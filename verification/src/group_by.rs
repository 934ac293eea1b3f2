use crate::json::{json_i64, json_is_number, json_str};
use crate::operations::{
    clone_with_payload, clone_with_vector, RecommendGroupsRequest, RecommendRequest,
    RecommendRequestView, SearchGroupsRequest, SearchRequest, SearchRequestView,
};
use crate::types::{
    filter_view, keyword_views, payload_view, vector_view, AnyVariants, AnyVariantsView, Condition,
    ConditionView, FieldCondition, FieldConditionView, Filter, FilterView, HasIdCondition,
    IsNullCondition, Match, MatchAny, MatchView, PointIdType, WithPayloadInterface,
    WithPayloadView, WithVector, WithVectorView,
};
use vstd::prelude::*;
use vstd::std_specs::convert::FromSpecImpl;

verus! {

/// How many requests are made, at most, to find enough groups.
pub const MAX_GET_GROUPS_REQUESTS: usize = 5;

/// How many requests are made, at most, to fill the groups that were found.
pub const MAX_GROUP_FILLING_REQUESTS: usize = 5;

/// The request from which the points of the groups are taken.
#[derive(Debug, PartialEq, Eq)]
pub enum SourceRequest {
    Search(SearchRequest),
    Recommend(RecommendRequest),
}

/// The mathematical content of a [`SourceRequest`].
pub enum SourceRequestView {
    Search(SearchRequestView),
    Recommend(RecommendRequestView),
}

impl View for SourceRequest {
    type V = SourceRequestView;

    open spec fn view(&self) -> SourceRequestView {
        match self {
            SourceRequest::Search(request) => SourceRequestView::Search(request@),
            SourceRequest::Recommend(request) => SourceRequestView::Recommend(request@),
        }
    }
}

impl Clone for SourceRequest {
    fn clone(&self) -> (copy: Self)
        ensures
            copy@ == self@,
    {
        match self {
            SourceRequest::Search(request) => SourceRequest::Search(request.clone()),
            SourceRequest::Recommend(request) => SourceRequest::Recommend(request.clone()),
        }
    }
}

/// The filter that asks that `condition` does not hold.
pub open spec fn must_not(condition: ConditionView) -> FilterView {
    FilterView { should: None, must: None, must_not: Some(seq![condition]) }
}

/// The filter that asks that `condition` holds.
pub open spec fn must(condition: ConditionView) -> FilterView {
    FilterView { should: None, must: Some(seq![condition]), must_not: None }
}

impl SourceRequestView {
    /// The filter of the request.
    pub open spec fn filter(self) -> Option<FilterView> {
        match self {
            SourceRequestView::Search(request) => request.filter,
            SourceRequestView::Recommend(request) => request.filter,
        }
    }

    /// The most points that the request asks for.
    pub open spec fn limit(self) -> usize {
        match self {
            SourceRequestView::Search(request) => request.limit,
            SourceRequestView::Recommend(request) => request.limit,
        }
    }

    /// Which payload fields the request asks for.
    pub open spec fn with_payload(self) -> Option<WithPayloadView> {
        match self {
            SourceRequestView::Search(request) => request.with_payload,
            SourceRequestView::Recommend(request) => request.with_payload,
        }
    }

    /// Which vectors the request asks for.
    pub open spec fn with_vector(self) -> Option<WithVectorView> {
        match self {
            SourceRequestView::Search(request) => request.with_vector,
            SourceRequestView::Recommend(request) => request.with_vector,
        }
    }

    /// The request with `filter` in place of its own.
    pub open spec fn with_filter(self, filter: Option<FilterView>) -> SourceRequestView {
        match self {
            SourceRequestView::Search(request) => SourceRequestView::Search(
                SearchRequestView { filter, ..request },
            ),
            SourceRequestView::Recommend(request) => SourceRequestView::Recommend(
                RecommendRequestView { filter, ..request },
            ),
        }
    }

    /// The request that also asks for what `filter` asks for.
    pub open spec fn merge_filter(self, filter: FilterView) -> SourceRequestView {
        self.with_filter(
            Some(
                match self.filter() {
                    Some(own) => own.merge(filter),
                    None => FilterView::empty().merge(filter),
                },
            ),
        )
    }

    /// The request as it is sent for one round of grouping: it asks for
    /// `limit` points that hold the key, and of each point only for the key.
    pub open spec fn prepared(self, include_key: String, limit: usize) -> SourceRequestView {
        let with_payload = Some(WithPayloadView::Fields(seq![include_key]));
        let narrowed = self.merge_filter(
            must_not(ConditionView::IsNull(IsNullCondition { key: include_key })),
        );
        match narrowed {
            SourceRequestView::Search(request) => SourceRequestView::Search(
                SearchRequestView { limit, with_payload, with_vector: None, ..request },
            ),
            SourceRequestView::Recommend(request) => SourceRequestView::Recommend(
                RecommendRequestView { limit, with_payload, with_vector: None, ..request },
            ),
        }
    }
}

/// The filter of a request, or the empty one, with what `filter` asks for
/// added to it.
fn merged_with(own: &Option<Filter>, filter: &Filter) -> (merged: Filter)
    ensures
        merged@ == match filter_view(*own) {
            Some(own) => own.merge(filter@),
            None => FilterView::empty().merge(filter@),
        },
{
    match own {
        Some(own) => own.merge(filter),
        None => Filter::default().merge(filter),
    }
}

impl SourceRequest {
    /// The request to send for one round of grouping by `include_key`, for
    /// `limit` groups of `per_group` points. The points that come back are
    /// only sorted into groups, so nothing but the key is asked of them.
    pub fn prepare(&self, include_key: String, limit: usize, per_group: usize) -> (request:
        SourceRequest)
        requires
            limit * per_group <= usize::MAX,
        ensures
            request@ == self@.prepared(include_key, (limit * per_group) as usize),
    {
        let mut fields: Vec<String> = Vec::new();
        fields.push(include_key.clone());
        let only_group_by_key = Some(WithPayloadInterface::Fields(fields));
        let key_not_null = Filter::new_must_not(
            Condition::IsNull(IsNullCondition::from(include_key.clone())),
        );
        match self {
            SourceRequest::Search(request) => {
                let mut request = request.clone();
                request.limit = limit * per_group;
                request.filter = Some(merged_with(&request.filter, &key_not_null));
                request.with_payload = only_group_by_key;
                request.with_vector = None;
                SourceRequest::Search(request)
            },
            SourceRequest::Recommend(request) => {
                let mut request = request.clone();
                request.limit = limit * per_group;
                request.filter = Some(merged_with(&request.filter, &key_not_null));
                request.with_payload = only_group_by_key;
                request.with_vector = None;
                SourceRequest::Recommend(request)
            },
        }
    }

    /// Adds what `filter` asks for to the filter of the request.
    pub fn merge_filter(&mut self, filter: &Filter)
        ensures
            final(self)@ == old(self)@.merge_filter(filter@),
    {
        match self {
            SourceRequest::Search(request) => {
                request.filter = Some(merged_with(&request.filter, filter));
            },
            SourceRequest::Recommend(request) => {
                request.filter = Some(merged_with(&request.filter, filter));
            },
        }
    }

    /// Which payload fields the request asks for.
    pub fn with_payload(&self) -> (with_payload: Option<WithPayloadInterface>)
        ensures
            payload_view(with_payload) == self@.with_payload(),
    {
        match self {
            SourceRequest::Search(request) => clone_with_payload(&request.with_payload),
            SourceRequest::Recommend(request) => clone_with_payload(&request.with_payload),
        }
    }

    /// Which vectors the request asks for.
    pub fn with_vector(&self) -> (with_vector: Option<WithVector>)
        ensures
            vector_view(with_vector) == self@.with_vector(),
    {
        match self {
            SourceRequest::Search(request) => clone_with_vector(&request.with_vector),
            SourceRequest::Recommend(request) => clone_with_vector(&request.with_vector),
        }
    }
}

/// A request for points in groups: the points come from `request`, and
/// those with one value of the field `group_by` make one group.
#[derive(Debug, PartialEq, Eq)]
pub struct GroupRequest {
    /// Request to use (search or recommend)
    pub request: SourceRequest,
    /// Path to the field to group by
    pub group_by: String,
    /// Limit of points to return per group
    pub per_group: usize,
    /// Limit of groups to return
    pub limit: usize,
}

impl GroupRequest {
    /// The request for groups of at most `per_group` points of `request`,
    /// for as many groups as `request` asks for points.
    pub fn new(request: SourceRequest, group_by: String, per_group: usize) -> (group_request: Self)
        ensures
            group_request.request == request,
            group_request.group_by == group_by,
            group_request.per_group == per_group,
            group_request.limit == request@.limit(),
    {
        let limit = match &request {
            SourceRequest::Search(request) => request.limit,
            SourceRequest::Recommend(request) => request.limit,
        };
        Self { request, group_by, per_group, limit }
    }

    /// Whether the request asks for at least one group of at least one
    /// point. A request that does not is not to be run.
    pub fn is_valid(&self) -> (valid: bool)
        ensures
            valid == (self.per_group >= 1 && self.limit >= 1),
    {
        self.per_group >= 1 && self.limit >= 1
    }
}

impl Clone for GroupRequest {
    fn clone(&self) -> (copy: Self)
        ensures
            copy.request@ == self.request@,
            copy.group_by == self.group_by,
            copy.per_group == self.per_group,
            copy.limit == self.limit,
    {
        GroupRequest {
            request: self.request.clone(),
            group_by: self.group_by.clone(),
            per_group: self.per_group,
            limit: self.limit,
        }
    }
}

impl From<SearchGroupsRequest> for GroupRequest {
    fn from(request: SearchGroupsRequest) -> (group_request: Self) {
        let SearchGroupsRequest { filter, with_payload, with_vector, group_request } = request;
        let search = SearchRequest { filter, limit: 0, offset: 0, with_payload, with_vector };
        GroupRequest {
            request: SourceRequest::Search(search),
            group_by: group_request.group_by,
            per_group: group_request.per_group as usize,
            limit: group_request.limit as usize,
        }
    }
}

impl FromSpecImpl<SearchGroupsRequest> for GroupRequest {
    open spec fn obeys_from_spec() -> bool {
        true
    }

    open spec fn from_spec(request: SearchGroupsRequest) -> Self {
        GroupRequest {
            request: SourceRequest::Search(
                SearchRequest {
                    filter: request.filter,
                    limit: 0,
                    offset: 0,
                    with_payload: request.with_payload,
                    with_vector: request.with_vector,
                },
            ),
            group_by: request.group_request.group_by,
            per_group: request.group_request.per_group as usize,
            limit: request.group_request.limit as usize,
        }
    }
}

impl From<RecommendGroupsRequest> for GroupRequest {
    fn from(request: RecommendGroupsRequest) -> (group_request: Self) {
        let RecommendGroupsRequest {
            positive,
            negative,
            filter,
            with_payload,
            with_vector,
            group_request,
        } = request;
        let recommend = RecommendRequest {
            positive,
            negative,
            filter,
            limit: 0,
            offset: 0,
            with_payload,
            with_vector,
        };
        GroupRequest {
            request: SourceRequest::Recommend(recommend),
            group_by: group_request.group_by,
            per_group: group_request.per_group as usize,
            limit: group_request.limit as usize,
        }
    }
}

impl FromSpecImpl<RecommendGroupsRequest> for GroupRequest {
    open spec fn obeys_from_spec() -> bool {
        true
    }

    open spec fn from_spec(request: RecommendGroupsRequest) -> Self {
        GroupRequest {
            request: SourceRequest::Recommend(
                RecommendRequest {
                    positive: request.positive,
                    negative: request.negative,
                    filter: request.filter,
                    limit: 0,
                    offset: 0,
                    with_payload: request.with_payload,
                    with_vector: request.with_vector,
                },
            ),
            group_by: request.group_request.group_by,
            per_group: request.group_request.per_group as usize,
            limit: request.group_request.limit as usize,
        }
    }
}

/// The integers among `values`, in order.
pub open spec fn integers_of(values: Seq<serde_json::Value>) -> Seq<i64>
    decreases values.len(),
{
    if values.len() == 0 {
        Seq::empty()
    } else {
        match json_i64(values.last()) {
            Some(integer) => integers_of(values.drop_last()).push(integer),
            None => integers_of(values.drop_last()),
        }
    }
}

/// The texts among `values`, in order.
pub open spec fn keywords_of(values: Seq<serde_json::Value>) -> Seq<Seq<char>>
    decreases values.len(),
{
    if values.len() == 0 {
        Seq::empty()
    } else {
        match json_str(values.last()) {
            Some(text) => keywords_of(values.drop_last()).push(text),
            None => keywords_of(values.drop_last()),
        }
    }
}

/// A match of the field `path` against any of `variants`.
pub open spec fn any_of(path: String, variants: AnyVariantsView) -> ConditionView {
    ConditionView::Field(FieldConditionView { key: path, matcher: Some(MatchView::Any(variants)) })
}

/// The condition that the field `path` holds one of `values`. The first
/// value decides: where it is a number, the condition is on the integers
/// among the values; where it is a text, on the texts among them. No
/// condition is made of other values, nor of none.
pub open spec fn matched_on(path: String, values: Seq<serde_json::Value>) -> Option<
    ConditionView,
> {
    if values.len() > 0 && json_is_number(values[0]) {
        Some(any_of(path, AnyVariantsView::Integers(integers_of(values))))
    } else if values.len() > 0 && json_str(values[0]) is Some {
        Some(any_of(path, AnyVariantsView::Keywords(keywords_of(values))))
    } else {
        None
    }
}

/// The view of an optional condition.
pub open spec fn condition_view(condition: Option<Condition>) -> Option<ConditionView> {
    match condition {
        Some(condition) => Some(condition@),
        None => None,
    }
}

/// The condition that the field `path` holds one of `variants`.
pub fn any_condition(path: String, variants: AnyVariants) -> (condition: Condition)
    ensures
        condition == Condition::Field(
            FieldCondition { key: path, matcher: Some(Match::Any(MatchAny { any: variants })) },
        ),
        condition@ == any_of(path, variants@),
{
    Condition::Field(FieldCondition::new_match(path, Match::new_any(variants)))
}

/// The integers among `values`, in order.
fn collect_integers(values: &Vec<serde_json::Value>) -> (integers: Vec<i64>)
    ensures
        integers@ == integers_of(values@),
{
    let mut integers: Vec<i64> = Vec::new();
    let mut i: usize = 0;
    while i < values.len()
        invariant
            i <= values.len(),
            integers@ == integers_of(values@.take(i as int)),
        decreases values.len() - i,
    {
        assert(values@.take(i + 1).drop_last() =~= values@.take(i as int));
        if let Some(integer) = values[i].as_i64() {
            integers.push(integer);
        }
        i += 1;
    }
    assert(values@.take(i as int) =~= values@);
    integers
}

/// The texts among `values`, in order.
fn collect_keywords(values: &Vec<serde_json::Value>) -> (keywords: Vec<String>)
    ensures
        keyword_views(keywords@) == keywords_of(values@),
{
    let mut keywords: Vec<String> = Vec::new();
    let mut i: usize = 0;
    while i < values.len()
        invariant
            i <= values.len(),
            keyword_views(keywords@) == keywords_of(values@.take(i as int)),
        decreases values.len() - i,
    {
        assert(values@.take(i + 1).drop_last() =~= values@.take(i as int));
        if let Some(text) = values[i].as_str() {
            keywords.push(text.to_owned());
        }
        i += 1;
    }
    assert(values@.take(i as int) =~= values@);
    keywords
}

/// Uses the set of values to create a match against any of them, if
/// possible.
pub fn match_on(path: String, values: Vec<serde_json::Value>) -> (condition: Option<Condition>)
    ensures
        condition_view(condition) == matched_on(path, values@),
{
    if values.len() == 0 {
        return None;
    }
    if values[0].is_number() {
        Some(any_condition(path, AnyVariants::Integers(collect_integers(&values))))
    } else if values[0].is_string() {
        Some(any_condition(path, AnyVariants::Keywords(collect_keywords(&values))))
    } else {
        None
    }
}

/// Where the grouping stands between two requests.
#[derive(Clone, Copy, Debug, PartialEq, Eq, Structural)]
pub enum GroupingStage {
    /// Groups are looked for; so many requests may still be made for that.
    GetGroups { requests_left: usize },
    /// The groups that were found are filled up; so many requests may still
    /// be made for that.
    FillGroups { requests_left: usize },
    /// No request is made any more: the groups are what they are.
    Done,
}

/// What has been gathered so far, as far as the next request depends on it.
#[derive(Debug, PartialEq, Eq)]
pub struct GroupingProgress {
    /// How many of the best groups are full.
    pub filled_best_groups: usize,
    /// The keys of the groups that are full.
    pub keys_of_filled_groups: Vec<serde_json::Value>,
    /// The keys of the best groups that are not full.
    pub keys_of_unfilled_best_groups: Vec<serde_json::Value>,
    /// The points that have been sorted into groups.
    pub ids: Vec<PointIdType>,
}

/// The stage in which the next request is made, or `Done` where none is:
/// once enough groups are full nothing more is asked for, and the filling
/// begins where the requests for finding groups are used up.
pub open spec fn active_stage(stage: GroupingStage, filled: usize, limit: usize) -> GroupingStage {
    match stage {
        GroupingStage::GetGroups { requests_left } => if filled >= limit {
            GroupingStage::Done
        } else if requests_left > 0 {
            stage
        } else {
            GroupingStage::FillGroups { requests_left: MAX_GROUP_FILLING_REQUESTS }
        },
        GroupingStage::FillGroups { requests_left } => if filled >= limit || requests_left == 0 {
            GroupingStage::Done
        } else {
            stage
        },
        GroupingStage::Done => GroupingStage::Done,
    }
}

/// The stage after one request was made in `stage`.
pub open spec fn spent(stage: GroupingStage) -> GroupingStage {
    match stage {
        GroupingStage::GetGroups { requests_left } => GroupingStage::GetGroups {
            requests_left: (requests_left - 1) as usize,
        },
        GroupingStage::FillGroups { requests_left } => GroupingStage::FillGroups {
            requests_left: (requests_left - 1) as usize,
        },
        GroupingStage::Done => GroupingStage::Done,
    }
}

/// `request`, which also leaves out the points `ids`, where there are any.
pub open spec fn without_ids(request: SourceRequestView, ids: Seq<PointIdType>) -> SourceRequestView {
    if ids.len() == 0 {
        request
    } else {
        request.merge_filter(must_not(ConditionView::HasId(ids.to_set())))
    }
}

/// The request of a round that looks for groups: it leaves out the groups
/// that are full, where a condition can be made of their keys, and the
/// points that are in a group already.
pub open spec fn get_groups_request(
    request: SourceRequestView,
    group_by: String,
    full_groups: Seq<serde_json::Value>,
    ids: Seq<PointIdType>,
) -> SourceRequestView {
    let narrowed = match matched_on(group_by, full_groups) {
        Some(match_any) => request.merge_filter(must_not(match_any)),
        None => request,
    };
    without_ids(narrowed, ids)
}

/// The request of a round that fills groups: it asks only for the groups
/// that are not full, where a condition can be made of their keys, and
/// leaves out the points that are in a group already.
pub open spec fn fill_groups_request(
    request: SourceRequestView,
    group_by: String,
    unsatisfied_groups: Seq<serde_json::Value>,
    ids: Seq<PointIdType>,
) -> SourceRequestView {
    let narrowed = match matched_on(group_by, unsatisfied_groups) {
        Some(match_any) => request.merge_filter(must(match_any)),
        None => request,
    };
    without_ids(narrowed, ids)
}

/// The request that is sent next, for what has been gathered so far; `None`
/// where the grouping is done.
pub open spec fn planned_request(
    request: GroupRequest,
    stage: GroupingStage,
    progress: GroupingProgress,
) -> Option<SourceRequestView> {
    let limit = (request.limit * request.per_group) as usize;
    match active_stage(stage, progress.filled_best_groups, request.limit) {
        GroupingStage::GetGroups { .. } => Some(
            get_groups_request(
                request.request@,
                request.group_by,
                progress.keys_of_filled_groups@,
                progress.ids@,
            ).prepared(request.group_by, limit),
        ),
        GroupingStage::FillGroups { .. } => Some(
            fill_groups_request(
                request.request@,
                request.group_by,
                progress.keys_of_unfilled_best_groups@,
                progress.ids@,
            ).prepared(request.group_by, limit),
        ),
        GroupingStage::Done => None,
    }
}

/// The view of an optional request.
pub open spec fn source_view(request: Option<SourceRequest>) -> Option<SourceRequestView> {
    match request {
        Some(request) => Some(request@),
        None => None,
    }
}

impl GroupingStage {
    /// The stage in which a grouping starts.
    pub fn start() -> (stage: Self)
        ensures
            stage == (GroupingStage::GetGroups { requests_left: MAX_GET_GROUPS_REQUESTS }),
    {
        GroupingStage::GetGroups { requests_left: MAX_GET_GROUPS_REQUESTS }
    }

    /// The stage after the answer to a request has come. An answer without
    /// points ends the stage: no further request of its kind would find any.
    pub fn after_response(self, points_is_empty: bool) -> (stage: Self)
        ensures
            stage == if !points_is_empty {
                self
            } else {
                match self {
                    GroupingStage::GetGroups { .. } => GroupingStage::FillGroups {
                        requests_left: MAX_GROUP_FILLING_REQUESTS,
                    },
                    _ => GroupingStage::Done,
                }
            },
    {
        if !points_is_empty {
            self
        } else {
            match self {
                GroupingStage::GetGroups { .. } => GroupingStage::FillGroups {
                    requests_left: MAX_GROUP_FILLING_REQUESTS,
                },
                _ => GroupingStage::Done,
            }
        }
    }
}

/// Adds to `request` that the points `ids` are left out, where there are
/// any.
fn exclude_ids(request: &mut SourceRequest, ids: Vec<PointIdType>)
    ensures
        final(request)@ == without_ids(old(request)@, ids@),
{
    if ids.len() > 0 {
        let exclude_ids = Filter::new_must_not(Condition::HasId(HasIdCondition::from(ids)));
        request.merge_filter(&exclude_ids);
    }
}

/// Decides what a grouping does next: the stage it is in from now on, and
/// the request to send, or `None` where the grouping is done and the groups
/// can be handed out.
pub fn group_by(request: &GroupRequest, stage: GroupingStage, progress: GroupingProgress) -> (next:
    (GroupingStage, Option<SourceRequest>))
    requires
        request.limit * request.per_group <= usize::MAX,
    ensures
        next.0 == spent(active_stage(stage, progress.filled_best_groups, request.limit)),
        source_view(next.1) == planned_request(*request, stage, progress),
{
    let GroupingProgress {
        filled_best_groups,
        keys_of_filled_groups,
        keys_of_unfilled_best_groups,
        ids,
    } = progress;
    let enough = filled_best_groups >= request.limit;
    let active = match stage {
        GroupingStage::GetGroups { requests_left } => if enough {
            GroupingStage::Done
        } else if requests_left > 0 {
            stage
        } else {
            GroupingStage::FillGroups { requests_left: MAX_GROUP_FILLING_REQUESTS }
        },
        GroupingStage::FillGroups { requests_left } => if enough || requests_left == 0 {
            GroupingStage::Done
        } else {
            stage
        },
        GroupingStage::Done => GroupingStage::Done,
    };
    match active {
        GroupingStage::GetGroups { requests_left } => {
            let mut req = request.request.clone();
            // construct filter to exclude already found groups
            if keys_of_filled_groups.len() > 0 {
                if let Some(match_any) = match_on(request.group_by.clone(), keys_of_filled_groups) {
                    let exclude_groups = Filter::new_must_not(match_any);
                    req.merge_filter(&exclude_groups);
                }
            }
            // exclude already aggregated points
            exclude_ids(&mut req, ids);
            let prepared = req.prepare(request.group_by.clone(), request.limit, request.per_group);
            (GroupingStage::GetGroups { requests_left: requests_left - 1 }, Some(prepared))
        },
        GroupingStage::FillGroups { requests_left } => {
            let mut req = request.request.clone();
            // construct filter to only include unsatisfied groups
            if let Some(match_any) = match_on(
                request.group_by.clone(),
                keys_of_unfilled_best_groups,
            ) {
                let include_groups = Filter::new_must(match_any);
                req.merge_filter(&include_groups);
            }
            // exclude already aggregated points
            exclude_ids(&mut req, ids);
            let prepared = req.prepare(request.group_by.clone(), request.limit, request.per_group);
            (GroupingStage::FillGroups { requests_left: requests_left - 1 }, Some(prepared))
        },
        GroupingStage::Done => (GroupingStage::Done, None),
    }
}

} // verus!
