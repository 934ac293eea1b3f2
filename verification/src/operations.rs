use crate::types::{
    filter_view, payload_view, vector_view, Filter, FilterView, PointIdType,
    WithPayloadInterface, WithPayloadView, WithVector, WithVectorView,
};
use vstd::prelude::*;

verus! {

/// What a request for points says besides its query: which points it admits,
/// how many it asks for, and what is returned of each.
#[derive(Debug, PartialEq, Eq)]
pub struct SearchRequest {
    /// Only points that satisfy the filter are looked at.
    pub filter: Option<Filter>,
    /// The most points to return.
    pub limit: usize,
    /// How many of the best points to skip.
    pub offset: usize,
    /// Which payload fields to return.
    pub with_payload: Option<WithPayloadInterface>,
    /// Which vectors to return.
    pub with_vector: Option<WithVector>,
}

/// The mathematical content of a [`SearchRequest`].
pub struct SearchRequestView {
    pub filter: Option<FilterView>,
    pub limit: usize,
    pub offset: usize,
    pub with_payload: Option<WithPayloadView>,
    pub with_vector: Option<WithVectorView>,
}

impl View for SearchRequest {
    type V = SearchRequestView;

    open spec fn view(&self) -> SearchRequestView {
        SearchRequestView {
            filter: filter_view(self.filter),
            limit: self.limit,
            offset: self.offset,
            with_payload: payload_view(self.with_payload),
            with_vector: vector_view(self.with_vector),
        }
    }
}

/// A copy of an optional filter.
pub(crate) fn clone_filter(filter: &Option<Filter>) -> (copy: Option<Filter>)
    ensures
        filter_view(copy) == filter_view(*filter),
{
    match filter {
        Some(filter) => Some(filter.clone()),
        None => None,
    }
}

/// A copy of an optional choice of payload fields.
pub(crate) fn clone_with_payload(with_payload: &Option<WithPayloadInterface>) -> (copy: Option<
    WithPayloadInterface,
>)
    ensures
        payload_view(copy) == payload_view(*with_payload),
{
    match with_payload {
        Some(with_payload) => Some(with_payload.clone()),
        None => None,
    }
}

/// A copy of an optional choice of vectors.
pub(crate) fn clone_with_vector(with_vector: &Option<WithVector>) -> (copy: Option<WithVector>)
    ensures
        vector_view(copy) == vector_view(*with_vector),
{
    match with_vector {
        Some(with_vector) => Some(with_vector.clone()),
        None => None,
    }
}

impl Clone for SearchRequest {
    fn clone(&self) -> (copy: Self)
        ensures
            copy@ == self@,
    {
        SearchRequest {
            filter: clone_filter(&self.filter),
            limit: self.limit,
            offset: self.offset,
            with_payload: clone_with_payload(&self.with_payload),
            with_vector: clone_with_vector(&self.with_vector),
        }
    }
}

/// A request for the points that are close to some points and far from
/// others.
#[derive(Debug, PartialEq, Eq)]
pub struct RecommendRequest {
    /// The points to be close to.
    pub positive: Vec<PointIdType>,
    /// The points to be far from.
    pub negative: Vec<PointIdType>,
    /// Only points that satisfy the filter are looked at.
    pub filter: Option<Filter>,
    /// The most points to return.
    pub limit: usize,
    /// How many of the best points to skip.
    pub offset: usize,
    /// Which payload fields to return.
    pub with_payload: Option<WithPayloadInterface>,
    /// Which vectors to return.
    pub with_vector: Option<WithVector>,
}

/// The mathematical content of a [`RecommendRequest`].
pub struct RecommendRequestView {
    pub positive: Seq<PointIdType>,
    pub negative: Seq<PointIdType>,
    pub filter: Option<FilterView>,
    pub limit: usize,
    pub offset: usize,
    pub with_payload: Option<WithPayloadView>,
    pub with_vector: Option<WithVectorView>,
}

impl View for RecommendRequest {
    type V = RecommendRequestView;

    open spec fn view(&self) -> RecommendRequestView {
        RecommendRequestView {
            positive: self.positive@,
            negative: self.negative@,
            filter: filter_view(self.filter),
            limit: self.limit,
            offset: self.offset,
            with_payload: payload_view(self.with_payload),
            with_vector: vector_view(self.with_vector),
        }
    }
}

impl Clone for RecommendRequest {
    fn clone(&self) -> (copy: Self)
        ensures
            copy@ == self@,
    {
        RecommendRequest {
            positive: self.positive.clone(),
            negative: self.negative.clone(),
            filter: clone_filter(&self.filter),
            limit: self.limit,
            offset: self.offset,
            with_payload: clone_with_payload(&self.with_payload),
            with_vector: clone_with_vector(&self.with_vector),
        }
    }
}

/// What every request for groups says: the field to group by, and how many
/// groups of how many points to return.
#[derive(Debug, PartialEq, Eq)]
pub struct BaseGroupRequest {
    /// The payload field whose value makes the group.
    pub group_by: String,
    /// The most points to return for each group.
    pub per_group: u32,
    /// The most groups to return.
    pub limit: u32,
}

/// A search whose result is grouped.
#[derive(Debug, PartialEq, Eq)]
pub struct SearchGroupsRequest {
    pub filter: Option<Filter>,
    pub with_payload: Option<WithPayloadInterface>,
    pub with_vector: Option<WithVector>,
    pub group_request: BaseGroupRequest,
}

/// A recommendation whose result is grouped.
#[derive(Debug, PartialEq, Eq)]
pub struct RecommendGroupsRequest {
    pub positive: Vec<PointIdType>,
    pub negative: Vec<PointIdType>,
    pub filter: Option<Filter>,
    pub with_payload: Option<WithPayloadInterface>,
    pub with_vector: Option<WithVector>,
    pub group_request: BaseGroupRequest,
}

} // verus!
