use field_index::group_by::{
    any_condition, group_by, match_on, GroupRequest, GroupingProgress, GroupingStage,
    SourceRequest, MAX_GET_GROUPS_REQUESTS, MAX_GROUP_FILLING_REQUESTS,
};
use field_index::operations::{
    BaseGroupRequest, RecommendGroupsRequest, RecommendRequest, SearchGroupsRequest,
    SearchRequest,
};
use field_index::types::{
    AnyVariants, Condition, FieldCondition, Filter, HasIdCondition, IsNullCondition, Match,
    MatchAny, WithPayloadInterface, WithVector,
};
use serde_json::Value;

fn search(limit: usize, filter: Option<Filter>) -> SearchRequest {
    SearchRequest {
        filter,
        limit,
        offset: 0,
        with_payload: Some(WithPayloadInterface::Bool(true)),
        with_vector: Some(WithVector::Selector(vec!["image".to_string()])),
    }
}

fn recommend(limit: usize) -> RecommendRequest {
    RecommendRequest {
        positive: vec![1, 2],
        negative: vec![3],
        filter: None,
        limit,
        offset: 4,
        with_payload: None,
        with_vector: None,
    }
}

fn is_null(key: &str) -> Condition {
    Condition::IsNull(IsNullCondition { key: key.to_string() })
}

fn any_integers(key: &str, integers: Vec<i64>) -> Condition {
    Condition::Field(FieldCondition {
        key: key.to_string(),
        matcher: Some(Match::Any(MatchAny { any: AnyVariants::Integers(integers) })),
    })
}

fn any_keywords(key: &str, keywords: &[&str]) -> Condition {
    Condition::Field(FieldCondition {
        key: key.to_string(),
        matcher: Some(Match::Any(MatchAny {
            any: AnyVariants::Keywords(keywords.iter().map(|k| k.to_string()).collect()),
        })),
    })
}

fn has_id(ids: Vec<u64>) -> Condition {
    Condition::HasId(HasIdCondition { has_id: ids })
}

fn progress(filled: usize, full: Vec<Value>, unfilled: Vec<Value>, ids: Vec<u64>) -> GroupingProgress {
    GroupingProgress {
        filled_best_groups: filled,
        keys_of_filled_groups: full,
        keys_of_unfilled_best_groups: unfilled,
        ids,
    }
}

#[test]
fn new_takes_the_limit_of_the_request() {
    let request = GroupRequest::new(SourceRequest::Search(search(7, None)), "docId".to_string(), 3);
    assert_eq!(request.limit, 7);
    assert_eq!(request.per_group, 3);
    assert_eq!(request.group_by, "docId");
    assert_eq!(request.request, SourceRequest::Search(search(7, None)));

    let request = GroupRequest::new(SourceRequest::Recommend(recommend(2)), "k".to_string(), 1);
    assert_eq!(request.limit, 2);
    assert_eq!(request.request, SourceRequest::Recommend(recommend(2)));
}

#[test]
fn group_request_from_a_search_for_groups() {
    let filter = Filter::new_must(is_null("a"));
    let request = GroupRequest::from(SearchGroupsRequest {
        filter: Some(Filter::new_must(is_null("a"))),
        with_payload: Some(WithPayloadInterface::Fields(vec!["x".to_string()])),
        with_vector: None,
        group_request: BaseGroupRequest { group_by: "docId".to_string(), per_group: 3, limit: 10 },
    });
    assert_eq!(request.group_by, "docId");
    assert_eq!(request.per_group, 3);
    assert_eq!(request.limit, 10);
    assert_eq!(
        request.request,
        SourceRequest::Search(SearchRequest {
            filter: Some(filter),
            limit: 0,
            offset: 0,
            with_payload: Some(WithPayloadInterface::Fields(vec!["x".to_string()])),
            with_vector: None,
        })
    );
}

#[test]
fn group_request_from_a_recommendation_for_groups() {
    let request = GroupRequest::from(RecommendGroupsRequest {
        positive: vec![5],
        negative: vec![6, 7],
        filter: None,
        with_payload: None,
        with_vector: Some(WithVector::Bool(true)),
        group_request: BaseGroupRequest { group_by: "g".to_string(), per_group: 1, limit: 2 },
    });
    assert_eq!(request.group_by, "g");
    assert_eq!(request.per_group, 1);
    assert_eq!(request.limit, 2);
    assert_eq!(
        request.request,
        SourceRequest::Recommend(RecommendRequest {
            positive: vec![5],
            negative: vec![6, 7],
            filter: None,
            limit: 0,
            offset: 0,
            with_payload: None,
            with_vector: Some(WithVector::Bool(true)),
        })
    );
}

#[test]
fn a_group_request_needs_a_group_and_a_point() {
    let valid = GroupRequest::new(SourceRequest::Search(search(1, None)), "k".to_string(), 1);
    assert!(valid.is_valid());
    let no_points = GroupRequest::new(SourceRequest::Search(search(1, None)), "k".to_string(), 0);
    assert!(!no_points.is_valid());
    let no_groups = GroupRequest::new(SourceRequest::Search(search(0, None)), "k".to_string(), 1);
    assert!(!no_groups.is_valid());
}

#[test]
fn merge_filter_adds_to_the_filter() {
    let mut request = SourceRequest::Search(search(1, None));
    request.merge_filter(&Filter::new_must_not(is_null("a")));
    assert_eq!(
        request,
        SourceRequest::Search(search(
            1,
            Some(Filter { should: None, must: None, must_not: Some(vec![is_null("a")]) })
        ))
    );
    request.merge_filter(&Filter::new_must_not(is_null("b")));
    request.merge_filter(&Filter::new_must(is_null("c")));
    assert_eq!(
        request,
        SourceRequest::Search(search(
            1,
            Some(Filter {
                should: None,
                must: Some(vec![is_null("c")]),
                must_not: Some(vec![is_null("a"), is_null("b")]),
            })
        ))
    );

    let mut request = SourceRequest::Recommend(recommend(3));
    request.merge_filter(&Filter { should: Some(vec![has_id(vec![1])]), must: None, must_not: None });
    match request {
        SourceRequest::Recommend(request) => {
            assert_eq!(
                request.filter,
                Some(Filter { should: Some(vec![has_id(vec![1])]), must: None, must_not: None })
            );
            assert_eq!(request.positive, vec![1, 2]);
            assert_eq!(request.offset, 4);
        }
        _ => panic!("the kind of the request stays"),
    }
}

#[test]
fn filters_merge_component_by_component() {
    let left = Filter {
        should: Some(vec![is_null("a")]),
        must: None,
        must_not: Some(vec![is_null("b")]),
    };
    let right = Filter {
        should: Some(vec![is_null("c"), is_null("d")]),
        must: Some(vec![has_id(vec![9])]),
        must_not: None,
    };
    assert_eq!(
        left.merge(&right),
        Filter {
            should: Some(vec![is_null("a"), is_null("c"), is_null("d")]),
            must: Some(vec![has_id(vec![9])]),
            must_not: Some(vec![is_null("b")]),
        }
    );
    assert_eq!(Filter::default().merge(&Filter::default()), Filter::default());
    assert_eq!(Filter::default(), Filter { should: None, must: None, must_not: None });
    assert_eq!(left.clone(), left);
}

#[test]
fn with_payload_and_with_vector_are_those_of_the_request() {
    let request = SourceRequest::Search(search(1, None));
    assert_eq!(request.with_payload(), Some(WithPayloadInterface::Bool(true)));
    assert_eq!(request.with_vector(), Some(WithVector::Selector(vec!["image".to_string()])));
    let request = SourceRequest::Recommend(recommend(8));
    assert_eq!(request.with_payload(), None);
    assert_eq!(request.with_vector(), None);
    assert_eq!(WithVector::default(), WithVector::Bool(false));
}

#[test]
fn prepare_asks_for_the_key_only() {
    let request = SourceRequest::Search(search(1, Some(Filter::new_must(is_null("x")))));
    let prepared = request.prepare("docId".to_string(), 4, 3);
    assert_eq!(
        prepared,
        SourceRequest::Search(SearchRequest {
            filter: Some(Filter {
                should: None,
                must: Some(vec![is_null("x")]),
                must_not: Some(vec![is_null("docId")]),
            }),
            limit: 12,
            offset: 0,
            with_payload: Some(WithPayloadInterface::Fields(vec!["docId".to_string()])),
            with_vector: None,
        })
    );
    // the request itself is left as it was
    assert_eq!(request, SourceRequest::Search(search(1, Some(Filter::new_must(is_null("x"))))));

    let prepared = SourceRequest::Recommend(recommend(1)).prepare("k".to_string(), 2, 5);
    assert_eq!(
        prepared,
        SourceRequest::Recommend(RecommendRequest {
            positive: vec![1, 2],
            negative: vec![3],
            filter: Some(Filter { should: None, must: None, must_not: Some(vec![is_null("k")]) }),
            limit: 10,
            offset: 4,
            with_payload: Some(WithPayloadInterface::Fields(vec!["k".to_string()])),
            with_vector: None,
        })
    );
}

#[test]
fn match_on_numbers_keeps_the_integers() {
    let values = vec![
        Value::from(1),
        Value::String("a".to_string()),
        Value::from(2.5),
        Value::from(-3),
        Value::Bool(true),
        Value::from(u64::MAX),
    ];
    assert_eq!(match_on("k".to_string(), values), Some(any_integers("k", vec![1, -3])));
    // a number that is no integer still decides the kind
    assert_eq!(
        match_on("k".to_string(), vec![Value::from(0.5), Value::from(4)]),
        Some(any_integers("k", vec![4]))
    );
}

#[test]
fn match_on_texts_keeps_the_texts() {
    let values = vec![
        Value::String("a".to_string()),
        Value::from(1),
        Value::String("".to_string()),
        Value::Null,
        Value::String("b c".to_string()),
    ];
    assert_eq!(match_on("path".to_string(), values), Some(any_keywords("path", &["a", "", "b c"])));
}

#[test]
fn match_on_other_values_makes_no_condition() {
    assert_eq!(match_on("k".to_string(), vec![]), None);
    assert_eq!(match_on("k".to_string(), vec![Value::Bool(true), Value::from(1)]), None);
    assert_eq!(match_on("k".to_string(), vec![Value::Null, Value::String("a".to_string())]), None);
    assert_eq!(match_on("k".to_string(), vec![Value::Array(vec![Value::from(1)])]), None);
}

#[test]
fn any_condition_is_a_match_on_the_field() {
    assert_eq!(
        any_condition("k".to_string(), AnyVariants::Integers(vec![1, 2])),
        any_integers("k", vec![1, 2])
    );
    assert_eq!(
        any_condition("k".to_string(), AnyVariants::Keywords(vec!["a".to_string()])),
        any_keywords("k", &["a"])
    );
}

#[test]
fn grouping_starts_with_looking_for_groups() {
    assert_eq!(MAX_GET_GROUPS_REQUESTS, 5);
    assert_eq!(MAX_GROUP_FILLING_REQUESTS, 5);
    assert_eq!(GroupingStage::start(), GroupingStage::GetGroups { requests_left: 5 });
}

#[test]
fn first_request_only_asks_for_the_key() {
    let request = GroupRequest::new(SourceRequest::Search(search(3, None)), "docId".to_string(), 2);
    let (stage, next) = group_by(&request, GroupingStage::start(), progress(0, vec![], vec![], vec![]));
    assert_eq!(stage, GroupingStage::GetGroups { requests_left: 4 });
    assert_eq!(
        next,
        Some(SourceRequest::Search(SearchRequest {
            filter: Some(Filter {
                should: None,
                must: None,
                must_not: Some(vec![is_null("docId")]),
            }),
            limit: 6,
            offset: 0,
            with_payload: Some(WithPayloadInterface::Fields(vec!["docId".to_string()])),
            with_vector: None,
        }))
    );
}

#[test]
fn later_requests_leave_out_full_groups_and_known_points() {
    let request = GroupRequest::new(SourceRequest::Search(search(3, None)), "docId".to_string(), 2);
    let (stage, next) = group_by(
        &request,
        GroupingStage::GetGroups { requests_left: 2 },
        progress(
            1,
            vec![Value::from(10), Value::from(11)],
            vec![Value::from(12)],
            vec![100, 101, 102],
        ),
    );
    assert_eq!(stage, GroupingStage::GetGroups { requests_left: 1 });
    assert_eq!(
        next,
        Some(SourceRequest::Search(SearchRequest {
            filter: Some(Filter {
                should: None,
                must: None,
                must_not: Some(vec![
                    any_integers("docId", vec![10, 11]),
                    has_id(vec![100, 101, 102]),
                    is_null("docId"),
                ]),
            }),
            limit: 6,
            offset: 0,
            with_payload: Some(WithPayloadInterface::Fields(vec!["docId".to_string()])),
            with_vector: None,
        }))
    );
}

#[test]
fn filling_asks_for_the_groups_that_are_not_full() {
    let request = GroupRequest::new(SourceRequest::Search(search(3, None)), "docId".to_string(), 2);
    let (stage, next) = group_by(
        &request,
        GroupingStage::FillGroups { requests_left: 5 },
        progress(
            2,
            vec![Value::String("a".to_string()), Value::String("b".to_string())],
            vec![Value::String("c".to_string())],
            vec![7],
        ),
    );
    assert_eq!(stage, GroupingStage::FillGroups { requests_left: 4 });
    assert_eq!(
        next,
        Some(SourceRequest::Search(SearchRequest {
            filter: Some(Filter {
                should: None,
                must: Some(vec![any_keywords("docId", &["c"])]),
                must_not: Some(vec![has_id(vec![7]), is_null("docId")]),
            }),
            limit: 6,
            offset: 0,
            with_payload: Some(WithPayloadInterface::Fields(vec!["docId".to_string()])),
            with_vector: None,
        }))
    );
}

#[test]
fn filling_begins_when_the_requests_for_groups_are_used_up() {
    let request = GroupRequest::new(SourceRequest::Search(search(3, None)), "docId".to_string(), 2);
    let (stage, next) = group_by(
        &request,
        GroupingStage::GetGroups { requests_left: 0 },
        progress(1, vec![Value::from(1)], vec![Value::from(2)], vec![]),
    );
    assert_eq!(stage, GroupingStage::FillGroups { requests_left: 4 });
    match next {
        Some(SourceRequest::Search(request)) => {
            assert_eq!(
                request.filter,
                Some(Filter {
                    should: None,
                    must: Some(vec![any_integers("docId", vec![2])]),
                    must_not: Some(vec![is_null("docId")]),
                })
            );
        }
        _ => panic!("a search is expected"),
    }
}

#[test]
fn grouping_is_done_when_enough_groups_are_full() {
    let request = GroupRequest::new(SourceRequest::Search(search(3, None)), "docId".to_string(), 2);
    for stage in [
        GroupingStage::start(),
        GroupingStage::GetGroups { requests_left: 0 },
        GroupingStage::FillGroups { requests_left: 5 },
        GroupingStage::Done,
    ] {
        let (stage, next) = group_by(&request, stage, progress(3, vec![], vec![], vec![1]));
        assert_eq!(stage, GroupingStage::Done);
        assert_eq!(next, None);
    }
    let (stage, next) = group_by(
        &request,
        GroupingStage::FillGroups { requests_left: 0 },
        progress(0, vec![], vec![], vec![]),
    );
    assert_eq!(stage, GroupingStage::Done);
    assert_eq!(next, None);
    let (stage, next) = group_by(&request, GroupingStage::Done, progress(0, vec![], vec![], vec![]));
    assert_eq!(stage, GroupingStage::Done);
    assert_eq!(next, None);
}

#[test]
fn an_answer_without_points_ends_the_stage() {
    let looking = GroupingStage::GetGroups { requests_left: 3 };
    assert_eq!(looking.after_response(false), looking);
    assert_eq!(looking.after_response(true), GroupingStage::FillGroups { requests_left: 5 });
    let filling = GroupingStage::FillGroups { requests_left: 2 };
    assert_eq!(filling.after_response(false), filling);
    assert_eq!(filling.after_response(true), GroupingStage::Done);
    assert_eq!(GroupingStage::Done.after_response(true), GroupingStage::Done);
    assert_eq!(GroupingStage::Done.after_response(false), GroupingStage::Done);
}

#[test]
fn at_most_ten_requests_are_planned() {
    let request = GroupRequest::new(SourceRequest::Recommend(recommend(2)), "k".to_string(), 2);
    let mut stage = GroupingStage::start();
    let mut requests = 0;
    loop {
        let (next_stage, next) = group_by(&request, stage, progress(0, vec![], vec![], vec![]));
        stage = next_stage;
        match next {
            Some(_) => requests += 1,
            None => break,
        }
        stage = stage.after_response(false);
    }
    assert_eq!(requests, 10);
    assert_eq!(stage, GroupingStage::Done);
}
