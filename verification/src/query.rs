//! Query strings.
use vstd::prelude::*;
use vstd::string::*;

use crate::models::{ConsumerGroupQuery, PartitionRange};
use crate::outside::write_form;
use crate::text::{decimal_text, signed_decimal_text};

verus! {

/// A parameter that may be left out.
pub open spec fn optional(name: Seq<char>, value: Option<Seq<char>>) -> Seq<
    (Seq<char>, Seq<char>),
> {
    match value {
        Some(value) => seq![(name, value)],
        None => Seq::empty(),
    }
}

/// The text of an optional text.
pub open spec fn optional_text(value: Option<String>) -> Option<Seq<char>> {
    match value {
        Some(value) => Some(value@),
        None => None,
    }
}

/// Adds one parameter.
fn push_param(params: &mut Vec<(String, String)>, name: &str, value: String)
    ensures
        crate::outside::pair_texts(final(params)@) == crate::outside::pair_texts(
            old(params)@,
        ).push((name@, value@)),
{
    params.push((name.to_owned(), value));
    assert(crate::outside::pair_texts(params@) =~= crate::outside::pair_texts(old(params)@).push(
        (name@, value@),
    ));
}

/// The parameters of a query for consumer groups: what the query leaves open is left out.
pub open spec fn consumer_group_pairs(query: ConsumerGroupQuery) -> Seq<(Seq<char>, Seq<char>)> {
    optional(
        "limit"@,
        match query.limit {
            Some(limit) => Some(crate::text::decimal(limit as nat)),
            None => None,
        },
    ) + optional("cursor"@, optional_text(query.cursor)) + optional(
        "$filter"@,
        optional_text(query.filter),
    ) + optional("$orderby"@, optional_text(query.orderby))
}

/// The parameters of a query for consumer groups.
pub fn consumer_group_params(query: ConsumerGroupQuery) -> (r: Vec<(String, String)>)
    ensures
        crate::outside::pair_texts(r@) == consumer_group_pairs(query),
{
    let mut params: Vec<(String, String)> = Vec::new();
    if let Some(limit) = query.limit {
        push_param(&mut params, "limit", decimal_text(limit as u64));
    }
    if let Some(cursor) = query.cursor {
        push_param(&mut params, "cursor", cursor);
    }
    if let Some(filter) = query.filter {
        push_param(&mut params, "$filter", filter);
    }
    if let Some(orderby) = query.orderby {
        push_param(&mut params, "$orderby", orderby);
    }
    assert(crate::outside::pair_texts(params@) =~= consumer_group_pairs(query));
    params
}

/// The parameters of a query for a partition's segments: bounds that are open are left out.
pub open spec fn segment_pairs(
    topic: Seq<char>,
    partition: u32,
    range: PartitionRange,
) -> Seq<(Seq<char>, Seq<char>)> {
    seq![("topic"@, topic), ("partition"@, crate::text::decimal(partition as nat))] + optional(
        "start_offset"@,
        match range.start_offset {
            Some(start) => Some(crate::text::signed_decimal(start.0 as int)),
            None => None,
        },
    ) + optional(
        "end_offset"@,
        match range.end_offset {
            Some(end) => Some(crate::text::signed_decimal(end.0 as int)),
            None => None,
        },
    ) + seq![("limit"@, crate::text::decimal(range.limit as nat))]
}

/// The parameters of a query for a partition's segments.
pub fn segment_params(topic: &str, partition: u32, range: PartitionRange) -> (r: Vec<
    (String, String),
>)
    ensures
        crate::outside::pair_texts(r@) == segment_pairs(topic@, partition, range),
{
    let mut params: Vec<(String, String)> = Vec::new();
    push_param(&mut params, "topic", topic.to_owned());
    push_param(&mut params, "partition", decimal_text(partition as u64));
    if let Some(start) = range.start_offset {
        push_param(&mut params, "start_offset", signed_decimal_text(start.as_i64()));
    }
    if let Some(end) = range.end_offset {
        push_param(&mut params, "end_offset", signed_decimal_text(end.as_i64()));
    }
    push_param(&mut params, "limit", decimal_text(range.limit as u64));
    assert(crate::outside::pair_texts(params@) =~= segment_pairs(topic@, partition, range));
    params
}

/// Parameters as a query string.
pub fn query_string(params: &Vec<(String, String)>) -> (r: String)
    ensures
        r@ == crate::outside::form_text(crate::outside::pair_texts(params@)),
{
    match write_form(params) {
        Ok(text) => text,
        Err(_) => String::new(),
    }
}

/// A path with its query, which is left off where it is empty.
pub open spec fn queried(path: Seq<char>, query: Seq<char>) -> Seq<char> {
    if query.len() == 0 {
        path
    } else {
        path + "?"@ + query
    }
}

/// Appends a query to a path, unless it is empty.
pub fn with_query(path: String, query: &str) -> (r: String)
    ensures
        r@ == queried(path@, query@),
{
    if query.is_empty() {
        path
    } else {
        path.concat("?").concat(query)
    }
}

/// A query for consumer groups that leaves everything open asks the bare path, and any other
/// does not.
pub proof fn law_only_an_open_query_asks_the_bare_path(path: Seq<char>, query: ConsumerGroupQuery)
    ensures
        (queried(path, crate::outside::form_text(consumer_group_pairs(query))) == path) <==> (
        query.limit is None && query.cursor is None && query.filter is None && query.orderby
            is None),
{
    let pairs = consumer_group_pairs(query);
    crate::outside::law_form_is_empty_only_without_pairs(pairs);
    reveal_strlit("?");
    if pairs.len() > 0 {
        let whole = queried(path, crate::outside::form_text(pairs));
        assert(whole.len() > path.len());
    }
}

/// How many of some optional parameters there are.
pub open spec fn present(given: bool) -> int {
    if given {
        1
    } else {
        0
    }
}

/// A query for consumer groups has one parameter for each thing that it asks for, in a fixed
/// order and under a fixed name, and no other: a limit in decimal, and the rest as it is given.
pub proof fn law_group_queries_ask_for_what_is_given(query: ConsumerGroupQuery)
    ensures
        ({
            let pairs = consumer_group_pairs(query);
            let a = present(query.limit is Some);
            let b = a + present(query.cursor is Some);
            let c = b + present(query.filter is Some);
            &&& pairs.len() == c + present(query.orderby is Some)
            &&& query.limit is Some ==> pairs[0].0 == "limit"@ && pairs[0].1
                == crate::text::decimal(query.limit->0 as nat)
            &&& query.cursor is Some ==> pairs[a].0 == "cursor"@ && pairs[a].1
                == query.cursor->0@
            &&& query.filter is Some ==> pairs[b].0 == "$filter"@ && pairs[b].1
                == query.filter->0@
            &&& query.orderby is Some ==> pairs[c].0 == "$orderby"@ && pairs[c].1
                == query.orderby->0@
        }),
{
}

/// A query for segments names the topic, the partition, each bound that is given and the limit,
/// in this order; numbers are in decimal.
pub proof fn law_segment_queries_ask_for_what_is_given(
    topic: Seq<char>,
    partition: u32,
    range: PartitionRange,
)
    ensures
        ({
            let pairs = segment_pairs(topic, partition, range);
            let a = 2 + present(range.start_offset is Some);
            let b = a + present(range.end_offset is Some);
            &&& pairs.len() == b + 1
            &&& pairs[0].0 == "topic"@ && pairs[0].1 == topic
            &&& pairs[1].0 == "partition"@ && pairs[1].1 == crate::text::decimal(
                partition as nat,
            )
            &&& range.start_offset is Some ==> pairs[2].0 == "start_offset"@ && pairs[2].1
                == crate::text::signed_decimal(range.start_offset.unwrap().0 as int)
            &&& range.end_offset is Some ==> pairs[a].0 == "end_offset"@ && pairs[a].1
                == crate::text::signed_decimal(range.end_offset.unwrap().0 as int)
            &&& pairs[b].0 == "limit"@ && pairs[b].1 == crate::text::decimal(range.limit as nat)
        }),
{
}

/// A query stands behind a question mark, and an empty one leaves the path as it is.
pub proof fn law_queries_stand_behind_the_path(path: Seq<char>, query: Seq<char>)
    ensures
        query.len() == 0 ==> queried(path, query) == path,
        query.len() > 0 ==> queried(path, query) == path.push('?') + query,
{
    reveal_strlit("?");
    if query.len() > 0 {
        assert(queried(path, query) =~= path.push('?') + query);
    }
}

} // verus!
