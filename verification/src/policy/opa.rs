//! Reading the answer of an external declarative-policy engine.

use crate::common::error::McpResult;
use crate::common::text::{str_equal, views};
use crate::policy::models::{PolicyDecision, PolicyDecisionView};
use std::collections::HashMap;
use vstd::prelude::*;

verus! {

/// A JSON document as a tree of plain values.
#[derive(Debug)]
pub enum JsonValue {
    Null,
    Bool(bool),
    /// A number, as the text that stands for it.
    Number(String),
    Text(String),
    Array(Vec<JsonValue>),
    /// The fields of an object, in the order of the document.
    Object(Vec<(String, JsonValue)>),
}

/// The map of JSON strings that `serde_json` and std make of keys with
/// their texts.
pub uninterp spec fn metadata_of(pairs: Seq<(Seq<char>, Seq<char>)>) -> Map<
    String,
    serde_json::Value,
>;

/// Collects keys with their texts into a map of std whose values are
/// `serde_json::Value::String`; the map depends on the keys and texts
/// alone.
#[verifier::external_body]
fn text_metadata(pairs: &Vec<(String, String)>) -> (metadata: HashMap<String, serde_json::Value>)
    ensures
        metadata@ == metadata_of(pairs_view(pairs@)),
{
    pairs.iter().map(|pair| (pair.0.clone(), serde_json::Value::String(pair.1.clone()))).collect()
}

/// The keys and texts of a list of pairs, in order.
pub open spec fn pairs_view(pairs: Seq<(String, String)>) -> Seq<(Seq<char>, Seq<char>)> {
    Seq::new(pairs.len(), |i: int| (pairs[i].0@, pairs[i].1@))
}

/// The value of the first field with the given key.
pub open spec fn lookup(fields: Seq<(String, JsonValue)>, key: Seq<char>) -> Option<JsonValue>
    decreases fields.len(),
{
    if fields.len() == 0 {
        None
    } else if fields[0].0@ == key {
        Some(fields[0].1)
    } else {
        lookup(fields.drop_first(), key)
    }
}

/// The texts among the items, in order; items of other kinds are passed
/// over.
pub open spec fn texts(items: Seq<JsonValue>) -> Seq<Seq<char>>
    decreases items.len(),
{
    if items.len() == 0 {
        Seq::empty()
    } else {
        match items.last() {
            JsonValue::Text(t) => texts(items.drop_last()).push(t@),
            _ => texts(items.drop_last()),
        }
    }
}

/// The fields whose values are texts, in order, each with its text.
pub open spec fn text_fields(fields: Seq<(String, JsonValue)>) -> Seq<(Seq<char>, Seq<char>)>
    decreases fields.len(),
{
    if fields.len() == 0 {
        Seq::empty()
    } else {
        match fields.last().1 {
            JsonValue::Text(t) => text_fields(fields.drop_last()).push((fields.last().0@, t@)),
            _ => text_fields(fields.drop_last()),
        }
    }
}

/// The texts of the array under `key`; none where the field is missing or
/// is no array.
pub open spec fn texts_under(fields: Seq<(String, JsonValue)>, key: Seq<char>) -> Seq<Seq<char>> {
    match lookup(fields, key) {
        Some(JsonValue::Array(items)) => texts(items@),
        _ => Seq::empty(),
    }
}

/// The metadata that an answer carries: the fields of the object under
/// `metadata` whose values are texts.
pub open spec fn metadata_under(fields: Seq<(String, JsonValue)>) -> Map<String, serde_json::Value> {
    match lookup(fields, "metadata"@) {
        Some(JsonValue::Object(inner)) => if text_fields(inner@).len() == 0 {
            Map::empty()
        } else {
            metadata_of(text_fields(inner@))
        },
        _ => Map::empty(),
    }
}

/// The decision that an answer of the engine stands for. An answer that
/// is no object denies, without reasons. In an object, `allow` counts
/// where it is a boolean and is false otherwise; `warnings` and `reasons`
/// give their texts; `metadata` gives its texts.
pub open spec fn opa_decision(answer: JsonValue) -> PolicyDecisionView {
    match answer {
        JsonValue::Object(fields) => PolicyDecisionView {
            allow: match lookup(fields@, "allow"@) {
                Some(JsonValue::Bool(flag)) => flag,
                _ => false,
            },
            warnings: texts_under(fields@, "warnings"@),
            reasons: texts_under(fields@, "reasons"@),
            metadata: metadata_under(fields@),
        },
        _ => PolicyDecisionView::denied(Seq::empty()),
    }
}

fn find<'a>(fields: &'a Vec<(String, JsonValue)>, key: &str) -> (found: Option<&'a JsonValue>)
    ensures
        found is Some <==> lookup(fields@, key@) is Some,
        found is Some ==> *found->0 == lookup(fields@, key@)->0,
{
    let mut i: usize = 0;
    proof {
        assert(fields@.subrange(0, fields@.len() as int) =~= fields@);
    }
    while i < fields.len()
        invariant
            i <= fields.len(),
            lookup(fields@, key@) == lookup(fields@.subrange(i as int, fields@.len() as int), key@),
        decreases fields.len() - i,
    {
        let ghost rest = fields@.subrange(i as int, fields@.len() as int);
        proof {
            assert(rest[0] == fields@[i as int]);
            assert(rest.drop_first() =~= fields@.subrange(i + 1, fields@.len() as int));
        }
        if str_equal(fields[i].0.as_str(), key) {
            return Some(&fields[i].1);
        }
        i = i + 1;
    }
    proof {
        assert(fields@.subrange(i as int, fields@.len() as int).len() == 0);
    }
    None
}

fn collect_texts(items: &Vec<JsonValue>) -> (out: Vec<String>)
    ensures
        views(out@) == texts(items@),
{
    let mut out: Vec<String> = Vec::new();
    let mut i: usize = 0;
    proof {
        assert(items@.take(0) =~= Seq::<JsonValue>::empty());
        assert(views(out@) =~= texts(items@.take(0)));
    }
    while i < items.len()
        invariant
            i <= items.len(),
            views(out@) == texts(items@.take(i as int)),
        decreases items.len() - i,
    {
        let ghost before = views(out@);
        proof {
            let next = items@.take(i + 1);
            assert(next.drop_last() =~= items@.take(i as int));
            assert(next.last() == items@[i as int]);
        }
        if let JsonValue::Text(t) = &items[i] {
            out.push(t.clone());
            proof {
                assert(views(out@) =~= before.push(t@));
            }
        }
        i = i + 1;
    }
    proof {
        assert(items@.take(items.len() as int) =~= items@);
    }
    out
}

fn collect_text_fields(fields: &Vec<(String, JsonValue)>) -> (out: Vec<(String, String)>)
    ensures
        pairs_view(out@) == text_fields(fields@),
{
    let mut out: Vec<(String, String)> = Vec::new();
    let mut i: usize = 0;
    proof {
        assert(fields@.take(0) =~= Seq::<(String, JsonValue)>::empty());
        assert(pairs_view(out@) =~= text_fields(fields@.take(0)));
    }
    while i < fields.len()
        invariant
            i <= fields.len(),
            pairs_view(out@) == text_fields(fields@.take(i as int)),
        decreases fields.len() - i,
    {
        let ghost before = pairs_view(out@);
        proof {
            let next = fields@.take(i + 1);
            assert(next.drop_last() =~= fields@.take(i as int));
            assert(next.last() == fields@[i as int]);
        }
        if let JsonValue::Text(t) = &fields[i].1 {
            out.push((fields[i].0.clone(), t.clone()));
            proof {
                assert(pairs_view(out@) =~= before.push((fields@[i as int].0@, t@)));
            }
        }
        i = i + 1;
    }
    proof {
        assert(fields@.take(fields.len() as int) =~= fields@);
    }
    out
}

fn texts_of_field(fields: &Vec<(String, JsonValue)>, key: &str) -> (out: Vec<String>)
    ensures
        views(out@) == texts_under(fields@, key@),
{
    match find(fields, key) {
        Some(JsonValue::Array(items)) => collect_texts(items),
        _ => {
            let out: Vec<String> = Vec::new();
            assert(views(out@) =~= Seq::<Seq<char>>::empty());
            out
        },
    }
}

/// The decision that an answer of the engine stands for.
pub fn decision_from_tree(answer: &JsonValue) -> (decision: PolicyDecision)
    ensures
        decision@ == opa_decision(*answer),
{
    match answer {
        JsonValue::Object(fields) => {
            let allow = match find(fields, "allow") {
                Some(JsonValue::Bool(flag)) => *flag,
                _ => false,
            };
            let warnings = texts_of_field(fields, "warnings");
            let reasons = texts_of_field(fields, "reasons");
            let metadata = match find(fields, "metadata") {
                Some(JsonValue::Object(inner)) => {
                    let pairs = collect_text_fields(inner);
                    if pairs.len() == 0 {
                        HashMap::new()
                    } else {
                        text_metadata(&pairs)
                    }
                },
                _ => HashMap::new(),
            };
            let decision = PolicyDecision { allow, warnings, reasons, metadata };
            proof {
                assert(decision@.allow == opa_decision(*answer).allow);
                assert(decision@.warnings == opa_decision(*answer).warnings);
                assert(decision@.reasons == opa_decision(*answer).reasons);
                assert(decision@.metadata == opa_decision(*answer).metadata);
            }
            decision
        },
        _ => {
            let none: Vec<String> = Vec::new();
            assert(views(none@) =~= Seq::<Seq<char>>::empty());
            PolicyDecision::denied(none)
        },
    }
}

/// Converts the answer of the engine into a decision. Never fails:
/// whatever cannot be read denies.
pub fn parse_opa_result(result: JsonValue) -> (decision: McpResult<PolicyDecision>)
    ensures
        decision is Ok,
        decision->Ok_0@ == opa_decision(result),
{
    Ok(decision_from_tree(&result))
}

/// An answer that allows nothing explicitly denies: without a boolean
/// `allow` the decision is a denial.
pub proof fn lemma_unreadable_answer_denies(answer: JsonValue)
    requires
        !(answer is Object) || !(lookup(answer->Object_0@, "allow"@) is Some && lookup(
            answer->Object_0@,
            "allow"@,
        )->0 is Bool),
    ensures
        !opa_decision(answer).allow,
{
}

} // verus!
