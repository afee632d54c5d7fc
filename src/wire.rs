use vstd::prelude::*;
use crate::tokens::{
    decoded, entry_view, field_entries, result_view, decode_fields, AuthTokensQuery, DecodeError, Entries,
    FieldValue, FieldView, TokensView,
};

verus! {

/// The members of a JSON object, as name/value pairs, when the text is one
/// JSON object; `None` for any other text.
pub uninterp spec fn json_object_entries(text: Seq<char>) -> Option<Entries>;

/// The name/value pairs of an `application/x-www-form-urlencoded` query,
/// percent-decoded and in order; `None` where the query cannot be read.
pub uninterp spec fn urlencoded_pairs(query: Seq<char>) -> Option<Seq<(Seq<char>, Seq<char>)>>;

pub open spec fn opt_entries(r: Option<Vec<(String, FieldValue)>>) -> Option<Entries> {
    match r {
        Some(v) => Some(field_entries(v@)),
        None => None,
    }
}

pub open spec fn pairs_view(v: Seq<(String, String)>) -> Seq<(Seq<char>, Seq<char>)> {
    v.map_values(|p: (String, String)| (p.0@, p.1@))
}

pub open spec fn opt_pairs(r: Option<Vec<(String, String)>>) -> Option<Seq<(Seq<char>, Seq<char>)>> {
    match r {
        Some(v) => Some(pairs_view(v@)),
        None => None,
    }
}

/// Every query parameter is a string.
pub open spec fn query_entries(pairs: Seq<(Seq<char>, Seq<char>)>) -> Entries {
    pairs.map_values(|p: (Seq<char>, Seq<char>)| (p.0, FieldView::Text(p.1)))
}

/// What a JSON text decodes to.
pub open spec fn json_decoded(text: Seq<char>) -> Result<TokensView, DecodeError> {
    match json_object_entries(text) {
        Some(entries) => decoded(entries),
        None => Err(DecodeError::Malformed),
    }
}

/// What the query string of a request target decodes to.
pub open spec fn query_decoded(query: Seq<char>) -> Result<TokensView, DecodeError> {
    match urlencoded_pairs(query) {
        Some(pairs) => decoded(query_entries(pairs)),
        None => Err(DecodeError::Malformed),
    }
}

/// Relies on `serde_json::from_str` reading the text as one `serde_json::Value`;
/// an object's members are handed on as pairs, a null or string value as such
/// and any other value as `Other`.
#[verifier::external_body]
fn json_object_fields(text: &str) -> (r: Option<Vec<(String, FieldValue)>>)
    ensures
        opt_entries(r) == json_object_entries(text@),
{
    match serde_json::from_str::<serde_json::Value>(text) {
        Ok(serde_json::Value::Object(members)) => Some(members.into_iter().map(|(k, v)| (k, match v {
            serde_json::Value::Null => FieldValue::Null,
            serde_json::Value::String(s) => FieldValue::Text(s),
            _ => FieldValue::Other,
        })).collect()),
        _ => None,
    }
}

/// Relies on `serde_urlencoded::from_str` reading the query as a list of
/// name/value string pairs.
#[verifier::external_body]
fn query_pairs(query: &str) -> (r: Option<Vec<(String, String)>>)
    ensures
        opt_pairs(r) == urlencoded_pairs(query@),
{
    serde_urlencoded::from_str::<Vec<(String, String)>>(query).ok()
}

/// Turns query parameters into named string values.
pub fn query_fields(pairs: &Vec<(String, String)>) -> (r: Vec<(String, FieldValue)>)
    ensures
        field_entries(r@) == query_entries(pairs_view(pairs@)),
{
    let ghost all = pairs_view(pairs@);
    let mut r: Vec<(String, FieldValue)> = Vec::new();
    let mut i: usize = 0;
    while i < pairs.len()
        invariant
            i <= pairs.len(),
            all == pairs_view(pairs@),
            r@.len() == i,
            field_entries(r@) == query_entries(all.take(i as int)),
        decreases pairs.len() - i,
    {
        let k = pairs[i].0.clone();
        let v = pairs[i].1.clone();
        let ghost old_r = r@;
        let ghost kv = k@;
        let ghost vv = v@;
        r.push((k, FieldValue::Text(v)));
        proof {
            assert(entry_view(r@[i as int]) == (kv, FieldView::Text(vv)));
            assert(field_entries(r@)[i as int] == (all[i as int].0, FieldView::Text(all[i as int].1)));
            assert(all.take(i + 1) =~= all.take(i as int).push(all[i as int]));
            assert forall|j: int| 0 <= j < i implies field_entries(r@)[j] == query_entries(all.take(i + 1))[j] by {
                assert(r@[j] == old_r[j]);
                assert(field_entries(old_r)[j] == query_entries(all.take(i as int))[j]);
                assert(all.take(i + 1)[j] == all.take(i as int)[j]);
            }
            assert(field_entries(r@) =~= query_entries(all.take(i + 1)));
        }
        i = i + 1;
    }
    proof {
        assert(all.take(pairs.len() as int) =~= all);
    }
    r
}

/// Decodes the tokens from a JSON object.
pub fn decode_json(text: &str) -> (r: Result<AuthTokensQuery, DecodeError>)
    ensures
        result_view(r) == json_decoded(text@),
{
    match json_object_fields(text) {
        Some(fields) => decode_fields(&fields),
        None => Err(DecodeError::Malformed),
    }
}

/// Decodes the tokens from the query string of a request target.
pub fn decode_query(query: &str) -> (r: Result<AuthTokensQuery, DecodeError>)
    ensures
        result_view(r) == query_decoded(query@),
{
    match query_pairs(query) {
        Some(pairs) => {
            let fields = query_fields(&pairs);
            decode_fields(&fields)
        },
        None => Err(DecodeError::Malformed),
    }
}

/// Decoding has no hidden state: the same query string, decoded twice,
/// gives the same result.
pub proof fn lemma_decode_query_repeatable(first: Seq<char>, second: Seq<char>)
    requires
        first == second,
    ensures
        query_decoded(first) == query_decoded(second),
{
}

/// Decoding has no hidden state: the same JSON text, decoded twice, gives
/// the same result.
pub proof fn lemma_decode_json_repeatable(first: Seq<char>, second: Seq<char>)
    requires
        first == second,
    ensures
        json_decoded(first) == json_decoded(second),
{
}

} // verus!
