//! The canonicalizer: from request parameters to the exact text that is
//! signed and sent.

use vstd::prelude::*;
use vstd::string::*;
use crate::json::{json_quoted, quote_text, Json};

verus! {

/// Whether a request writes (its parameters travel as a JSON body) or reads
/// (they travel in the query string).
#[derive(Clone, Copy, Debug, PartialEq, Eq)]
pub enum RequestKind {
    Write,
    Read,
}

/// What can go wrong before a request leaves.
#[derive(Debug, PartialEq, Eq)]
pub enum RequestError {
    /// The API key or the secret is absent.
    MissingCredential,
    /// A parameter cannot be rendered as the request kind demands.
    MalformedParameters,
    /// The system clock stands before the Unix epoch: there is no timestamp
    /// to sign.
    ClockBeforeEpoch,
}

/// The compact JSON text of a value. Members and items keep their order.
pub open spec fn value_text(value: Json) -> Seq<char>
    decreases value, 0nat,
{
    match value {
        Json::Null => "null"@,
        Json::Bool(b) => if b { "true"@ } else { "false"@ },
        Json::Number(literal) => literal@,
        Json::Text(text) => json_quoted(text@),
        Json::Array(items) => "["@ + items_text(items@) + "]"@,
        Json::Object(members) => "{"@ + members_text(members@) + "}"@,
    }
}

/// The items of an array, each as JSON text, with commas between them.
pub open spec fn items_text(items: Seq<Json>) -> Seq<char>
    decreases items, 1nat,
{
    if items.len() == 0 {
        Seq::empty()
    } else if items.len() == 1 {
        value_text(items.last())
    } else {
        items_text(items.drop_last()) + ","@ + value_text(items.last())
    }
}

/// One member of an object: the quoted name, a colon, the value.
pub open spec fn member_text(name: Seq<char>, value: Json) -> Seq<char>
    decreases value, 1nat,
{
    json_quoted(name) + ":"@ + value_text(value)
}

/// The members of an object, each as JSON text, with commas between them.
pub open spec fn members_text(members: Seq<(String, Json)>) -> Seq<char>
    decreases members, 2nat,
{
    if members.len() == 0 {
        Seq::empty()
    } else if members.len() == 1 {
        member_text(members.last().0@, members.last().1)
    } else {
        members_text(members.drop_last()) + ","@ + member_text(
            members.last().0@,
            members.last().1,
        )
    }
}

/// The text of a value that can stand in a query string as it is: a string's
/// characters, a number's literal, `true` or `false`. Nothing else has one.
pub open spec fn plain_text(value: Json) -> Option<Seq<char>> {
    match value {
        Json::Text(text) => Some(text@),
        Json::Number(literal) => Some(literal@),
        Json::Bool(b) => Some(if b { "true"@ } else { "false"@ }),
        _ => None,
    }
}

/// Whether every parameter has a plain text.
pub open spec fn all_plain(params: Seq<(String, Json)>) -> bool {
    forall|i: int| 0 <= i < params.len() ==> (#[trigger] plain_text(params[i].1)) is Some
}

/// One `name=value` pair of a query string, with nothing escaped.
pub open spec fn pair_text(name: Seq<char>, value: Json) -> Seq<char> {
    name + "="@ + plain_text(value).unwrap()
}

/// The pairs of a query string in the order of the parameters, joined by `&`.
pub open spec fn query_text(params: Seq<(String, Json)>) -> Seq<char>
    decreases params.len(),
{
    if params.len() == 0 {
        Seq::empty()
    } else if params.len() == 1 {
        pair_text(params.last().0@, params.last().1)
    } else {
        query_text(params.drop_last()) + "&"@ + pair_text(params.last().0@, params.last().1)
    }
}

/// The JSON body of a write request: an object whose members are the
/// parameters in their order.
pub open spec fn body_text(params: Seq<(String, Json)>) -> Seq<char> {
    "{"@ + members_text(params) + "}"@
}

/// The canonical payload of a request, or the error that stands for it.
pub open spec fn canonical_text(params: Seq<(String, Json)>, kind: RequestKind) -> Result<
    Seq<char>,
    RequestError,
> {
    match kind {
        RequestKind::Write => Ok(body_text(params)),
        RequestKind::Read => if all_plain(params) {
            Ok(query_text(params))
        } else {
            Err(RequestError::MalformedParameters)
        },
    }
}

/// Prints a value as compact JSON text.
pub fn render(value: &Json) -> (r: String)
    ensures
        r@ == value_text(*value),
    decreases *value, 0nat,
{
    match value {
        Json::Null => String::from_str("null"),
        Json::Bool(b) => if *b {
            String::from_str("true")
        } else {
            String::from_str("false")
        },
        Json::Number(literal) => literal.clone(),
        Json::Text(text) => quote_text(text.as_str()),
        Json::Array(items) => {
            let mut out = String::from_str("[");
            let mut i: usize = 0;
            while i < items.len()
                invariant
                    i <= items.len(),
                    out@ == "["@ + items_text(items@.take(i as int)),
                    decreases_to!(*value => items),
                decreases items.len() - i,
            {
                if i > 0 {
                    out.append(",");
                }
                let piece = render(&items[i]);
                out.append(piece.as_str());
                proof {
                    assert(items@.take(i + 1).drop_last() =~= items@.take(i as int));
                    assert(items@.take(i + 1).last() == items@[i as int]);
                }
                i += 1;
            }
            out.append("]");
            assert(items@.take(items.len() as int) =~= items@);
            out
        },
        Json::Object(members) => write_body(members),
    }
}

/// Prints parameters as the JSON object that a write request carries.
pub fn write_body(params: &Vec<(String, Json)>) -> (r: String)
    ensures
        r@ == body_text(params@),
    decreases *params, 1nat,
{
    let mut out = String::from_str("{");
    let mut i: usize = 0;
    while i < params.len()
        invariant
            i <= params.len(),
            out@ == "{"@ + members_text(params@.take(i as int)),
        decreases params.len() - i,
    {
        if i > 0 {
            out.append(",");
        }
        let name = quote_text(params[i].0.as_str());
        out.append(name.as_str());
        out.append(":");
        let piece = render(&params[i].1);
        out.append(piece.as_str());
        proof {
            assert(params@.take(i + 1).drop_last() =~= params@.take(i as int));
            assert(params@.take(i + 1).last() == params@[i as int]);
            assert(member_text(params@[i as int].0@, params@[i as int].1) == json_quoted(
                params@[i as int].0@,
            ) + ":"@ + value_text(params@[i as int].1));
            assert(out@ =~= "{"@ + members_text(params@.take(i + 1)));
        }
        i += 1;
    }
    out.append("}");
    assert(params@.take(params.len() as int) =~= params@);
    out
}

/// Renders a parameter value as plain text, where it has one.
pub fn plain(value: &Json) -> (r: Option<String>)
    ensures
        match r {
            Some(text) => plain_text(*value) == Some(text@),
            None => plain_text(*value) is None,
        },
{
    match value {
        Json::Text(text) => Some(text.clone()),
        Json::Number(literal) => Some(literal.clone()),
        Json::Bool(b) => if *b {
            Some(String::from_str("true"))
        } else {
            Some(String::from_str("false"))
        },
        _ => None,
    }
}

/// Prints parameters as the query string of a read request: `name=value`
/// pairs in the order of the parameters, joined by `&`, nothing escaped.
/// Fails on the first parameter whose value has no plain text.
pub fn read_query(params: &Vec<(String, Json)>) -> (r: Result<String, RequestError>)
    ensures
        match r {
            Ok(text) => all_plain(params@) && text@ == query_text(params@),
            Err(e) => !all_plain(params@) && e == RequestError::MalformedParameters,
        },
{
    let mut out = String::new();
    let mut i: usize = 0;
    while i < params.len()
        invariant
            i <= params.len(),
            all_plain(params@.take(i as int)),
            out@ == query_text(params@.take(i as int)),
        decreases params.len() - i,
    {
        let value = match plain(&params[i].1) {
            Some(text) => text,
            None => {
                return Err(RequestError::MalformedParameters);
            },
        };
        if i > 0 {
            out.append("&");
        }
        out.append(params[i].0.as_str());
        out.append("=");
        out.append(value.as_str());
        proof {
            assert(params@.take(i + 1).drop_last() =~= params@.take(i as int));
            assert(params@.take(i + 1).last() == params@[i as int]);
            assert forall|k: int| 0 <= k < i + 1 implies (#[trigger] plain_text(
                params@.take(i + 1)[k].1,
            )) is Some by {
                if k < i {
                    assert(params@.take(i as int)[k] == params@[k]);
                }
            }
        }
        i += 1;
    }
    assert(params@.take(params.len() as int) =~= params@);
    Ok(out)
}

/// Turns parameters into the canonical payload for a kind of request.
pub fn canonicalize(params: &Vec<(String, Json)>, kind: RequestKind) -> (r: Result<
    String,
    RequestError,
>)
    ensures
        match r {
            Ok(text) => canonical_text(params@, kind) == Ok::<Seq<char>, RequestError>(text@),
            Err(e) => canonical_text(params@, kind) == Err::<Seq<char>, RequestError>(e),
        },
{
    match kind {
        RequestKind::Write => Ok(write_body(params)),
        RequestKind::Read => read_query(params),
    }
}

/// One member of a JSON object whose value is a string.
pub open spec fn text_member(name: Seq<char>, value: Seq<char>) -> Seq<char> {
    json_quoted(name) + ":"@ + json_quoted(value)
}

/// The members of a JSON object whose values are all strings, in order,
/// with commas between them.
pub open spec fn text_members(pairs: Seq<(Seq<char>, Seq<char>)>) -> Seq<char>
    decreases pairs.len(),
{
    if pairs.len() == 0 {
        Seq::empty()
    } else if pairs.len() == 1 {
        text_member(pairs.last().0, pairs.last().1)
    } else {
        text_members(pairs.drop_last()) + ","@ + text_member(pairs.last().0, pairs.last().1)
    }
}

/// The query string of parameters whose values are all strings: `name=value`
/// pairs in order, joined by `&`, nothing escaped.
pub open spec fn text_query(pairs: Seq<(Seq<char>, Seq<char>)>) -> Seq<char>
    decreases pairs.len(),
{
    if pairs.len() == 0 {
        Seq::empty()
    } else if pairs.len() == 1 {
        pairs.last().0 + "="@ + pairs.last().1
    } else {
        text_query(pairs.drop_last()) + "&"@ + (pairs.last().0 + "="@ + pairs.last().1)
    }
}

/// The canonical payload of parameters whose values are all strings.
pub open spec fn text_payload(pairs: Seq<(Seq<char>, Seq<char>)>, kind: RequestKind) -> Seq<char> {
    match kind {
        RequestKind::Write => "{"@ + text_members(pairs) + "}"@,
        RequestKind::Read => text_query(pairs),
    }
}

/// Whether parameters are strings throughout, with given names and values.
pub open spec fn spells_pairs(
    params: Seq<(String, Json)>,
    pairs: Seq<(Seq<char>, Seq<char>)>,
) -> bool {
    &&& params.len() == pairs.len()
    &&& forall|i: int|
        0 <= i < params.len() ==> {
            &&& (#[trigger] params[i]).0@ == pairs[i].0
            &&& params[i].1 matches Json::Text(text)
            &&& text@ == pairs[i].1
        }
}

proof fn text_parameters_render_alike(
    params: Seq<(String, Json)>,
    pairs: Seq<(Seq<char>, Seq<char>)>,
)
    requires
        spells_pairs(params, pairs),
    ensures
        all_plain(params),
        members_text(params) == text_members(pairs),
        query_text(params) == text_query(pairs),
    decreases params.len(),
{
    assert forall|i: int| 0 <= i < params.len() implies (#[trigger] plain_text(params[i].1)) is Some by {
        assert(params[i].1 is Text);
    }
    if params.len() > 0 {
        let last = params.last();
        assert(last.1 is Text);
        assert(value_text(last.1) == json_quoted(pairs.last().1));
        assert(member_text(last.0@, last.1) == text_member(pairs.last().0, pairs.last().1));
        assert(pair_text(last.0@, last.1) == pairs.last().0 + "="@ + pairs.last().1);
        if params.len() > 1 {
            assert(spells_pairs(params.drop_last(), pairs.drop_last()));
            text_parameters_render_alike(params.drop_last(), pairs.drop_last());
        }
    }
}

/// Parameters that are strings throughout always have a canonical payload,
/// of either kind, and it depends on their names and values alone.
pub proof fn text_parameters_are_canonical(
    params: Seq<(String, Json)>,
    pairs: Seq<(Seq<char>, Seq<char>)>,
    kind: RequestKind,
)
    requires
        spells_pairs(params, pairs),
    ensures
        canonical_text(params, kind) == Ok::<Seq<char>, RequestError>(text_payload(pairs, kind)),
{
    text_parameters_render_alike(params, pairs);
}

/// Canonicalization is a function of the parameters and the kind: the same
/// parameters in the same order give the same payload, or the same error.
pub proof fn canonicalize_is_deterministic(
    params_a: Seq<(String, Json)>,
    params_b: Seq<(String, Json)>,
    kind_a: RequestKind,
    kind_b: RequestKind,
)
    requires
        params_a == params_b,
        kind_a == kind_b,
    ensures
        canonical_text(params_a, kind_a) == canonical_text(params_b, kind_b),
{
}

} // verus!
