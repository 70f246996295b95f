//! URLs and JSON, as the `url` and `serde_json` crates read them.
//!
//! The functions here call into those crates. Their contracts are not
//! proved: what a URL or a JSON text parses to is given a name, and the
//! decoders that build on them are verified against those names.

use vstd::prelude::*;

verus! {

/// One `key=value` pair of a query, decoded.
#[derive(Clone, Debug, PartialEq, Eq)]
pub struct QueryPair {
    pub key: String,
    pub value: String,
}

/// The mathematical value of a [`QueryPair`].
pub struct QueryPairView {
    pub key: Seq<char>,
    pub value: Seq<char>,
}

impl DeepView for QueryPair {
    type V = QueryPairView;

    open spec fn deep_view(&self) -> QueryPairView {
        QueryPairView {
            key: self.key.deep_view(),
            value: self.value.deep_view(),
        }
    }
}

impl View for QueryPair {
    type V = QueryPairView;

    open spec fn view(&self) -> QueryPairView {
        self.deep_view()
    }
}

/// The parts of a URL that parsed.
#[derive(Clone, Debug, PartialEq, Eq)]
pub struct UrlParts {
    /// The scheme, in lower case, without `:`.
    pub scheme: String,
    /// The host, where it is a domain name rather than an address.
    pub domain: Option<String>,
    /// The query, without `?`, as it is written.
    pub query: Option<String>,
    /// The pairs of the query, in order, percent-decoded.
    pub pairs: Vec<QueryPair>,
    /// The whole URL in its canonical form.
    pub href: String,
}

/// The mathematical value of a [`UrlParts`].
pub struct UrlPartsView {
    pub scheme: Seq<char>,
    pub domain: Option<Seq<char>>,
    pub query: Option<Seq<char>>,
    pub pairs: Seq<QueryPairView>,
    pub href: Seq<char>,
}

impl DeepView for UrlParts {
    type V = UrlPartsView;

    open spec fn deep_view(&self) -> UrlPartsView {
        UrlPartsView {
            scheme: self.scheme.deep_view(),
            domain: self.domain.deep_view(),
            query: self.query.deep_view(),
            pairs: self.pairs.deep_view(),
            href: self.href.deep_view(),
        }
    }
}

impl View for UrlParts {
    type V = UrlPartsView;

    open spec fn view(&self) -> UrlPartsView {
        self.deep_view()
    }
}

/// The value of a member of a JSON object, as far as this crate reads it.
#[derive(Clone, Debug, PartialEq, Eq)]
pub enum JsonMember {
    Null,
    Bool(bool),
    /// A number that is a non-negative integer below 2^64.
    Unsigned(u64),
    Text(String),
    /// Any other number, an array or an object.
    Other,
}

/// The mathematical value of a [`JsonMember`].
pub enum JsonMemberView {
    Null,
    Bool(bool),
    Unsigned(u64),
    Text(Seq<char>),
    Other,
}

impl DeepView for JsonMember {
    type V = JsonMemberView;

    open spec fn deep_view(&self) -> JsonMemberView {
        match self {
            JsonMember::Null => JsonMemberView::Null,
            JsonMember::Bool(x) => JsonMemberView::Bool(x.deep_view()),
            JsonMember::Unsigned(x) => JsonMemberView::Unsigned(x.deep_view()),
            JsonMember::Text(x) => JsonMemberView::Text(x.deep_view()),
            JsonMember::Other => JsonMemberView::Other,
        }
    }
}

impl View for JsonMember {
    type V = JsonMemberView;

    open spec fn view(&self) -> JsonMemberView {
        self.deep_view()
    }
}

/// Makes `serde_json::Value` known to the verifier, as a type whose values
/// it cannot look into.
#[verifier::external_type_specification]
#[verifier::external_body]
pub struct ExJsonValue(serde_json::Value);

/// Makes `serde_json::Map` known to the verifier, as a type whose values
/// it cannot look into. What a map holds is [`json_members`].
#[verifier::external_type_specification]
#[verifier::external_body]
#[verifier::reject_recursive_types(K)]
#[verifier::reject_recursive_types(V)]
pub struct ExJsonMap<K, V>(serde_json::Map<K, V>);

/// What `text` parses to as a URL, if it parses.
pub uninterp spec fn url_parsed(text: Seq<char>) -> Option<UrlPartsView>;

/// The members of the JSON object that `text` is, or the parser's message
/// where it is none.
pub uninterp spec fn json_object_of(text: Seq<char>) -> Result<
    Map<Seq<char>, JsonMemberView>,
    Seq<char>,
>;

/// The members that a JSON object holds.
pub uninterp spec fn json_members(object: serde_json::Map<String, serde_json::Value>) -> Map<
    Seq<char>,
    JsonMemberView,
>;

/// Calls `Url::parse`, then `scheme`, `domain`, `query`, `query_pairs` and
/// `to_string`. The result is given the name `url_parsed`; nothing else is
/// claimed of it.
#[verifier::external_body]
pub(crate) fn parse_url(text: &str) -> (r: Option<UrlParts>)
    ensures
        r.deep_view() == url_parsed(text@),
{
    let url = url::Url::parse(text).ok()?;
    Some(UrlParts {
        scheme: url.scheme().to_string(),
        domain: url.domain().map(|d| d.to_string()),
        query: url.query().map(|q| q.to_string()),
        pairs: url
            .query_pairs()
            .map(|(k, v)| QueryPair { key: k.to_string(), value: v.to_string() })
            .collect(),
        href: url.to_string(),
    })
}

/// Calls `serde_json::from_str` for a `Map<String, Value>`, and
/// `Error::to_string` where it fails. The result is given the name
/// `json_object_of`; nothing else is claimed of it.
#[verifier::external_body]
pub(crate) fn parse_json_object(text: &str) -> (r: Result<
    serde_json::Map<String, serde_json::Value>,
    String,
>)
    ensures
        match r {
            Ok(object) => json_object_of(text@) == Ok::<Map<Seq<char>, JsonMemberView>, Seq<char>>(
                json_members(object),
            ),
            Err(message) => json_object_of(text@) == Err::<
                Map<Seq<char>, JsonMemberView>,
                Seq<char>,
            >(message@),
        },
{
    serde_json::from_str::<serde_json::Map<String, serde_json::Value>>(text)
        .map_err(|e| e.to_string())
}

/// Calls `Map::get` and tells the variants of the `Value` apart, with
/// `Number::as_u64` for a number. Returns the member that the object holds
/// under `key`, if it holds one.
#[verifier::external_body]
pub(crate) fn json_member(
    object: &serde_json::Map<String, serde_json::Value>,
    key: &str,
) -> (r: Option<JsonMember>)
    ensures
        r.deep_view() == (if json_members(*object).contains_key(key@) {
            Some(json_members(*object)[key@])
        } else {
            None
        }),
{
    Some(match object.get(key)? {
        serde_json::Value::Null => JsonMember::Null,
        serde_json::Value::Bool(b) => JsonMember::Bool(*b),
        serde_json::Value::String(s) => JsonMember::Text(s.clone()),
        serde_json::Value::Number(n) => match n.as_u64() {
            Some(u) => JsonMember::Unsigned(u),
            None => JsonMember::Other,
        },
        _ => JsonMember::Other,
    })
}

} // verus!
