//! The LNURL resolver.
//!
//! An LNURL is a URL, given as it is or in bech32 with the human-readable
//! part `lnurl`. Resolving one has two halves with a request to the
//! endpoint between them. The first half, [`InputParser::parse_lnurl`],
//! reads the text and says what to fetch, unless the URL is a login
//! challenge, which needs no request. The second half,
//! [`InputParser::resolve_lnurl_response`], reads what the endpoint
//! answered.

use crate::encoding::{
    bech32_decode, bech32_decoded, hex_bytes, hex_decode, is_hex_text, lowercase_of,
    to_lowercase, utf8_decode, utf8_decoded,
};
use crate::error::{
    LnurlError, LnurlErrorView, ServiceConnectivityError, ServiceConnectivityErrorKind,
    ServiceConnectivityErrorView,
};
use crate::models::{
    InputType, InputTypeView, LnurlAuthRequestData, LnurlAuthRequestDataView, LnurlErrorData,
    LnurlErrorDataView, LnurlPayRequest, LnurlPayRequestView, LnurlWithdrawRequestData,
    LnurlWithdrawRequestDataView, PaymentMethod, PaymentMethodView, PaymentRequest,
    PaymentRequestSource, PaymentRequestSourceView, PaymentRequestView, ReceiveRequest,
    ReceiveRequestView, result_view,
};
use crate::parser::InputParser;
use crate::text::{
    contains_text, ends_with, starts_with, text_contains, text_ends_with, text_equal, text_skip,
    text_starts_with,
};
use crate::web::{
    JsonMember, JsonMemberView, QueryPair, QueryPairView, UrlParts, UrlPartsView, json_member,
    json_members, json_object_of, parse_json_object, parse_url, url_parsed,
};
use vstd::prelude::*;

verus! {

/// A request to an LNURL endpoint that has yet to be made.
#[derive(Debug, PartialEq, Eq)]
pub struct LnurlQuery {
    /// The URL to fetch.
    pub url: String,
    /// The domain of the endpoint.
    pub domain: String,
    /// Where the LNURL was found.
    pub source: PaymentRequestSource,
}

/// The mathematical value of a [`LnurlQuery`].
pub struct LnurlQueryView {
    pub url: Seq<char>,
    pub domain: Seq<char>,
    pub source: PaymentRequestSourceView,
}

impl DeepView for LnurlQuery {
    type V = LnurlQueryView;

    open spec fn deep_view(&self) -> LnurlQueryView {
        LnurlQueryView {
            url: self.url.deep_view(),
            domain: self.domain.deep_view(),
            source: self.source.deep_view(),
        }
    }
}

impl View for LnurlQuery {
    type V = LnurlQueryView;

    open spec fn view(&self) -> LnurlQueryView {
        self.deep_view()
    }
}

/// What the first half of resolving an LNURL comes to.
#[derive(Debug, PartialEq, Eq)]
pub enum LnurlStep {
    /// The URL is a login challenge, and this is it.
    Auth(LnurlAuthRequestData),
    /// The endpoint has to be asked.
    Fetch(LnurlQuery),
}

/// The mathematical value of a [`LnurlStep`].
pub enum LnurlStepView {
    Auth(LnurlAuthRequestDataView),
    Fetch(LnurlQueryView),
}

impl DeepView for LnurlStep {
    type V = LnurlStepView;

    open spec fn deep_view(&self) -> LnurlStepView {
        match self {
            LnurlStep::Auth(x) => LnurlStepView::Auth(x.deep_view()),
            LnurlStep::Fetch(x) => LnurlStepView::Fetch(x.deep_view()),
        }
    }
}

impl View for LnurlStep {
    type V = LnurlStepView;

    open spec fn view(&self) -> LnurlStepView {
        self.deep_view()
    }
}

/// What an LNURL endpoint answers.
#[derive(Clone, Debug, PartialEq, Eq)]
#[allow(inconsistent_fields)]
pub enum LnurlRequestData {
    PayRequest {
        data: LnurlPayRequest,
    },
    WithdrawRequest {
        data: LnurlWithdrawRequestData,
    },
    AuthRequest {
        data: LnurlAuthRequestData,
    },
    Error {
        data: LnurlErrorData,
    },
}

/// The mathematical value of a [`LnurlRequestData`].
#[allow(inconsistent_fields)]
pub enum LnurlRequestDataView {
    PayRequest {
        data: LnurlPayRequestView,
    },
    WithdrawRequest {
        data: LnurlWithdrawRequestDataView,
    },
    AuthRequest {
        data: LnurlAuthRequestDataView,
    },
    Error {
        data: LnurlErrorDataView,
    },
}

impl DeepView for LnurlRequestData {
    type V = LnurlRequestDataView;

    open spec fn deep_view(&self) -> LnurlRequestDataView {
        match self {
            LnurlRequestData::PayRequest { data } => LnurlRequestDataView::PayRequest {
                data: data.deep_view(),
            },
            LnurlRequestData::WithdrawRequest { data } => LnurlRequestDataView::WithdrawRequest {
                data: data.deep_view(),
            },
            LnurlRequestData::AuthRequest { data } => LnurlRequestDataView::AuthRequest {
                data: data.deep_view(),
            },
            LnurlRequestData::Error { data } => LnurlRequestDataView::Error {
                data: data.deep_view(),
            },
        }
    }
}

impl View for LnurlRequestData {
    type V = LnurlRequestDataView;

    open spec fn view(&self) -> LnurlRequestDataView {
        self.deep_view()
    }
}

/// A domain under `.onion`.
pub open spec fn is_onion(domain: Seq<char>) -> bool {
    ends_with(domain, ".onion"@)
}

/// The text an LNURL stands for. A bech32 text stands for its payload read
/// as UTF-8, provided its human-readable part is `lnurl`; it stands for
/// nothing otherwise. Any other text stands for itself.
pub open spec fn lnurl_text_spec(input: Seq<char>) -> Option<Seq<char>> {
    match bech32_decoded(input) {
        Some((hrp, payload)) => if hrp == "lnurl"@ {
            utf8_decoded(payload)
        } else {
            None
        },
        None => Some(input),
    }
}

/// `lower` with `scheme:` replaced by `scheme://`, where it begins with the
/// first and not with the second.
pub open spec fn with_authority(lower: Seq<char>, scheme: Seq<char>) -> Option<Seq<char>> {
    if starts_with(lower, scheme + ":"@) && !starts_with(lower, scheme + "://"@) {
        Some(scheme + "://"@ + lower.skip(scheme.len() + 1 as int))
    } else {
        None
    }
}

/// `text` with `lnurlp:`, `lnurlw:` or `keyauth:` completed to a scheme with
/// an authority. A text that is rewritten is rewritten in lower case; any
/// other text stays as it is.
pub open spec fn normalized_spec(text: Seq<char>) -> Seq<char> {
    let lower = lowercase_of(text);
    if with_authority(lower, "lnurlp"@) is Some {
        with_authority(lower, "lnurlp"@).unwrap()
    } else if with_authority(lower, "lnurlw"@) is Some {
        with_authority(lower, "lnurlw"@).unwrap()
    } else if with_authority(lower, "keyauth"@) is Some {
        with_authority(lower, "keyauth"@).unwrap()
    } else {
        text
    }
}

/// One of the three schemes that stand for `http` or `https`.
pub open spec fn is_lnurl_scheme(scheme: Seq<char>) -> bool {
    scheme == "lnurlp"@ || scheme == "lnurlw"@ || scheme == "keyauth"@
}

/// What the scheme of a URL means for a domain.
///
/// `http` goes with onion domains only and `https` with all others; a
/// mismatch is an error. `lnurlp`, `lnurlw` and `keyauth` are to be
/// replaced, by `http` for an onion domain and by `https` for any other.
/// `Ok(None)` says that the scheme stays. All other schemes are unknown.
pub open spec fn scheme_spec(scheme: Seq<char>, domain: Seq<char>) -> Result<
    Option<Seq<char>>,
    LnurlErrorView,
> {
    if scheme == "http"@ {
        if is_onion(domain) {
            Ok(None)
        } else {
            Err(LnurlErrorView::HttpSchemeWithoutOnionDomain)
        }
    } else if scheme == "https"@ {
        if is_onion(domain) {
            Err(LnurlErrorView::HttpsSchemeWithOnionDomain)
        } else {
            Ok(None)
        }
    } else if is_lnurl_scheme(scheme) {
        if is_onion(domain) {
            Ok(Some("http"@))
        } else {
            Ok(Some("https"@))
        }
    } else {
        Err(LnurlErrorView::UnknownScheme)
    }
}

/// The value of the first pair at or after `from` whose key is `key`.
pub open spec fn first_value_from(pairs: Seq<QueryPairView>, key: Seq<char>, from: int) -> Option<
    Seq<char>,
>
    decreases pairs.len() - from,
{
    if from < 0 || from >= pairs.len() {
        None
    } else if pairs[from].key == key {
        Some(pairs[from].value)
    } else {
        first_value_from(pairs, key, from + 1)
    }
}

/// The value of the first pair whose key is `key`.
pub open spec fn first_value(pairs: Seq<QueryPairView>, key: Seq<char>) -> Option<Seq<char>> {
    first_value_from(pairs, key, 0)
}

/// A challenge is 32 bytes in hexadecimal.
pub open spec fn is_k1(k1: Seq<char>) -> bool {
    is_hex_text(k1) && hex_bytes(k1).len() == 32
}

/// One of the four actions a login challenge can name.
pub open spec fn is_auth_action(action: Seq<char>) -> bool {
    action == "register"@ || action == "login"@ || action == "link"@ || action == "auth"@
}

impl LnurlAuthRequestDataView {
    /// The challenge is 32 bytes in hexadecimal and the action, if there is
    /// one, is one of the four.
    pub open spec fn well_formed(self) -> bool {
        &&& is_k1(self.k1)
        &&& self.action is Some ==> is_auth_action(self.action.unwrap())
    }
}

/// The login challenge made of these parts, or what is wrong with them:
/// no `k1`, a `k1` that is not 32 bytes in hexadecimal, an action that is
/// none of the four, or no domain, in this order.
pub open spec fn auth_spec(
    k1: Option<Seq<char>>,
    action: Option<Seq<char>>,
    domain: Option<Seq<char>>,
    url: Seq<char>,
) -> Result<LnurlAuthRequestDataView, LnurlErrorView> {
    if k1 is None {
        Err(LnurlErrorView::MissingK1)
    } else if !is_k1(k1.unwrap()) {
        Err(LnurlErrorView::InvalidK1)
    } else if action is Some && !is_auth_action(action.unwrap()) {
        Err(LnurlErrorView::UnsupportedAction)
    } else if domain is None {
        Err(LnurlErrorView::MissingDomain)
    } else {
        Ok(LnurlAuthRequestDataView { k1: k1.unwrap(), action, domain: domain.unwrap(), url })
    }
}

/// The login challenge that a URL carries in its query.
pub open spec fn validate_spec(parts: UrlPartsView) -> Result<
    LnurlAuthRequestDataView,
    LnurlErrorView,
> {
    auth_spec(
        first_value(parts.pairs, "k1"@),
        first_value(parts.pairs, "action"@),
        parts.domain,
        parts.href,
    )
}

/// Whether a URL is a login challenge: its query holds `tag=login`.
pub open spec fn is_login(parts: UrlPartsView) -> bool {
    parts.query is Some && contains_text(parts.query.unwrap(), "tag=login"@)
}

/// What is to be done with an LNURL once its URL is known: a login
/// challenge is validated, and any other URL is to be fetched.
pub open spec fn resolve_spec(parts: UrlPartsView, source: PaymentRequestSourceView) -> Result<
    LnurlStepView,
    LnurlErrorView,
> {
    if is_login(parts) {
        match validate_spec(parts) {
            Ok(data) => Ok(LnurlStepView::Auth(data)),
            Err(error) => Err(error),
        }
    } else {
        match parts.domain {
            Some(domain) => Ok(
                LnurlStepView::Fetch(LnurlQueryView { url: parts.href, domain, source }),
            ),
            None => Err(LnurlErrorView::MissingDomain),
        }
    }
}

/// The text of a URL with its scheme replaced by `scheme`.
pub open spec fn rewritten_spec(parts: UrlPartsView, scheme: Seq<char>) -> Seq<char> {
    if parts.scheme.len() <= parts.href.len() {
        scheme + parts.href.skip(parts.scheme.len() as int)
    } else {
        scheme
    }
}

/// What a parsed URL comes to as an LNURL. A URL without a domain is none.
/// A URL whose scheme is to be replaced is written anew with the other
/// scheme and parsed again.
pub open spec fn lnurl_url_spec(parts: UrlPartsView, source: PaymentRequestSourceView) -> Result<
    Option<LnurlStepView>,
    LnurlErrorView,
> {
    match parts.domain {
        None => Ok(None),
        Some(domain) => match scheme_spec(parts.scheme, domain) {
            Err(error) => Err(error),
            Ok(None) => match resolve_spec(parts, source) {
                Ok(step) => Ok(Some(step)),
                Err(error) => Err(error),
            },
            Ok(Some(scheme)) => match url_parsed(rewritten_spec(parts, scheme)) {
                None => Err(LnurlErrorView::General("failed to rewrite lnurl scheme"@)),
                Some(rewritten) => match resolve_spec(rewritten, source) {
                    Ok(step) => Ok(Some(step)),
                    Err(error) => Err(error),
                },
            },
        },
    }
}

/// What a text comes to as an LNURL: `Ok(None)` where it is none, the
/// login challenge or the request to make where it is one, and an error
/// where it is one that breaks a rule.
pub open spec fn lnurl_spec(input: Seq<char>, source: PaymentRequestSourceView) -> Result<
    Option<LnurlStepView>,
    LnurlErrorView,
> {
    match lnurl_text_spec(input) {
        None => Ok(None),
        Some(text) => match url_parsed(normalized_spec(text)) {
            None => Ok(None),
            Some(parts) => lnurl_url_spec(parts, source),
        },
    }
}

/// The text that an object holds under `key`.
pub open spec fn text_member(members: Map<Seq<char>, JsonMemberView>, key: Seq<char>) -> Option<
    Seq<char>,
> {
    if members.contains_key(key) {
        match members[key] {
            JsonMemberView::Text(text) => Some(text),
            _ => None,
        }
    } else {
        None
    }
}

/// The non-negative integer that an object holds under `key`.
pub open spec fn unsigned_member(members: Map<Seq<char>, JsonMemberView>, key: Seq<char>) -> Option<
    u64,
> {
    if members.contains_key(key) {
        match members[key] {
            JsonMemberView::Unsigned(value) => Some(value),
            _ => None,
        }
    } else {
        None
    }
}

/// The text that an object may hold under `key`: `Some(None)` where the
/// member is absent or null, and `None` where it is anything but a text.
pub open spec fn optional_text_member(
    members: Map<Seq<char>, JsonMemberView>,
    key: Seq<char>,
) -> Option<Option<Seq<char>>> {
    if members.contains_key(key) {
        match members[key] {
            JsonMemberView::Text(text) => Some(Some(text)),
            JsonMemberView::Null => Some(None),
            _ => None,
        }
    } else {
        Some(None)
    }
}

/// The flag that an object may hold under `key`: false where the member is
/// absent, and `None` where it is anything but true or false.
pub open spec fn flag_member(members: Map<Seq<char>, JsonMemberView>, key: Seq<char>) -> Option<
    bool,
> {
    if members.contains_key(key) {
        match members[key] {
            JsonMemberView::Bool(flag) => Some(flag),
            _ => None,
        }
    } else {
        Some(false)
    }
}

/// The 16-bit number that an object may hold under `key`: zero where the
/// member is absent, and `None` where it is anything but a number that
/// fits.
pub open spec fn short_member(members: Map<Seq<char>, JsonMemberView>, key: Seq<char>) -> Option<
    u16,
> {
    if members.contains_key(key) {
        match members[key] {
            JsonMemberView::Unsigned(value) => if value <= 0xFFFF {
                Some(value as u16)
            } else {
                None
            },
            _ => None,
        }
    } else {
        Some(0u16)
    }
}

/// The pay request that an object is, if it is one: `callback`,
/// `minSendable`, `maxSendable` and `metadata` are there, the least
/// sendable amount does not exceed the greatest, and `commentAllowed`,
/// `allowsNostr` and `nostrPubkey` are of their kinds where they are there.
/// Domain and URL are left empty.
pub open spec fn pay_request_spec(members: Map<Seq<char>, JsonMemberView>) -> Option<
    LnurlPayRequestView,
> {
    let callback = text_member(members, "callback"@);
    let min_sendable = unsigned_member(members, "minSendable"@);
    let max_sendable = unsigned_member(members, "maxSendable"@);
    let metadata = text_member(members, "metadata"@);
    let comment_allowed = short_member(members, "commentAllowed"@);
    let allows_nostr = flag_member(members, "allowsNostr"@);
    let nostr_pubkey = optional_text_member(members, "nostrPubkey"@);
    if callback is Some && min_sendable is Some && max_sendable is Some && metadata is Some
        && comment_allowed is Some && allows_nostr is Some && nostr_pubkey is Some
        && min_sendable.unwrap() <= max_sendable.unwrap() {
        Some(
            LnurlPayRequestView {
                callback: callback.unwrap(),
                min_sendable: min_sendable.unwrap(),
                max_sendable: max_sendable.unwrap(),
                metadata_str: metadata.unwrap(),
                comment_allowed: comment_allowed.unwrap(),
                domain: Seq::empty(),
                url: Seq::empty(),
                allows_nostr: allows_nostr.unwrap(),
                nostr_pubkey: nostr_pubkey.unwrap(),
            },
        )
    } else {
        None
    }
}

/// The withdraw request that an object is, if it is one.
pub open spec fn withdraw_request_spec(members: Map<Seq<char>, JsonMemberView>) -> Option<
    LnurlWithdrawRequestDataView,
> {
    let callback = text_member(members, "callback"@);
    let k1 = text_member(members, "k1"@);
    let default_description = text_member(members, "defaultDescription"@);
    let min_withdrawable = unsigned_member(members, "minWithdrawable"@);
    let max_withdrawable = unsigned_member(members, "maxWithdrawable"@);
    if callback is Some && k1 is Some && default_description is Some && min_withdrawable is Some
        && max_withdrawable is Some {
        Some(
            LnurlWithdrawRequestDataView {
                callback: callback.unwrap(),
                k1: k1.unwrap(),
                default_description: default_description.unwrap(),
                min_withdrawable: min_withdrawable.unwrap(),
                max_withdrawable: max_withdrawable.unwrap(),
            },
        )
    } else {
        None
    }
}

/// The login challenge that an object is, if it is one, as it is written:
/// nothing is validated, and domain and URL are left empty.
pub open spec fn auth_request_spec(members: Map<Seq<char>, JsonMemberView>) -> Option<
    LnurlAuthRequestDataView,
> {
    let k1 = text_member(members, "k1"@);
    let action = optional_text_member(members, "action"@);
    if k1 is Some && action is Some {
        Some(
            LnurlAuthRequestDataView {
                k1: k1.unwrap(),
                action: action.unwrap(),
                domain: Seq::empty(),
                url: Seq::empty(),
            },
        )
    } else {
        None
    }
}

/// The refusal that an object is, if it is one.
pub open spec fn error_data_spec(members: Map<Seq<char>, JsonMemberView>) -> Option<
    LnurlErrorDataView,
> {
    match text_member(members, "reason"@) {
        Some(reason) => Some(LnurlErrorDataView { reason }),
        None => None,
    }
}

/// What an object is as the answer of an LNURL endpoint: the first that
/// fits of a pay request, a withdraw request, a login challenge and a
/// refusal.
pub open spec fn request_data_spec(members: Map<Seq<char>, JsonMemberView>) -> Option<
    LnurlRequestDataView,
> {
    if pay_request_spec(members) is Some {
        Some(LnurlRequestDataView::PayRequest { data: pay_request_spec(members).unwrap() })
    } else if withdraw_request_spec(members) is Some {
        Some(LnurlRequestDataView::WithdrawRequest { data: withdraw_request_spec(members).unwrap() })
    } else if auth_request_spec(members) is Some {
        Some(LnurlRequestDataView::AuthRequest { data: auth_request_spec(members).unwrap() })
    } else if error_data_spec(members) is Some {
        Some(LnurlRequestDataView::Error { data: error_data_spec(members).unwrap() })
    } else {
        None
    }
}

/// What a text is as the answer of an LNURL endpoint. A text that is no
/// JSON object, or an object of none of the four kinds, is an error of
/// kind `Json`.
pub open spec fn json_spec(text: Seq<char>) -> Result<
    LnurlRequestDataView,
    ServiceConnectivityErrorView,
> {
    match json_object_of(text) {
        Err(message) => Err(
            ServiceConnectivityErrorView {
                kind: ServiceConnectivityErrorKind::Json,
                err: message,
            },
        ),
        Ok(members) => match request_data_spec(members) {
            Some(data) => Ok(data),
            None => Err(
                ServiceConnectivityErrorView {
                    kind: ServiceConnectivityErrorKind::Json,
                    err: "data did not match any kind of LNURL response"@,
                },
            ),
        },
    }
}

/// What an answer comes to for the request it answers. A pay request takes
/// the domain and the URL of the request. A login challenge is validated
/// as one that arrives in a URL is. A refusal is an endpoint error with the
/// reason given.
pub open spec fn request_data_input_spec(query: LnurlQueryView, data: LnurlRequestDataView) -> Result<
    InputTypeView,
    LnurlErrorView,
> {
    match data {
        LnurlRequestDataView::PayRequest { data } => Ok(
            InputTypeView::PaymentRequest(
                PaymentRequestView::PaymentMethod(
                    PaymentMethodView::LnurlPay(
                        LnurlPayRequestView { domain: query.domain, url: query.url, ..data },
                    ),
                ),
            ),
        ),
        LnurlRequestDataView::WithdrawRequest { data } => Ok(
            InputTypeView::ReceiveRequest(ReceiveRequestView::LnurlWithdraw(data)),
        ),
        LnurlRequestDataView::AuthRequest { data } => match auth_spec(
            Some(data.k1),
            data.action,
            Some(query.domain),
            query.url,
        ) {
            Ok(valid) => Ok(InputTypeView::LnurlAuth(valid)),
            Err(error) => Err(error),
        },
        LnurlRequestDataView::Error { data } => Err(
            LnurlErrorView::EndpointError(
                ServiceConnectivityErrorView {
                    kind: ServiceConnectivityErrorKind::Other,
                    err: data.reason,
                },
            ),
        ),
    }
}

/// What the answer to a request comes to: a failure to get one and a body
/// that cannot be read are endpoint errors, and a body that can be read is
/// what [`request_data_input_spec`] says.
pub open spec fn response_spec(
    query: LnurlQueryView,
    response: Result<Seq<char>, ServiceConnectivityErrorView>,
) -> Result<InputTypeView, LnurlErrorView> {
    match response {
        Err(error) => Err(LnurlErrorView::EndpointError(error)),
        Ok(body) => match json_spec(body) {
            Err(error) => Err(LnurlErrorView::EndpointError(error)),
            Ok(data) => request_data_input_spec(query, data),
        },
    }
}

/// Plain HTTP is for onion domains and for them only: `http` is accepted
/// exactly for a domain under `.onion`, and `https` exactly for any other.
pub proof fn lemma_scheme_enforcement(domain: Seq<char>)
    ensures
        scheme_spec("http"@, domain) is Ok <==> is_onion(domain),
        scheme_spec("https"@, domain) is Ok <==> !is_onion(domain),
        !is_onion(domain) ==> scheme_spec("http"@, domain) == Err::<
            Option<Seq<char>>,
            LnurlErrorView,
        >(LnurlErrorView::HttpSchemeWithoutOnionDomain),
        is_onion(domain) ==> scheme_spec("https"@, domain) == Err::<
            Option<Seq<char>>,
            LnurlErrorView,
        >(LnurlErrorView::HttpsSchemeWithOnionDomain),
{
    reveal_strlit("http");
    reveal_strlit("https");
    assert("http"@.len() != "https"@.len());
}

/// A URL with a domain and a scheme that does not go with it is refused,
/// whatever else the URL holds.
pub proof fn lemma_scheme_mismatch_refused(parts: UrlPartsView, source: PaymentRequestSourceView)
    requires
        parts.domain is Some,
    ensures
        parts.scheme == "http"@ && !is_onion(parts.domain.unwrap()) ==> lnurl_url_spec(parts, source)
            == Err::<Option<LnurlStepView>, LnurlErrorView>(
            LnurlErrorView::HttpSchemeWithoutOnionDomain,
        ),
        parts.scheme == "https"@ && is_onion(parts.domain.unwrap()) ==> lnurl_url_spec(parts, source)
            == Err::<Option<LnurlStepView>, LnurlErrorView>(
            LnurlErrorView::HttpsSchemeWithOnionDomain,
        ),
{
    lemma_scheme_enforcement(parts.domain.unwrap());
}

/// A challenge is 64 hexadecimal digits: a text of any other length is
/// none.
pub proof fn lemma_k1_length(k1: Seq<char>)
    ensures
        is_k1(k1) <==> is_hex_text(k1) && k1.len() == 64,
{
}

/// A login challenge whose `k1` stands for fewer or for more than 32 bytes
/// is refused with `InvalidK1`, whatever the rest of the URL is.
pub proof fn lemma_k1_of_wrong_length_refused(parts: UrlPartsView)
    requires
        first_value(parts.pairs, "k1"@) is Some,
        hex_bytes(first_value(parts.pairs, "k1"@).unwrap()).len() != 32,
    ensures
        validate_spec(parts) == Err::<LnurlAuthRequestDataView, LnurlErrorView>(
            LnurlErrorView::InvalidK1,
        ),
{
}

/// A login challenge that is accepted is well formed.
pub proof fn lemma_auth_well_formed(
    k1: Option<Seq<char>>,
    action: Option<Seq<char>>,
    domain: Option<Seq<char>>,
    url: Seq<char>,
)
    requires
        auth_spec(k1, action, domain, url) is Ok,
    ensures
        auth_spec(k1, action, domain, url)->Ok_0.well_formed(),
{
}

/// Whether `domain` is under `.onion`.
pub fn is_onion_domain(domain: &str) -> (r: bool)
    ensures
        r == is_onion(domain@),
{
    text_ends_with(domain, ".onion")
}

/// `lower` with `scheme:` replaced by `scheme://`, where it begins with the
/// first and not with the second.
fn add_authority(lower: &str, scheme: &str, simple: &str, full: &str) -> (r: Option<String>)
    requires
        simple@ == scheme@ + ":"@,
        full@ == scheme@ + "://"@,
        ":"@.len() == 1,
    ensures
        r.deep_view() == with_authority(lower@, scheme@),
{
    if text_starts_with(lower, simple) && !text_starts_with(lower, full) {
        let mut fixed = full.to_owned();
        fixed.append(text_skip(lower, simple.unicode_len()));
        Some(fixed)
    } else {
        None
    }
}

/// Completes `lnurlp:`, `lnurlw:` or `keyauth:` to a scheme with an
/// authority.
pub fn normalize_lnurl(text: String) -> (r: String)
    ensures
        r@ == normalized_spec(text@),
{
    proof {
        reveal_strlit(":");
        reveal_strlit("://");
        reveal_strlit("lnurlp");
        reveal_strlit("lnurlp:");
        reveal_strlit("lnurlp://");
        reveal_strlit("lnurlw");
        reveal_strlit("lnurlw:");
        reveal_strlit("lnurlw://");
        reveal_strlit("keyauth");
        reveal_strlit("keyauth:");
        reveal_strlit("keyauth://");
        assert("lnurlp:"@ =~= "lnurlp"@ + ":"@);
        assert("lnurlp://"@ =~= "lnurlp"@ + "://"@);
        assert("lnurlw:"@ =~= "lnurlw"@ + ":"@);
        assert("lnurlw://"@ =~= "lnurlw"@ + "://"@);
        assert("keyauth:"@ =~= "keyauth"@ + ":"@);
        assert("keyauth://"@ =~= "keyauth"@ + "://"@);
    }
    let lower = to_lowercase(text.as_str());
    if let Some(fixed) = add_authority(lower.as_str(), "lnurlp", "lnurlp:", "lnurlp://") {
        return fixed;
    }
    if let Some(fixed) = add_authority(lower.as_str(), "lnurlw", "lnurlw:", "lnurlw://") {
        return fixed;
    }
    if let Some(fixed) = add_authority(lower.as_str(), "keyauth", "keyauth:", "keyauth://") {
        return fixed;
    }
    text
}

/// Holds the scheme of a URL against its domain: see [`scheme_spec`].
pub fn check_scheme(scheme: &str, domain: &str) -> (r: Result<Option<&'static str>, LnurlError>)
    ensures
        match r {
            Ok(Some(rewrite)) => scheme_spec(scheme@, domain@) == Ok::<
                Option<Seq<char>>,
                LnurlErrorView,
            >(Some(rewrite@)),
            Ok(None) => scheme_spec(scheme@, domain@) == Ok::<Option<Seq<char>>, LnurlErrorView>(
                None,
            ),
            Err(error) => scheme_spec(scheme@, domain@) == Err::<
                Option<Seq<char>>,
                LnurlErrorView,
            >(error@),
        },
{
    let onion = is_onion_domain(domain);
    if text_equal(scheme, "http") {
        if onion {
            Ok(None)
        } else {
            Err(LnurlError::HttpSchemeWithoutOnionDomain)
        }
    } else if text_equal(scheme, "https") {
        if onion {
            Err(LnurlError::HttpsSchemeWithOnionDomain)
        } else {
            Ok(None)
        }
    } else if text_equal(scheme, "lnurlp") || text_equal(scheme, "lnurlw") || text_equal(
        scheme,
        "keyauth",
    ) {
        if onion {
            Ok(Some("http"))
        } else {
            Ok(Some("https"))
        }
    } else {
        Err(LnurlError::UnknownScheme)
    }
}

/// Writes a URL anew with another scheme.
pub fn rewrite_scheme(parts: &UrlParts, scheme: &str) -> (r: String)
    ensures
        r@ == rewritten_spec(parts@, scheme@),
{
    let mut text = scheme.to_owned();
    let old = parts.scheme.as_str().unicode_len();
    if old <= parts.href.as_str().unicode_len() {
        text.append(text_skip(parts.href.as_str(), old));
    }
    text
}

/// The value of the first pair whose key is `key`.
pub fn find_pair(pairs: &Vec<QueryPair>, key: &str) -> (r: Option<String>)
    ensures
        r.deep_view() == first_value(pairs.deep_view(), key@),
{
    let mut i: usize = 0;
    while i < pairs.len()
        invariant
            i <= pairs@.len(),
            first_value_from(pairs.deep_view(), key@, i as int) == first_value(
                pairs.deep_view(),
                key@,
            ),
        decreases pairs@.len() - i,
    {
        assert(pairs.deep_view()[i as int] == pairs@[i as int]@);
        if text_equal(pairs[i].key.as_str(), key) {
            return Some(pairs[i].value.clone());
        }
        i += 1;
    }
    None
}

/// Whether `k1` is 32 bytes in hexadecimal.
pub fn check_k1(k1: &str) -> (r: bool)
    ensures
        r == is_k1(k1@),
{
    match hex_decode(k1) {
        Some(bytes) => bytes.len() == 32,
        None => false,
    }
}

/// Whether `action` is one of `register`, `login`, `link` and `auth`.
pub fn check_auth_action(action: &str) -> (r: bool)
    ensures
        r == is_auth_action(action@),
{
    text_equal(action, "register") || text_equal(action, "login") || text_equal(action, "link")
        || text_equal(action, "auth")
}

/// Makes a login challenge of its parts, or says what is wrong with them.
pub fn validate_auth(
    k1: Option<String>,
    action: Option<String>,
    domain: Option<String>,
    url: String,
) -> (r: Result<LnurlAuthRequestData, LnurlError>)
    ensures
        result_view(r) == auth_spec(k1.deep_view(), action.deep_view(), domain.deep_view(), url@),
        r is Ok ==> r.unwrap()@.well_formed(),
{
    let k1 = match k1 {
        Some(k1) => k1,
        None => {
            return Err(LnurlError::MissingK1);
        },
    };
    if !check_k1(k1.as_str()) {
        return Err(LnurlError::InvalidK1);
    }
    let supported = match &action {
        Some(action) => check_auth_action(action.as_str()),
        None => true,
    };
    if !supported {
        return Err(LnurlError::UnsupportedAction);
    }
    match domain {
        Some(domain) => Ok(LnurlAuthRequestData { k1, action, domain, url }),
        None => Err(LnurlError::MissingDomain),
    }
}

impl InputParser {
    /// Validates the login challenge that a URL carries in its query.
    ///
    /// Fails with `MissingK1` where the query has no `k1`, with `InvalidK1`
    /// where `k1` is not 32 bytes in hexadecimal, with `UnsupportedAction`
    /// where `action` is none of the four, and with `MissingDomain` where
    /// the URL has no domain, in this order.
    pub fn validate_lnurl_request(&self, url: &UrlParts) -> (r: Result<
        LnurlAuthRequestData,
        LnurlError,
    >)
        ensures
            result_view(r) == validate_spec(url@),
            r is Ok ==> r.unwrap()@.well_formed(),
    {
        let k1 = find_pair(&url.pairs, "k1");
        let action = find_pair(&url.pairs, "action");
        let domain = match &url.domain {
            Some(domain) => Some(domain.clone()),
            None => None,
        };
        validate_auth(k1, action, domain, url.href.clone())
    }

    /// Decides what is to be done with an LNURL once its URL is known: a
    /// URL whose query holds `tag=login` is validated as a login challenge,
    /// and any other URL is to be fetched.
    pub fn resolve_lnurl(&self, url: &UrlParts, source: &PaymentRequestSource) -> (r: Result<
        LnurlStep,
        LnurlError,
    >)
        ensures
            result_view(r) == resolve_spec(url@, source@),
    {
        let login = match &url.query {
            Some(query) => text_contains(query.as_str(), "tag=login"),
            None => false,
        };
        if login {
            return match self.validate_lnurl_request(url) {
                Ok(data) => Ok(LnurlStep::Auth(data)),
                Err(error) => Err(error),
            };
        }
        match &url.domain {
            Some(domain) => Ok(
                LnurlStep::Fetch(
                    LnurlQuery {
                        url: url.href.clone(),
                        domain: domain.clone(),
                        source: source.clone(),
                    },
                ),
            ),
            None => Err(LnurlError::MissingDomain),
        }
    }

    /// Reads a text as an LNURL.
    ///
    /// Returns `Ok(None)` for a text that is none: bech32 with another
    /// human-readable part than `lnurl` or with a payload that is not
    /// UTF-8, a text that is no URL, or a URL without a domain. Fails where
    /// the scheme and the domain do not go together (`http` is for onion
    /// domains only, `https` for all others), where the scheme is none of
    /// `http`, `https`, `lnurlp`, `lnurlw` and `keyauth`, and where a login
    /// challenge is not valid.
    pub fn parse_lnurl(&self, input: &str, source: &PaymentRequestSource) -> (r: Result<
        Option<LnurlStep>,
        LnurlError,
    >)
        ensures
            result_view(r) == lnurl_spec(input@, source@),
    {
        let text = match bech32_decode(input) {
            Some((hrp, payload)) => {
                if !text_equal(hrp.as_str(), "lnurl") {
                    return Ok(None);
                }
                match utf8_decode(payload) {
                    Some(decoded) => decoded,
                    None => {
                        return Ok(None);
                    },
                }
            },
            None => input.to_owned(),
        };
        let text = normalize_lnurl(text);
        let parts = match parse_url(text.as_str()) {
            Some(parts) => parts,
            None => {
                return Ok(None);
            },
        };
        let rewrite = match &parts.domain {
            Some(domain) => match check_scheme(parts.scheme.as_str(), domain.as_str()) {
                Ok(rewrite) => rewrite,
                Err(error) => {
                    return Err(error);
                },
            },
            None => {
                return Ok(None);
            },
        };
        let step = match rewrite {
            None => self.resolve_lnurl(&parts, source),
            Some(scheme) => match parse_url(rewrite_scheme(&parts, scheme).as_str()) {
                Some(rewritten) => self.resolve_lnurl(&rewritten, source),
                None => {
                    return Err(LnurlError::General("failed to rewrite lnurl scheme".to_owned()));
                },
            },
        };
        match step {
            Ok(step) => Ok(Some(step)),
            Err(error) => Err(error),
        }
    }
}

/// The text that an object holds under `key`.
fn member_text(object: &serde_json::Map<String, serde_json::Value>, key: &str) -> (r: Option<String>)
    ensures
        r.deep_view() == text_member(json_members(*object), key@),
{
    match json_member(object, key) {
        Some(JsonMember::Text(text)) => Some(text),
        _ => None,
    }
}

/// The non-negative integer that an object holds under `key`.
fn member_unsigned(object: &serde_json::Map<String, serde_json::Value>, key: &str) -> (r: Option<
    u64,
>)
    ensures
        r == unsigned_member(json_members(*object), key@),
{
    match json_member(object, key) {
        Some(JsonMember::Unsigned(value)) => Some(value),
        _ => None,
    }
}

/// The text that an object may hold under `key`.
fn member_optional_text(object: &serde_json::Map<String, serde_json::Value>, key: &str) -> (r:
    Option<Option<String>>)
    ensures
        r.deep_view() == optional_text_member(json_members(*object), key@),
{
    match json_member(object, key) {
        Some(JsonMember::Text(text)) => Some(Some(text)),
        Some(JsonMember::Null) => Some(None),
        Some(_) => None,
        None => Some(None),
    }
}

/// The flag that an object may hold under `key`.
fn member_flag(object: &serde_json::Map<String, serde_json::Value>, key: &str) -> (r: Option<bool>)
    ensures
        r == flag_member(json_members(*object), key@),
{
    match json_member(object, key) {
        Some(JsonMember::Bool(flag)) => Some(flag),
        Some(_) => None,
        None => Some(false),
    }
}

/// The 16-bit number that an object may hold under `key`.
fn member_short(object: &serde_json::Map<String, serde_json::Value>, key: &str) -> (r: Option<u16>)
    ensures
        r == short_member(json_members(*object), key@),
{
    match json_member(object, key) {
        Some(JsonMember::Unsigned(value)) => if value <= 0xFFFF {
            Some(value as u16)
        } else {
            None
        },
        Some(_) => None,
        None => Some(0),
    }
}

/// Reads an object as a pay request.
fn read_pay_request(object: &serde_json::Map<String, serde_json::Value>) -> (r: Option<
    LnurlPayRequest,
>)
    ensures
        r.deep_view() == pay_request_spec(json_members(*object)),
        r is Some ==> r.unwrap()@.well_formed(),
{
    let callback = member_text(object, "callback")?;
    let min_sendable = member_unsigned(object, "minSendable")?;
    let max_sendable = member_unsigned(object, "maxSendable")?;
    let metadata_str = member_text(object, "metadata")?;
    let comment_allowed = member_short(object, "commentAllowed")?;
    let allows_nostr = member_flag(object, "allowsNostr")?;
    let nostr_pubkey = member_optional_text(object, "nostrPubkey")?;
    if min_sendable > max_sendable {
        return None;
    }
    Some(
        LnurlPayRequest {
            callback,
            min_sendable,
            max_sendable,
            metadata_str,
            comment_allowed,
            domain: String::new(),
            url: String::new(),
            allows_nostr,
            nostr_pubkey,
        },
    )
}

/// Reads an object as a withdraw request.
fn read_withdraw_request(object: &serde_json::Map<String, serde_json::Value>) -> (r: Option<
    LnurlWithdrawRequestData,
>)
    ensures
        r.deep_view() == withdraw_request_spec(json_members(*object)),
{
    let callback = member_text(object, "callback")?;
    let k1 = member_text(object, "k1")?;
    let default_description = member_text(object, "defaultDescription")?;
    let min_withdrawable = member_unsigned(object, "minWithdrawable")?;
    let max_withdrawable = member_unsigned(object, "maxWithdrawable")?;
    Some(
        LnurlWithdrawRequestData {
            callback,
            k1,
            default_description,
            min_withdrawable,
            max_withdrawable,
        },
    )
}

/// Reads an object as a login challenge, without validating it.
fn read_auth_request(object: &serde_json::Map<String, serde_json::Value>) -> (r: Option<
    LnurlAuthRequestData,
>)
    ensures
        r.deep_view() == auth_request_spec(json_members(*object)),
{
    let k1 = member_text(object, "k1")?;
    let action = member_optional_text(object, "action")?;
    Some(LnurlAuthRequestData { k1, action, domain: String::new(), url: String::new() })
}

/// Reads an object as a refusal.
fn read_error_data(object: &serde_json::Map<String, serde_json::Value>) -> (r: Option<
    LnurlErrorData,
>)
    ensures
        r.deep_view() == error_data_spec(json_members(*object)),
{
    let reason = member_text(object, "reason")?;
    Some(LnurlErrorData { reason })
}

/// Reads the answer of an LNURL endpoint: a JSON object that is, in this
/// order of precedence, a pay request, a withdraw request, a login
/// challenge or a refusal. Anything else is an error of kind `Json`.
pub fn parse_json(json: &str) -> (r: Result<LnurlRequestData, ServiceConnectivityError>)
    ensures
        result_view(r) == json_spec(json@),
{
    let object = match parse_json_object(json) {
        Ok(object) => object,
        Err(message) => {
            return Err(ServiceConnectivityError::new(ServiceConnectivityErrorKind::Json, message));
        },
    };
    if let Some(data) = read_pay_request(&object) {
        return Ok(LnurlRequestData::PayRequest { data });
    }
    if let Some(data) = read_withdraw_request(&object) {
        return Ok(LnurlRequestData::WithdrawRequest { data });
    }
    if let Some(data) = read_auth_request(&object) {
        return Ok(LnurlRequestData::AuthRequest { data });
    }
    if let Some(data) = read_error_data(&object) {
        return Ok(LnurlRequestData::Error { data });
    }
    Err(
        ServiceConnectivityError::new(
            ServiceConnectivityErrorKind::Json,
            "data did not match any kind of LNURL response".to_owned(),
        ),
    )
}

impl InputParser {
    /// Turns the answer of an endpoint into what the input is. See
    /// [`request_data_input_spec`].
    pub fn resolve_lnurl_data(&self, query: LnurlQuery, data: LnurlRequestData) -> (r: Result<
        InputType,
        LnurlError,
    >)
        ensures
            result_view(r) == request_data_input_spec(query@, data@),
    {
        match data {
            LnurlRequestData::PayRequest { data } => {
                let mut data = data;
                data.domain = query.domain;
                data.url = query.url;
                Ok(
                    InputType::PaymentRequest(
                        PaymentRequest::PaymentMethod(PaymentMethod::LnurlPay(data)),
                    ),
                )
            },
            LnurlRequestData::WithdrawRequest { data } => Ok(
                InputType::ReceiveRequest(ReceiveRequest::LnurlWithdraw(data)),
            ),
            LnurlRequestData::AuthRequest { data } => match validate_auth(
                Some(data.k1),
                data.action,
                Some(query.domain),
                query.url,
            ) {
                Ok(valid) => Ok(InputType::LnurlAuth(valid)),
                Err(error) => Err(error),
            },
            LnurlRequestData::Error { data } => Err(
                LnurlError::EndpointError(
                    ServiceConnectivityError::new(ServiceConnectivityErrorKind::Other, data.reason),
                ),
            ),
        }
    }

    /// The second half of resolving an LNURL: reads what the endpoint
    /// answered to the request that [`InputParser::parse_lnurl`] asked for.
    ///
    /// Succeeds exactly where the request was answered with a JSON object
    /// that is a pay request, a withdraw request or a valid login
    /// challenge. A request that failed, a body that cannot be read and a
    /// refusal are endpoint errors.
    pub fn resolve_lnurl_response(
        &self,
        query: LnurlQuery,
        response: Result<String, ServiceConnectivityError>,
    ) -> (r: Result<InputType, LnurlError>)
        ensures
            result_view(r) == response_spec(query@, result_view(response)),
    {
        let body = match response {
            Ok(body) => body,
            Err(error) => {
                return Err(LnurlError::EndpointError(error));
            },
        };
        match parse_json(body.as_str()) {
            Ok(data) => self.resolve_lnurl_data(query, data),
            Err(error) => Err(LnurlError::EndpointError(error)),
        }
    }
}

} // verus!
