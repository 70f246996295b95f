//! Human-readable addresses: `user@domain`, resolved over DNS (BIP353) or
//! as a lightning address.
//!
//! Both resolutions need the network, so each comes in two halves: one that
//! says what to ask, and one that reads the answer.

use crate::bip21::bip21_spec;
use crate::encoding::{lowercase_of, to_lowercase};
use crate::error::{
    Bip21Error, Bip21ErrorView, ServiceConnectivityError, ServiceConnectivityErrorView,
};
use crate::lnurl::{
    LnurlQuery, LnurlQueryView, LnurlStep, LnurlStepView, is_onion, is_onion_domain,
    resolve_spec, response_spec,
};
use crate::models::{
    Bip21, Bip21View, InputType, InputTypeView, LightningAddress, LightningAddressView,
    PaymentMethod, PaymentMethodView, PaymentRequest, PaymentRequestSource,
    PaymentRequestSourceView, PaymentRequestView, result_view,
};
use crate::parser::InputParser;
use crate::text::{
    find_char, has_prefix, has_prefix_spec, leading_chars, text_find, text_skip, text_take,
    to_chars,
};
use crate::web::{parse_url, url_parsed};
use vstd::prelude::*;

verus! {

/// A DNS lookup that has yet to be made.
#[derive(Debug, PartialEq, Eq)]
pub struct Bip353Query {
    /// The address that is being resolved.
    pub input: String,
    /// The name whose TXT records are wanted.
    pub dns_name: String,
}

/// The mathematical value of a [`Bip353Query`].
pub struct Bip353QueryView {
    pub input: Seq<char>,
    pub dns_name: Seq<char>,
}

impl DeepView for Bip353Query {
    type V = Bip353QueryView;

    open spec fn deep_view(&self) -> Bip353QueryView {
        Bip353QueryView {
            input: self.input.deep_view(),
            dns_name: self.dns_name.deep_view(),
        }
    }
}

impl View for Bip353Query {
    type V = Bip353QueryView;

    open spec fn view(&self) -> Bip353QueryView {
        self.deep_view()
    }
}

/// A request for the pay terms of a lightning address that has yet to be made.
#[derive(Debug, PartialEq, Eq)]
pub struct LightningAddressQuery {
    /// The text that is being resolved.
    pub input: String,
    /// The address in lower case, without a leading `\u{20BF}`.
    pub address: String,
    /// The request to make.
    pub request: LnurlQuery,
}

/// The mathematical value of a [`LightningAddressQuery`].
pub struct LightningAddressQueryView {
    pub input: Seq<char>,
    pub address: Seq<char>,
    pub request: LnurlQueryView,
}

impl DeepView for LightningAddressQuery {
    type V = LightningAddressQueryView;

    open spec fn deep_view(&self) -> LightningAddressQueryView {
        LightningAddressQueryView {
            input: self.input.deep_view(),
            address: self.address.deep_view(),
            request: self.request.deep_view(),
        }
    }
}

impl View for LightningAddressQuery {
    type V = LightningAddressQueryView;

    open spec fn view(&self) -> LightningAddressQueryView {
        self.deep_view()
    }
}

/// The two sides of the first `@` in `input`, once a leading `\u{20BF}` is
/// dropped. `None` where `input` holds no `@`.
pub open spec fn split_address(input: Seq<char>) -> Option<(Seq<char>, Seq<char>)> {
    let text = if input.len() > 0 && input[0] == '\u{20BF}' {
        input.skip(1)
    } else {
        input
    };
    let at = find_char(text, '@');
    if at < text.len() {
        Some((text.take(at), text.skip(at + 1)))
    } else {
        None
    }
}

/// The DNS name that holds the payment instructions of an address:
/// `{local}.user._bitcoin-payment.{domain}`. `None` where `input` is no
/// address, or where either side is longer than 63 characters.
pub open spec fn bip353_name_spec(input: Seq<char>) -> Option<Seq<char>> {
    match split_address(input) {
        Some((local, domain)) => if local.len() > 63 || domain.len() > 63 {
            None
        } else {
            Some(local + "."@ + "user._bitcoin-payment"@ + "."@ + domain)
        },
        None => None,
    }
}

/// The index of the first record at or after `from` that begins with
/// `bitcoin:`, or the number of records where there is none.
pub open spec fn first_uri_from(records: Seq<Seq<char>>, from: int) -> int
    decreases records.len() - from,
{
    if from < 0 || from >= records.len() {
        records.len() as int
    } else if has_prefix_spec(records[from], "bitcoin:"@) {
        from
    } else {
        first_uri_from(records, from + 1)
    }
}

/// The record that begins with `bitcoin:`, where exactly one does.
pub open spec fn bip353_record_spec(records: Seq<Seq<char>>) -> Option<Seq<char>> {
    let first = first_uri_from(records, 0);
    if 0 <= first < records.len() && first_uri_from(records, first + 1) >= records.len() {
        Some(records[first])
    } else {
        None
    }
}

/// What the TXT records of an address come to. No records and no single
/// `bitcoin:` record among them come to nothing. The one `bitcoin:` record
/// is decoded as a BIP21 URI whose source is the record and the address.
pub open spec fn bip353_spec(input: Seq<char>, records: Option<Seq<Seq<char>>>) -> Result<
    Option<Bip21View>,
    Bip21ErrorView,
> {
    match records {
        None => Ok(None),
        Some(records) => match bip353_record_spec(records) {
            None => Ok(None),
            Some(uri) => bip21_spec(
                uri,
                PaymentRequestSourceView { bip_21_uri: Some(uri), bip_353_address: Some(input) },
            ),
        },
    }
}

/// A character that the user part of a lightning address may hold.
pub open spec fn is_user_char(c: char) -> bool {
    ('a' <= c && c <= 'z') || ('0' <= c && c <= '9') || c == '.' || c == '_' || c == '-'
}

/// A user part: one character or more, each a lower-case letter, a digit,
/// `.`, `_` or `-`.
pub open spec fn is_user(user: Seq<char>) -> bool {
    user.len() > 0 && forall|i: int| 0 <= i < user.len() ==> is_user_char(#[trigger] user[i])
}

/// The URL of the pay terms of `user` at `domain`: `http` for an onion
/// domain and `https` for any other.
pub open spec fn well_known_url(user: Seq<char>, domain: Seq<char>) -> Seq<char> {
    (if is_onion(domain) {
        "http://"@
    } else {
        "https://"@
    }) + domain + "/.well-known/lnurlp/"@ + user
}

/// The request that resolves a lightning address. `None` where `input` is
/// no address, where its user part is not one, where the URL of its pay
/// terms does not parse, and where that URL is anything but one to fetch.
pub open spec fn lightning_address_query_spec(input: Seq<char>) -> Option<
    LightningAddressQueryView,
> {
    match split_address(input) {
        None => None,
        Some((user, domain)) => {
            let user = lowercase_of(user);
            let domain = lowercase_of(domain);
            if !is_user(user) {
                None
            } else {
                match url_parsed(well_known_url(user, domain)) {
                    None => None,
                    Some(parts) => match resolve_spec(parts, PaymentRequestSource::none_spec()) {
                        Ok(LnurlStepView::Fetch(request)) => Some(
                            LightningAddressQueryView {
                                input,
                                address: user + "@"@ + domain,
                                request,
                            },
                        ),
                        _ => None,
                    },
                }
            }
        },
    }
}

/// The lightning address that the answer to a request comes to: the address
/// and the pay terms, where the answer is a pay request, and nothing in
/// every other case.
pub open spec fn lightning_address_spec(
    query: LightningAddressQueryView,
    response: Result<Seq<char>, ServiceConnectivityErrorView>,
) -> Option<LightningAddressView> {
    match response_spec(query.request, response) {
        Ok(
            InputTypeView::PaymentRequest(
                PaymentRequestView::PaymentMethod(PaymentMethodView::LnurlPay(pay_request)),
            ),
        ) => Some(LightningAddressView { address: query.address, pay_request }),
        _ => None,
    }
}

/// The two sides of the first `@` in `input`, once a leading `\u{20BF}` is
/// dropped.
pub fn split_at_sign(input: &str) -> (r: Option<(&str, &str)>)
    ensures
        match r {
            Some((local, domain)) => split_address(input@) == Some((local@, domain@)),
            None => split_address(input@) is None,
        },
{
    let head = leading_chars(input, 1);
    let text = if head.len() > 0 && head[0] == '\u{20BF}' {
        text_skip(input, 1)
    } else {
        input
    };
    let at = text_find(text, '@');
    if at < text.unicode_len() {
        Some((text_take(text, at), text_skip(text, at + 1)))
    } else {
        None
    }
}

/// The record that begins with `bitcoin:`, where exactly one does.
pub fn extract_bip353_record(records: Vec<String>) -> (r: Option<String>)
    ensures
        r.deep_view() == bip353_record_spec(records.deep_view()),
{
    let ghost all = records.deep_view();
    let mut found: Option<usize> = None;
    let mut i: usize = 0;
    while i < records.len()
        invariant
            i <= records@.len(),
            all == records.deep_view(),
            match found {
                None => first_uri_from(all, 0) == first_uri_from(all, i as int),
                Some(first) => first < i && first_uri_from(all, 0) == first && first_uri_from(
                    all,
                    first + 1,
                ) == first_uri_from(all, i as int),
            },
        decreases records@.len() - i,
    {
        assert(all[i as int] == records@[i as int]@);
        if has_prefix(records[i].as_str(), "bitcoin:") {
            match found {
                Some(_) => {
                    return None;
                },
                None => {
                    found = Some(i);
                },
            }
        }
        i += 1;
    }
    match found {
        Some(first) => {
            assert(all[first as int] == records@[first as int]@);
            Some(records[first].clone())
        },
        None => None,
    }
}

/// Whether `user` is one character or more, each a lower-case letter, a
/// digit, `.`, `_` or `-`.
pub fn check_user(user: &str) -> (r: bool)
    ensures
        r == is_user(user@),
{
    let chars = to_chars(user);
    if chars.len() == 0 {
        return false;
    }
    let mut i: usize = 0;
    while i < chars.len()
        invariant
            i <= chars@.len(),
            chars@ == user@,
            forall|j: int| 0 <= j < i ==> is_user_char(#[trigger] chars@[j]),
        decreases chars@.len() - i,
    {
        let c = chars[i];
        let ok = ('a' <= c && c <= 'z') || ('0' <= c && c <= '9') || c == '.' || c == '_' || c
            == '-';
        if !ok {
            assert(!is_user_char(user@[i as int]));
            return false;
        }
        i += 1;
    }
    true
}

impl InputParser {
    /// The first half of resolving a BIP353 address: the DNS lookup to
    /// make. Returns `None` for a text that is no address, and for one
    /// whose local part or domain is longer than 63 characters.
    pub fn bip_353_query(&self, input: &str) -> (r: Option<Bip353Query>)
        ensures
            match r {
                Some(query) => bip353_name_spec(input@) == Some(query.dns_name@) && query.input@
                    == input@,
                None => bip353_name_spec(input@) is None,
            },
    {
        let (local, domain) = match split_at_sign(input) {
            Some(parts) => parts,
            None => {
                return None;
            },
        };
        if local.unicode_len() > 63 || domain.unicode_len() > 63 {
            return None;
        }
        let mut dns_name = local.to_owned();
        dns_name.append(".");
        dns_name.append("user._bitcoin-payment");
        dns_name.append(".");
        dns_name.append(domain);
        Some(Bip353Query { input: input.to_owned(), dns_name })
    }

    /// The second half of resolving a BIP353 address: reads the TXT records
    /// that were found, or `None` where the lookup failed.
    ///
    /// Returns `Ok(None)` where the lookup failed and where the records do
    /// not hold exactly one that begins with `bitcoin:`. Otherwise decodes
    /// that record as a BIP21 URI, as [`InputParser::parse_bip_21`] does,
    /// with the record and the address as its source.
    pub fn parse_bip_353(&self, input: &str, records: Option<Vec<String>>) -> (r: Result<
        Option<Bip21>,
        Bip21Error,
    >)
        ensures
            result_view(r) == bip353_spec(input@, records.deep_view()),
    {
        let records = match records {
            Some(records) => records,
            None => {
                return Ok(None);
            },
        };
        let uri = match extract_bip353_record(records) {
            Some(uri) => uri,
            None => {
                return Ok(None);
            },
        };
        let source = PaymentRequestSource {
            bip_21_uri: Some(uri.clone()),
            bip_353_address: Some(input.to_owned()),
        };
        self.parse_bip_21(uri.as_str(), source)
    }

    /// The first half of resolving a lightning address: the request for its
    /// pay terms. Returns `None` for a text that is no lightning address.
    pub fn lightning_address_query(&self, input: &str) -> (r: Option<LightningAddressQuery>)
        ensures
            r.deep_view() == lightning_address_query_spec(input@),
    {
        let (user, domain) = match split_at_sign(input) {
            Some(parts) => parts,
            None => {
                return None;
            },
        };
        let user = to_lowercase(user);
        let domain = to_lowercase(domain);
        if !check_user(user.as_str()) {
            return None;
        }
        let mut url = if is_onion_domain(domain.as_str()) {
            "http://".to_owned()
        } else {
            "https://".to_owned()
        };
        url.append(domain.as_str());
        url.append("/.well-known/lnurlp/");
        url.append(user.as_str());
        let parts = match parse_url(url.as_str()) {
            Some(parts) => parts,
            None => {
                return None;
            },
        };
        let source = PaymentRequestSource::default();
        let request = match self.resolve_lnurl(&parts, &source) {
            Ok(LnurlStep::Fetch(request)) => request,
            _ => {
                return None;
            },
        };
        let mut address = user;
        address.append("@");
        address.append(domain.as_str());
        Some(LightningAddressQuery { input: input.to_owned(), address, request })
    }

    /// The second half of resolving a lightning address: reads the answer
    /// to the request. Returns the address with its pay terms where the
    /// answer is a pay request, and `None` in every other case.
    pub fn parse_lightning_address(
        &self,
        query: LightningAddressQuery,
        response: Result<String, ServiceConnectivityError>,
    ) -> (r: Option<LightningAddress>)
        ensures
            r.deep_view() == lightning_address_spec(query@, result_view(response)),
    {
        match self.resolve_lnurl_response(query.request, response) {
            Ok(InputType::PaymentRequest(PaymentRequest::PaymentMethod(PaymentMethod::LnurlPay(
                pay_request,
            )))) => Some(LightningAddress { address: query.address, pay_request }),
            _ => None,
        }
    }
}

} // verus!
