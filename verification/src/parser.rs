//! The input classifier.
//!
//! Classifying a text may need the network twice: a DNS lookup for a BIP353
//! address, and a request to an LNURL endpoint. The classifier itself never
//! touches the network. [`InputParser::parse`] runs as far as it can and
//! returns a [`ParseStep`]: the classification, or what the caller has to
//! fetch. The caller fetches it and hands the outcome to the method that
//! belongs to the step, which again returns a [`ParseStep`].
//!
//! The formats are tried in a fixed order, and the first that fits wins:
//! a text with `@` is a BIP353 address, else a lightning address; a text
//! with the `bitcoin:` prefix is a BIP21 URI; then come the Lightning
//! family (BOLT11, BOLT12 offer, BOLT12 invoice, BOLT12 invoice request,
//! LNURL) and the Bitcoin family (silent payment address, on-chain
//! address).

use crate::address::bitcoin_spec;
use crate::bip21::{
    bip21_spec, bundle_with_source, has_bip_21_prefix, lemma_bip21_records_uri,
    lemma_bip21_source, lemma_same_source,
};
use crate::error::{
    Bip21ErrorView, LnurlError, LnurlErrorView, ParseError, ParseErrorView, ParseResult,
    ServiceConnectivityError, ServiceConnectivityErrorView,
};
use crate::human_readable::{
    Bip353Query, Bip353QueryView, LightningAddressQuery, LightningAddressQueryView,
    bip353_name_spec, bip353_record_spec, bip353_spec, lightning_address_query_spec,
    lightning_address_spec,
};
use crate::lightning::{
    bolt12_invoice_request_spec, lemma_strip_lightning_prefix, lightning_payment_method_spec,
    lightning_prefix, parse_bolt12_invoice_request, parse_lightning_payment_method,
    strip_lightning_prefix, without_lightning_prefix,
};
use crate::lnurl::{
    LnurlQuery, LnurlQueryView, LnurlStep, LnurlStepView, lnurl_spec, response_spec,
};
use crate::models::{
    Bip21View, InputType, InputTypeView, LnurlErrorData, LnurlErrorDataView, PaymentMethod,
    PaymentMethodView, PaymentRequest, PaymentRequestSource, PaymentRequestSourceView,
    PaymentRequestView, ReceiveRequest, ReceiveRequestView, result_view,
};
use crate::text::{
    eq_ignore_ascii_case, find_char, has_prefix_spec, lemma_trim_idempotent, text_find, trim,
    trim_spec,
};
use vstd::prelude::*;

verus! {

/// The classifier. It holds no state: every decision it takes is a function
/// of the text it is given and of what the caller reports back from the
/// network.
#[derive(Clone, Copy, Debug)]
pub struct InputParser {}

/// How far classifying a text has come.
#[derive(Debug, PartialEq, Eq)]
pub enum ParseStep {
    /// The text is classified, or it cannot be.
    Done(ParseResult<InputType>),
    /// The TXT records of a DNS name are needed. Hand them to
    /// [`InputParser::on_txt_records`].
    LookupTxt(Bip353Query),
    /// The pay terms of a lightning address are needed. Hand the answer to
    /// [`InputParser::on_lightning_address_response`].
    FetchLightningAddress(LightningAddressQuery),
    /// The answer of an LNURL endpoint is needed. Hand it to
    /// [`InputParser::on_lnurl_response`].
    FetchLnurl(LnurlQuery),
}

/// The mathematical value of a [`ParseStep`].
pub enum ParseStepView {
    Done(Result<InputTypeView, ParseErrorView>),
    LookupTxt(Bip353QueryView),
    FetchLightningAddress(LightningAddressQueryView),
    FetchLnurl(LnurlQueryView),
}

impl DeepView for ParseStep {
    type V = ParseStepView;

    open spec fn deep_view(&self) -> ParseStepView {
        match self {
            ParseStep::Done(x) => ParseStepView::Done(result_view(*x)),
            ParseStep::LookupTxt(x) => ParseStepView::LookupTxt(x.deep_view()),
            ParseStep::FetchLightningAddress(x) => ParseStepView::FetchLightningAddress(
                x.deep_view(),
            ),
            ParseStep::FetchLnurl(x) => ParseStepView::FetchLnurl(x.deep_view()),
        }
    }
}

impl View for ParseStep {
    type V = ParseStepView;

    open spec fn view(&self) -> ParseStepView {
        self.deep_view()
    }
}

/// How a failure to resolve an LNURL is reported by the classifier: an
/// endpoint error with its message, and every broken rule as an invalid
/// input.
pub open spec fn lnurl_parse_error(error: LnurlErrorView) -> ParseErrorView {
    match error {
        LnurlErrorView::EndpointError(cause) => ParseErrorView::LnurlError(
            LnurlErrorDataView { reason: cause.err },
        ),
        _ => ParseErrorView::InvalidInput,
    }
}

/// A single payment method as a classification.
pub open spec fn method_input(method: PaymentMethodView) -> InputTypeView {
    InputTypeView::PaymentRequest(PaymentRequestView::PaymentMethod(method))
}

/// A bundle as a classification.
pub open spec fn bundle_input(bundle: Bip21View) -> InputTypeView {
    InputTypeView::PaymentRequest(PaymentRequestView::Bip21(bundle))
}

/// The classification of a text as one of the Bitcoin family, the last
/// that is tried.
pub open spec fn bitcoin_step(input: Seq<char>) -> ParseStepView {
    match bitcoin_spec(input, PaymentRequestSource::none_spec()) {
        Some(classified) => ParseStepView::Done(Ok(classified)),
        None => ParseStepView::Done(Err(ParseErrorView::InvalidInput)),
    }
}

/// The classification of a text as one of the Lightning family, and after
/// that as one of the Bitcoin family. The `lightning:` prefix is dropped
/// for the first and kept for the second.
pub open spec fn lightning_step(input: Seq<char>) -> ParseStepView {
    let source = PaymentRequestSource::none_spec();
    let text = strip_lightning_prefix(input);
    if lightning_payment_method_spec(text, source) is Some {
        ParseStepView::Done(Ok(method_input(lightning_payment_method_spec(text, source).unwrap())))
    } else if bolt12_invoice_request_spec(text, source) is Some {
        ParseStepView::Done(
            Ok(
                InputTypeView::ReceiveRequest(
                    ReceiveRequestView::Bolt12InvoiceRequest(
                        bolt12_invoice_request_spec(text, source).unwrap(),
                    ),
                ),
            ),
        )
    } else {
        match lnurl_spec(text, source) {
            Err(error) => ParseStepView::Done(Err(lnurl_parse_error(error))),
            Ok(Some(LnurlStepView::Auth(data))) => ParseStepView::Done(
                Ok(InputTypeView::LnurlAuth(data)),
            ),
            Ok(Some(LnurlStepView::Fetch(query))) => ParseStepView::FetchLnurl(query),
            Ok(None) => bitcoin_step(input),
        }
    }
}

/// The classification of a text that is no human-readable address: a BIP21
/// URI where it has the `bitcoin:` prefix, and one of the Lightning or the
/// Bitcoin family otherwise. A URI that does not decode is an invalid
/// input.
pub open spec fn prefixed_step(input: Seq<char>) -> ParseStepView {
    if has_prefix_spec(input, "bitcoin:"@) {
        match bip21_spec(
            input,
            PaymentRequestSourceView { bip_21_uri: Some(input), bip_353_address: None },
        ) {
            Err(_) => ParseStepView::Done(Err(ParseErrorView::InvalidInput)),
            Ok(Some(bundle)) => ParseStepView::Done(Ok(bundle_input(bundle))),
            Ok(None) => lightning_step(input),
        }
    } else {
        lightning_step(input)
    }
}

/// The classification of a text that is no BIP353 address: the request for
/// the pay terms of a lightning address where it is one, and what
/// [`prefixed_step`] says where it is none.
pub open spec fn lightning_address_step(input: Seq<char>) -> ParseStepView {
    match lightning_address_query_spec(input) {
        Some(query) => ParseStepView::FetchLightningAddress(query),
        None => prefixed_step(input),
    }
}

/// Where classifying `input` begins. The text is trimmed. An empty text is
/// an error. A text with `@` is resolved as a human-readable address
/// first.
pub open spec fn parse_spec(input: Seq<char>) -> ParseStepView {
    let text = trim_spec(input);
    if text.len() == 0 {
        ParseStepView::Done(Err(ParseErrorView::EmptyInput))
    } else if find_char(text, '@') < text.len() {
        match bip353_name_spec(text) {
            Some(dns_name) => ParseStepView::LookupTxt(Bip353QueryView { input: text, dns_name }),
            None => lightning_address_step(text),
        }
    } else {
        prefixed_step(text)
    }
}

/// Where classifying goes on once the TXT records are known. A record that
/// is a BIP21 URI classifies the text, a record that is a broken URI makes
/// it invalid, and without a record the text is tried as a lightning
/// address.
pub open spec fn txt_records_spec(
    query: Bip353QueryView,
    records: Option<Seq<Seq<char>>>,
) -> ParseStepView {
    match bip353_spec(query.input, records) {
        Err(_) => ParseStepView::Done(Err(ParseErrorView::InvalidInput)),
        Ok(Some(bundle)) => ParseStepView::Done(Ok(bundle_input(bundle))),
        Ok(None) => lightning_address_step(query.input),
    }
}

/// Where classifying goes on once the answer for a lightning address is
/// known. Pay terms classify the text; any other answer sends it on to
/// [`prefixed_step`].
pub open spec fn lightning_address_response_spec(
    query: LightningAddressQueryView,
    response: Result<Seq<char>, ServiceConnectivityErrorView>,
) -> ParseStepView {
    match lightning_address_spec(query, response) {
        Some(address) => ParseStepView::Done(
            Ok(method_input(PaymentMethodView::LightningAddress(address))),
        ),
        None => prefixed_step(query.input),
    }
}

/// Where classifying ends once the answer of an LNURL endpoint is known.
pub open spec fn lnurl_response_spec(
    query: LnurlQueryView,
    response: Result<Seq<char>, ServiceConnectivityErrorView>,
) -> ParseStepView {
    match response_spec(query, response) {
        Ok(classified) => ParseStepView::Done(Ok(classified)),
        Err(error) => ParseStepView::Done(Err(lnurl_parse_error(error))),
    }
}

/// What holds of every classification: a login challenge is 32 bytes in
/// hexadecimal with one of the four actions or none, the least amount of
/// pay terms does not exceed the greatest, and a bundle offers at least one
/// payment method.
pub open spec fn input_well_formed(input: InputTypeView) -> bool {
    match input {
        InputTypeView::LnurlAuth(data) => data.well_formed(),
        InputTypeView::PaymentRequest(PaymentRequestView::Bip21(bundle)) => {
            bundle.payment_methods.len() > 0
        },
        InputTypeView::PaymentRequest(
            PaymentRequestView::PaymentMethod(PaymentMethodView::LnurlPay(pay_request)),
        ) => pay_request.well_formed(),
        InputTypeView::PaymentRequest(
            PaymentRequestView::PaymentMethod(PaymentMethodView::LightningAddress(address)),
        ) => address.pay_request.well_formed(),
        _ => true,
    }
}

/// A step that ends in a classification ends in a well-formed one.
pub open spec fn step_well_formed(step: ParseStepView) -> bool {
    match step {
        ParseStepView::Done(Ok(classified)) => input_well_formed(classified),
        _ => true,
    }
}

/// What an endpoint answered is classified as something well formed, if it
/// is classified at all.
pub proof fn lemma_response_well_formed(
    query: LnurlQueryView,
    response: Result<Seq<char>, ServiceConnectivityErrorView>,
)
    ensures
        response_spec(query, response) is Ok ==> input_well_formed(
            response_spec(query, response)->Ok_0,
        ),
{
}

/// A text that is no human-readable address is classified, if at all, as
/// something well formed.
pub proof fn lemma_prefixed_well_formed(input: Seq<char>)
    ensures
        step_well_formed(prefixed_step(input)),
{
}

/// Wherever classifying ends, at once or after the network was asked, it
/// ends in a well-formed classification or in an error.
pub proof fn lemma_classification_well_formed(
    input: Seq<char>,
    bip353: Bip353QueryView,
    records: Option<Seq<Seq<char>>>,
    address: LightningAddressQueryView,
    lnurl: LnurlQueryView,
    response: Result<Seq<char>, ServiceConnectivityErrorView>,
)
    ensures
        step_well_formed(parse_spec(input)),
        step_well_formed(txt_records_spec(bip353, records)),
        step_well_formed(lightning_address_response_spec(address, response)),
        step_well_formed(lnurl_response_spec(lnurl, response)),
{
    lemma_prefixed_well_formed(trim_spec(input));
    lemma_prefixed_well_formed(bip353.input);
    lemma_prefixed_well_formed(address.input);
    lemma_response_well_formed(lnurl, response);
    lemma_response_well_formed(address.request, response);
}

/// Whitespace around a text does not change how it is classified.
pub proof fn lemma_parse_trims(input: Seq<char>)
    ensures
        parse_spec(trim_spec(input)) == parse_spec(input),
{
    lemma_trim_idempotent(input);
}

/// Two texts that differ in the whitespace around them only are classified
/// alike.
pub proof fn lemma_parse_whitespace_invariant(a: Seq<char>, b: Seq<char>)
    requires
        trim_spec(a) == trim_spec(b),
    ensures
        parse_spec(a) == parse_spec(b),
{
}

/// A bundle that a text with the `bitcoin:` prefix is classified as holds
/// that text as its URI and as the URI in the source of each of its
/// methods, and the URI is classified as the same bundle again.
pub proof fn lemma_reparse_bundle(input: Seq<char>, bundle: Bip21View)
    requires
        has_prefix_spec(input, "bitcoin:"@),
        prefixed_step(input) == ParseStepView::Done(Ok(bundle_input(bundle))),
    ensures
        bundle.uri == input,
        forall|i: int|
            0 <= i < bundle.payment_methods.len() ==> (#[trigger] bundle.payment_methods[i]).source()
                == Some(
                PaymentRequestSourceView { bip_21_uri: Some(bundle.uri), bip_353_address: None },
            ),
        prefixed_step(bundle.uri) == ParseStepView::Done(Ok(bundle_input(bundle))),
{
    let source = PaymentRequestSourceView { bip_21_uri: Some(input), bip_353_address: None };
    assert(bip21_spec(input, source) == Ok::<Option<Bip21View>, Bip21ErrorView>(Some(bundle)));
    lemma_bip21_records_uri(input, source);
}

/// A text without the `bitcoin:` prefix is never classified as a bundle.
pub proof fn lemma_bundle_needs_prefix(input: Seq<char>, bundle: Bip21View)
    requires
        prefixed_step(input) == ParseStepView::Done(Ok(bundle_input(bundle))),
    ensures
        has_prefix_spec(input, "bitcoin:"@),
{
}

/// Classifying the URI of a bundle gives the bundle again: where a text
/// without `@` is classified as a bundle, the URI that the bundle holds is
/// classified as the same bundle.
pub proof fn lemma_reparse(input: Seq<char>, bundle: Bip21View)
    requires
        find_char(trim_spec(input), '@') >= trim_spec(input).len(),
        parse_spec(input) == ParseStepView::Done(Ok(bundle_input(bundle))),
    ensures
        bundle.uri == trim_spec(input),
        parse_spec(bundle.uri) == parse_spec(input),
{
    let text = trim_spec(input);
    lemma_bundle_needs_prefix(text, bundle);
    lemma_reparse_bundle(text, bundle);
    lemma_parse_trims(input);
}

/// The source of a method that was found in a URI given directly.
pub open spec fn uri_source(uri: Seq<char>) -> PaymentRequestSourceView {
    PaymentRequestSourceView { bip_21_uri: Some(uri), bip_353_address: None }
}

/// Classifying the URI of a bundle that was resolved from a human-readable
/// address gives the bundle again, but for the address in the sources of
/// its methods: whatever bundle the TXT records of an address come to, its
/// URI has the `bitcoin:` prefix, is the URI in the source of each of its
/// methods, and is classified as the same bundle with each method taken as
/// found in that URI alone.
pub proof fn lemma_reparse_resolved(
    query: Bip353QueryView,
    records: Option<Seq<Seq<char>>>,
    bundle: Bip21View,
)
    requires
        txt_records_spec(query, records) == ParseStepView::Done(Ok(bundle_input(bundle))),
    ensures
        has_prefix_spec(bundle.uri, "bitcoin:"@),
        forall|i: int|
            0 <= i < bundle.payment_methods.len() && (#[trigger] bundle.payment_methods[i]).source()
                is Some ==> bundle.payment_methods[i].source().unwrap().bip_21_uri == Some(
                bundle.uri,
            ),
        prefixed_step(bundle.uri) == ParseStepView::Done(
            Ok(bundle_input(bundle_with_source(bundle, uri_source(bundle.uri)))),
        ),
{
    if bip353_spec(query.input, records) is Ok && bip353_spec(query.input, records)->Ok_0 is Some {
        let uri = bip353_record_spec(records.unwrap()).unwrap();
        let source = PaymentRequestSourceView {
            bip_21_uri: Some(uri),
            bip_353_address: Some(query.input),
        };
        assert(bip21_spec(uri, source) == Ok::<Option<Bip21View>, Bip21ErrorView>(Some(bundle)));
        lemma_bip21_records_uri(uri, source);
        lemma_bip21_source(uri, source, uri_source(uri));
    } else {
        let text = query.input;
        assert(prefixed_step(text) == ParseStepView::Done(Ok(bundle_input(bundle))));
        lemma_bundle_needs_prefix(text, bundle);
        lemma_reparse_bundle(text, bundle);
        lemma_bip21_records_uri(text, uri_source(text));
        lemma_same_source(bundle, text, uri_source(text));
    }
}

/// With a `lightning:` prefix or without, in letters of any case, a
/// Lightning payment method is classified alike.
pub proof fn lemma_lightning_prefix_case(prefix: Seq<char>, rest: Seq<char>)
    requires
        eq_ignore_ascii_case(prefix, lightning_prefix()),
        !has_prefix_spec(rest, lightning_prefix()),
        lightning_payment_method_spec(rest, PaymentRequestSource::none_spec()) is Some,
    ensures
        lightning_step(prefix + rest) == lightning_step(rest),
        lightning_step(rest) == ParseStepView::Done(
            Ok(
                method_input(
                    lightning_payment_method_spec(rest, PaymentRequestSource::none_spec()).unwrap(),
                ),
            ),
        ),
{
    lemma_strip_lightning_prefix(prefix, rest);
}

/// Reports a failure to resolve an LNURL as the classifier does.
pub fn to_parse_error(error: LnurlError) -> (r: ParseError)
    ensures
        r@ == lnurl_parse_error(error@),
{
    match error {
        LnurlError::EndpointError(cause) => ParseError::LnurlError(
            LnurlErrorData { reason: cause.err },
        ),
        _ => ParseError::InvalidInput,
    }
}

impl InputParser {
    /// A classifier.
    pub fn new() -> (r: Self) {
        InputParser {  }
    }

    /// Begins to classify `input`.
    ///
    /// Returns `Done` with `EmptyInput` for a text that is empty once it is
    /// trimmed. Returns `LookupTxt` or `FetchLightningAddress` for a text
    /// with `@` that is an address of that kind. For every other text, see
    /// [`InputParser::parse_prefixed`].
    pub fn parse(&self, input: &str) -> (r: ParseStep)
        ensures
            r@ == parse_spec(input@),
    {
        let text = trim(input);
        if text.as_str().is_empty() {
            return ParseStep::Done(Err(ParseError::EmptyInput));
        }
        if text_find(text.as_str(), '@') < text.as_str().unicode_len() {
            return match self.bip_353_query(text.as_str()) {
                Some(query) => ParseStep::LookupTxt(query),
                None => self.parse_lightning_address_step(text.as_str()),
            };
        }
        self.parse_prefixed(text.as_str())
    }

    /// Goes on once the TXT records of a BIP353 address are known; `None`
    /// says that the lookup failed.
    pub fn on_txt_records(&self, query: Bip353Query, records: Option<Vec<String>>) -> (r: ParseStep)
        ensures
            r@ == txt_records_spec(query@, records.deep_view()),
    {
        match self.parse_bip_353(query.input.as_str(), records) {
            Err(_) => ParseStep::Done(Err(ParseError::InvalidInput)),
            Ok(Some(bundle)) => ParseStep::Done(
                Ok(InputType::PaymentRequest(PaymentRequest::Bip21(bundle))),
            ),
            Ok(None) => self.parse_lightning_address_step(query.input.as_str()),
        }
    }

    /// Goes on once the answer to the request for a lightning address is
    /// known.
    pub fn on_lightning_address_response(
        &self,
        query: LightningAddressQuery,
        response: Result<String, ServiceConnectivityError>,
    ) -> (r: ParseStep)
        ensures
            r@ == lightning_address_response_spec(query@, result_view(response)),
    {
        let input = query.input.clone();
        match self.parse_lightning_address(query, response) {
            Some(address) => ParseStep::Done(
                Ok(
                    InputType::PaymentRequest(
                        PaymentRequest::PaymentMethod(PaymentMethod::LightningAddress(address)),
                    ),
                ),
            ),
            None => self.parse_prefixed(input.as_str()),
        }
    }

    /// Ends the classification once the answer of an LNURL endpoint is
    /// known.
    pub fn on_lnurl_response(
        &self,
        query: LnurlQuery,
        response: Result<String, ServiceConnectivityError>,
    ) -> (r: ParseStep)
        ensures
            r@ == lnurl_response_spec(query@, result_view(response)),
    {
        match self.resolve_lnurl_response(query, response) {
            Ok(classified) => ParseStep::Done(Ok(classified)),
            Err(error) => ParseStep::Done(Err(to_parse_error(error))),
        }
    }

    /// Classifies a text that is no BIP353 address: asks for the pay terms
    /// of a lightning address where it is one.
    pub fn parse_lightning_address_step(&self, input: &str) -> (r: ParseStep)
        ensures
            r@ == lightning_address_step(input@),
    {
        match self.lightning_address_query(input) {
            Some(query) => ParseStep::FetchLightningAddress(query),
            None => self.parse_prefixed(input),
        }
    }

    /// Classifies a text that is no human-readable address. With the
    /// `bitcoin:` prefix it is a BIP21 URI, and `InvalidInput` where the
    /// URI does not decode. Without it, see [`InputParser::parse_lightning`].
    pub fn parse_prefixed(&self, input: &str) -> (r: ParseStep)
        ensures
            r@ == prefixed_step(input@),
    {
        if has_bip_21_prefix(input) {
            let source = PaymentRequestSource {
                bip_21_uri: Some(input.to_owned()),
                bip_353_address: None,
            };
            match self.parse_bip_21(input, source) {
                Err(_) => {
                    return ParseStep::Done(Err(ParseError::InvalidInput));
                },
                Ok(Some(bundle)) => {
                    return ParseStep::Done(
                        Ok(InputType::PaymentRequest(PaymentRequest::Bip21(bundle))),
                    );
                },
                Ok(None) => {},
            }
        }
        self.parse_lightning(input)
    }

    /// Classifies a text as one of the Lightning family: a BOLT11 invoice, a
    /// BOLT12 offer, a BOLT12 invoice, a BOLT12 invoice request or an
    /// LNURL, in this order, and as one of the Bitcoin family where it is
    /// none of them. A text that is nothing at all is `InvalidInput`.
    pub fn parse_lightning(&self, input: &str) -> (r: ParseStep)
        ensures
            r@ == lightning_step(input@),
    {
        let source = PaymentRequestSource::default();
        let text = without_lightning_prefix(input);
        if let Some(method) = parse_lightning_payment_method(text, &source) {
            return ParseStep::Done(
                Ok(InputType::PaymentRequest(PaymentRequest::PaymentMethod(method))),
            );
        }
        if let Some(request) = parse_bolt12_invoice_request(text, &source) {
            return ParseStep::Done(
                Ok(InputType::ReceiveRequest(ReceiveRequest::Bolt12InvoiceRequest(request))),
            );
        }
        match self.parse_lnurl(text, &source) {
            Err(error) => ParseStep::Done(Err(to_parse_error(error))),
            Ok(Some(LnurlStep::Auth(data))) => ParseStep::Done(Ok(InputType::LnurlAuth(data))),
            Ok(Some(LnurlStep::Fetch(query))) => ParseStep::FetchLnurl(query),
            Ok(None) => match self.parse_bitcoin(input, &source) {
                Some(classified) => ParseStep::Done(Ok(classified)),
                None => ParseStep::Done(Err(ParseError::InvalidInput)),
            },
        }
    }
}

} // verus!
