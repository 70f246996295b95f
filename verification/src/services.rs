//! Payment-method resolution: picking the one method to pay with.
//!
//! A request to pay is a single method or a BIP21 bundle of alternatives. A
//! single method is what it is. From a bundle, the wallet takes the method
//! of the kind it likes best among those present: it goes through its own
//! list of supported kinds in order and stops at the first kind that the
//! bundle offers. Where the bundle offers several methods of that kind, the
//! first of them counts.

use crate::error::{ParseError, PickPaymentMethodError};
use crate::models::{
    Bip21, Bip21View, BitcoinAddress, BitcoinAddressView, Bolt11Invoice, Bolt11InvoiceView,
    Bolt12Invoice, Bolt12InvoiceView, Bolt12Offer, Bolt12OfferView, InputType, InputTypeView,
    LightningAddress, LightningAddressView, LiquidAddress, LiquidAddressView,
    LnurlAuthRequestData, LnurlAuthRequestDataView, LnurlPayRequest, LnurlPayRequestView,
    PaymentMethod, PaymentMethodType, PaymentMethodView, PaymentRequest, PaymentRequestView,
    ReceiveRequest, ReceiveRequestView, SilentPaymentAddress, SilentPaymentAddressView,
};
use vstd::prelude::*;

verus! {

/// A way to pay on chain.
#[derive(Clone, Debug, PartialEq, Eq)]
pub enum BitcoinPaymentMethod {
    BitcoinAddress(BitcoinAddress),
    SilentPaymentAddress(SilentPaymentAddress),
}

/// The mathematical value of a [`BitcoinPaymentMethod`].
pub enum BitcoinPaymentMethodView {
    BitcoinAddress(BitcoinAddressView),
    SilentPaymentAddress(SilentPaymentAddressView),
}

impl DeepView for BitcoinPaymentMethod {
    type V = BitcoinPaymentMethodView;

    open spec fn deep_view(&self) -> BitcoinPaymentMethodView {
        match self {
            BitcoinPaymentMethod::BitcoinAddress(x) => BitcoinPaymentMethodView::BitcoinAddress(
                x.deep_view(),
            ),
            BitcoinPaymentMethod::SilentPaymentAddress(x) => BitcoinPaymentMethodView::SilentPaymentAddress(
                x.deep_view(),
            ),
        }
    }
}

impl View for BitcoinPaymentMethod {
    type V = BitcoinPaymentMethodView;

    open spec fn view(&self) -> BitcoinPaymentMethodView {
        self.deep_view()
    }
}

/// A way to pay over Lightning.
#[derive(Clone, Debug, PartialEq, Eq)]
pub enum LightningPaymentMethod {
    Bolt11Invoice(Bolt11Invoice),
    Bolt12Invoice(Bolt12Invoice),
    Bolt12Offer(Bolt12Offer),
}

/// The mathematical value of a [`LightningPaymentMethod`].
pub enum LightningPaymentMethodView {
    Bolt11Invoice(Bolt11InvoiceView),
    Bolt12Invoice(Bolt12InvoiceView),
    Bolt12Offer(Bolt12OfferView),
}

impl DeepView for LightningPaymentMethod {
    type V = LightningPaymentMethodView;

    open spec fn deep_view(&self) -> LightningPaymentMethodView {
        match self {
            LightningPaymentMethod::Bolt11Invoice(x) => LightningPaymentMethodView::Bolt11Invoice(
                x.deep_view(),
            ),
            LightningPaymentMethod::Bolt12Invoice(x) => LightningPaymentMethodView::Bolt12Invoice(
                x.deep_view(),
            ),
            LightningPaymentMethod::Bolt12Offer(x) => LightningPaymentMethodView::Bolt12Offer(
                x.deep_view(),
            ),
        }
    }
}

impl View for LightningPaymentMethod {
    type V = LightningPaymentMethodView;

    open spec fn view(&self) -> LightningPaymentMethodView {
        self.deep_view()
    }
}

/// A Lightning payment method with the range of amounts it takes.
#[derive(Clone, Debug, PartialEq, Eq)]
pub struct LightningPaymentRequest {
    pub min_amount_msat: u64,
    pub max_amount_msat: u64,
    pub method: LightningPaymentMethod,
}

/// The mathematical value of a [`LightningPaymentRequest`].
pub struct LightningPaymentRequestView {
    pub min_amount_msat: u64,
    pub max_amount_msat: u64,
    pub method: LightningPaymentMethodView,
}

impl DeepView for LightningPaymentRequest {
    type V = LightningPaymentRequestView;

    open spec fn deep_view(&self) -> LightningPaymentRequestView {
        LightningPaymentRequestView {
            min_amount_msat: self.min_amount_msat.deep_view(),
            max_amount_msat: self.max_amount_msat.deep_view(),
            method: self.method.deep_view(),
        }
    }
}

impl View for LightningPaymentRequest {
    type V = LightningPaymentRequestView;

    open spec fn view(&self) -> LightningPaymentRequestView {
        self.deep_view()
    }
}

/// A way to pay through LNURL-pay.
#[derive(Clone, Debug, PartialEq, Eq)]
pub enum LnurlPaymentMethod {
    LnurlPay(LnurlPayRequest),
    LightningAddress(LightningAddress),
}

/// The mathematical value of a [`LnurlPaymentMethod`].
pub enum LnurlPaymentMethodView {
    LnurlPay(LnurlPayRequestView),
    LightningAddress(LightningAddressView),
}

impl DeepView for LnurlPaymentMethod {
    type V = LnurlPaymentMethodView;

    open spec fn deep_view(&self) -> LnurlPaymentMethodView {
        match self {
            LnurlPaymentMethod::LnurlPay(x) => LnurlPaymentMethodView::LnurlPay(x.deep_view()),
            LnurlPaymentMethod::LightningAddress(x) => LnurlPaymentMethodView::LightningAddress(
                x.deep_view(),
            ),
        }
    }
}

impl View for LnurlPaymentMethod {
    type V = LnurlPaymentMethodView;

    open spec fn view(&self) -> LnurlPaymentMethodView {
        self.deep_view()
    }
}

/// The method that was picked, by the way it is paid.
#[derive(Clone, Debug, PartialEq, Eq)]
pub enum PickedPaymentMethod {
    Bitcoin(BitcoinPaymentMethod),
    Lightning(LightningPaymentRequest),
    LnurlPay(LnurlPaymentMethod),
    LiquidAddress(LiquidAddress),
}

/// The mathematical value of a [`PickedPaymentMethod`].
pub enum PickedPaymentMethodView {
    Bitcoin(BitcoinPaymentMethodView),
    Lightning(LightningPaymentRequestView),
    LnurlPay(LnurlPaymentMethodView),
    LiquidAddress(LiquidAddressView),
}

impl DeepView for PickedPaymentMethod {
    type V = PickedPaymentMethodView;

    open spec fn deep_view(&self) -> PickedPaymentMethodView {
        match self {
            PickedPaymentMethod::Bitcoin(x) => PickedPaymentMethodView::Bitcoin(x.deep_view()),
            PickedPaymentMethod::Lightning(x) => PickedPaymentMethodView::Lightning(x.deep_view()),
            PickedPaymentMethod::LnurlPay(x) => PickedPaymentMethodView::LnurlPay(x.deep_view()),
            PickedPaymentMethod::LiquidAddress(x) => PickedPaymentMethodView::LiquidAddress(
                x.deep_view(),
            ),
        }
    }
}

impl View for PickedPaymentMethod {
    type V = PickedPaymentMethodView;

    open spec fn view(&self) -> PickedPaymentMethodView {
        self.deep_view()
    }
}

/// What an input turned out to be, with the payment method picked.
#[derive(Clone, Debug, PartialEq, Eq)]
pub enum PickedInputType {
    LnurlAuth(LnurlAuthRequestData),
    PaymentMethod(PickedPaymentMethod),
    ReceiveRequest(ReceiveRequest),
    Url(String),
}

/// The mathematical value of a [`PickedInputType`].
pub enum PickedInputTypeView {
    LnurlAuth(LnurlAuthRequestDataView),
    PaymentMethod(PickedPaymentMethodView),
    ReceiveRequest(ReceiveRequestView),
    Url(Seq<char>),
}

impl DeepView for PickedInputType {
    type V = PickedInputTypeView;

    open spec fn deep_view(&self) -> PickedInputTypeView {
        match self {
            PickedInputType::LnurlAuth(x) => PickedInputTypeView::LnurlAuth(x.deep_view()),
            PickedInputType::PaymentMethod(x) => PickedInputTypeView::PaymentMethod(x.deep_view()),
            PickedInputType::ReceiveRequest(x) => PickedInputTypeView::ReceiveRequest(
                x.deep_view(),
            ),
            PickedInputType::Url(x) => PickedInputTypeView::Url(x.deep_view()),
        }
    }
}

impl View for PickedInputType {
    type V = PickedInputTypeView;

    open spec fn view(&self) -> PickedInputTypeView {
        self.deep_view()
    }
}

/// Why an input was not classified or no method was picked.
#[derive(Clone, Debug, PartialEq, Eq)]
pub enum ParseAndPickError {
    Parse(ParseError),
    Pick(PickPaymentMethodError),
}

/// A wallet, as far as picking goes: the kinds of payment method it
/// supports, the preferred first.
#[derive(Clone, Debug, PartialEq, Eq)]
pub struct BreezServices {
    pub supported: Vec<PaymentMethodType>,
}

/// A payment method that came out of a BIP21 URI.
#[derive(Clone, Debug, PartialEq, Eq)]
pub struct Bip21Source<P> {
    pub bip_21_uri: String,
    pub payment_method: P,
}

/// The mathematical value of a [`Bip21Source`].
pub struct Bip21SourceView<P> {
    pub bip_21_uri: Seq<char>,
    pub payment_method: P,
}

impl<P: DeepView> DeepView for Bip21Source<P> {
    type V = Bip21SourceView<P::V>;

    open spec fn deep_view(&self) -> Bip21SourceView<P::V> {
        Bip21SourceView {
            bip_21_uri: self.bip_21_uri.deep_view(),
            payment_method: self.payment_method.deep_view(),
        }
    }
}

/// A payment method that came out of a BIP353 address.
#[derive(Clone, Debug, PartialEq, Eq)]
pub struct Bip353Source<P> {
    pub bip_353_uri: String,
    pub bip_21: Bip21Source<P>,
}

/// The mathematical value of a [`Bip353Source`].
pub struct Bip353SourceView<P> {
    pub bip_353_uri: Seq<char>,
    pub bip_21: Bip21SourceView<P>,
}

impl<P: DeepView> DeepView for Bip353Source<P> {
    type V = Bip353SourceView<P::V>;

    open spec fn deep_view(&self) -> Bip353SourceView<P::V> {
        Bip353SourceView {
            bip_353_uri: self.bip_353_uri.deep_view(),
            bip_21: self.bip_21.deep_view(),
        }
    }
}

/// A payment method with the way it was found.
#[derive(Clone, Debug, PartialEq, Eq)]
pub enum PaymentMethodSource<P> {
    Bip21(Bip21Source<P>),
    Bip353(Bip353Source<P>),
    Plain(P),
}

/// The mathematical value of a [`PaymentMethodSource`].
pub enum PaymentMethodSourceView<P> {
    Bip21(Bip21SourceView<P>),
    Bip353(Bip353SourceView<P>),
    Plain(P),
}

impl<P: DeepView> DeepView for PaymentMethodSource<P> {
    type V = PaymentMethodSourceView<P::V>;

    open spec fn deep_view(&self) -> PaymentMethodSourceView<P::V> {
        match self {
            PaymentMethodSource::Bip21(x) => PaymentMethodSourceView::Bip21(x.deep_view()),
            PaymentMethodSource::Bip353(x) => PaymentMethodSourceView::Bip353(x.deep_view()),
            PaymentMethodSource::Plain(x) => PaymentMethodSourceView::Plain(x.deep_view()),
        }
    }
}

/// A payment method by the way it is paid, with the way it was found.
#[derive(Clone, Debug, PartialEq, Eq)]
pub enum SourcedPaymentMethod {
    Bitcoin(PaymentMethodSource<BitcoinPaymentMethod>),
    Lightning(PaymentMethodSource<LightningPaymentRequest>),
    LnurlPay(PaymentMethodSource<LnurlPaymentMethod>),
    LiquidAddress(PaymentMethodSource<LiquidAddress>),
}

/// The mathematical value of a [`SourcedPaymentMethod`].
pub enum SourcedPaymentMethodView {
    Bitcoin(PaymentMethodSourceView<BitcoinPaymentMethodView>),
    Lightning(PaymentMethodSourceView<LightningPaymentRequestView>),
    LnurlPay(PaymentMethodSourceView<LnurlPaymentMethodView>),
    LiquidAddress(PaymentMethodSourceView<LiquidAddressView>),
}

impl DeepView for SourcedPaymentMethod {
    type V = SourcedPaymentMethodView;

    open spec fn deep_view(&self) -> SourcedPaymentMethodView {
        match self {
            SourcedPaymentMethod::Bitcoin(x) => SourcedPaymentMethodView::Bitcoin(x.deep_view()),
            SourcedPaymentMethod::Lightning(x) => SourcedPaymentMethodView::Lightning(
                x.deep_view(),
            ),
            SourcedPaymentMethod::LnurlPay(x) => SourcedPaymentMethodView::LnurlPay(x.deep_view()),
            SourcedPaymentMethod::LiquidAddress(x) => SourcedPaymentMethodView::LiquidAddress(
                x.deep_view(),
            ),
        }
    }
}

impl View for SourcedPaymentMethod {
    type V = SourcedPaymentMethodView;

    open spec fn view(&self) -> SourcedPaymentMethodView {
        self.deep_view()
    }
}

/// What an input turned out to be, with its payment method sorted by the
/// way it is paid.
#[derive(Clone, Debug, PartialEq, Eq)]
pub enum SourcedInputType {
    LnurlAuth(LnurlAuthRequestData),
    PaymentMethod(SourcedPaymentMethod),
    ReceiveRequest(ReceiveRequest),
    Url(String),
}

/// A payment method that was given directly, by the way it is paid.
pub open spec fn sourced_spec(method: PaymentMethodView) -> SourcedPaymentMethodView {
    match expand_spec(method) {
        PickedPaymentMethodView::Bitcoin(bitcoin) => SourcedPaymentMethodView::Bitcoin(
            PaymentMethodSourceView::Plain(bitcoin),
        ),
        PickedPaymentMethodView::Lightning(lightning) => SourcedPaymentMethodView::Lightning(
            PaymentMethodSourceView::Plain(lightning),
        ),
        PickedPaymentMethodView::LnurlPay(lnurl) => SourcedPaymentMethodView::LnurlPay(
            PaymentMethodSourceView::Plain(lnurl),
        ),
        PickedPaymentMethodView::LiquidAddress(liquid) => SourcedPaymentMethodView::LiquidAddress(
            PaymentMethodSourceView::Plain(liquid),
        ),
    }
}

/// The index of the first method at or after `from` that is of kind
/// `kind`, or the number of methods where there is none.
pub open spec fn first_of_kind(
    methods: Seq<PaymentMethodView>,
    kind: PaymentMethodType,
    from: int,
) -> int
    decreases methods.len() - from,
{
    if from < 0 || from >= methods.len() {
        methods.len() as int
    } else if methods[from].get_type() == kind {
        from
    } else {
        first_of_kind(methods, kind, from + 1)
    }
}

/// Whether `methods` holds a method of kind `kind`.
pub open spec fn offers(methods: Seq<PaymentMethodView>, kind: PaymentMethodType) -> bool {
    exists|i: int| 0 <= i < methods.len() && (#[trigger] methods[i]).get_type() == kind
}

/// The index of the method to pick: the first method of the first kind, at
/// or after `from` in `supported`, that `methods` offers.
pub open spec fn pick_index(
    methods: Seq<PaymentMethodView>,
    supported: Seq<PaymentMethodType>,
    from: int,
) -> Option<int>
    decreases supported.len() - from,
{
    if from < 0 || from >= supported.len() {
        None
    } else if first_of_kind(methods, supported[from], 0) < methods.len() {
        Some(first_of_kind(methods, supported[from], 0))
    } else {
        pick_index(methods, supported, from + 1)
    }
}

/// A payment method by the way it is paid. An invoice without an amount
/// takes any amount; an offer takes any amount.
pub open spec fn expand_spec(method: PaymentMethodView) -> PickedPaymentMethodView {
    match method {
        PaymentMethodView::BitcoinAddress(address) => PickedPaymentMethodView::Bitcoin(
            BitcoinPaymentMethodView::BitcoinAddress(address),
        ),
        PaymentMethodView::Bolt11Invoice(invoice) => PickedPaymentMethodView::Lightning(
            LightningPaymentRequestView {
                min_amount_msat: match invoice.details.amount_msat {
                    Some(amount) => amount,
                    None => 0,
                },
                max_amount_msat: match invoice.details.amount_msat {
                    Some(amount) => amount,
                    None => u64::MAX,
                },
                method: LightningPaymentMethodView::Bolt11Invoice(invoice),
            },
        ),
        PaymentMethodView::Bolt12Invoice(invoice) => PickedPaymentMethodView::Lightning(
            LightningPaymentRequestView {
                min_amount_msat: invoice.details.amount_msat,
                max_amount_msat: invoice.details.amount_msat,
                method: LightningPaymentMethodView::Bolt12Invoice(invoice),
            },
        ),
        PaymentMethodView::Bolt12Offer(offer) => PickedPaymentMethodView::Lightning(
            LightningPaymentRequestView {
                min_amount_msat: 0,
                max_amount_msat: u64::MAX,
                method: LightningPaymentMethodView::Bolt12Offer(offer),
            },
        ),
        PaymentMethodView::LightningAddress(address) => PickedPaymentMethodView::LnurlPay(
            LnurlPaymentMethodView::LightningAddress(address),
        ),
        PaymentMethodView::LiquidAddress(address) => PickedPaymentMethodView::LiquidAddress(
            address,
        ),
        PaymentMethodView::LnurlPay(request) => PickedPaymentMethodView::LnurlPay(
            LnurlPaymentMethodView::LnurlPay(request),
        ),
        PaymentMethodView::SilentPaymentAddress(address) => PickedPaymentMethodView::Bitcoin(
            BitcoinPaymentMethodView::SilentPaymentAddress(address),
        ),
    }
}

/// The method picked from a bundle, or `Unsupported` where the bundle
/// offers none of the supported kinds.
pub open spec fn expand_bip_21_spec(bundle: Bip21View, supported: Seq<PaymentMethodType>) -> Result<
    PickedPaymentMethodView,
    PickPaymentMethodError,
> {
    match pick_index(bundle.payment_methods, supported, 0) {
        Some(index) => Ok(expand_spec(bundle.payment_methods[index])),
        None => Err(PickPaymentMethodError::Unsupported),
    }
}

/// The method picked from a request: a single method is picked whatever is
/// supported, and a bundle is picked from.
pub open spec fn pick_spec(request: PaymentRequestView, supported: Seq<PaymentMethodType>) -> Result<
    PickedPaymentMethodView,
    PickPaymentMethodError,
> {
    match request {
        PaymentRequestView::Bip21(bundle) => expand_bip_21_spec(bundle, supported),
        PaymentRequestView::PaymentMethod(method) => Ok(expand_spec(method)),
    }
}

/// What a classified input comes to once a method is picked.
pub open spec fn pick_input_spec(input: InputTypeView, supported: Seq<PaymentMethodType>) -> Result<
    PickedInputTypeView,
    PickPaymentMethodError,
> {
    match input {
        InputTypeView::LnurlAuth(data) => Ok(PickedInputTypeView::LnurlAuth(data)),
        InputTypeView::PaymentRequest(request) => match pick_spec(request, supported) {
            Ok(method) => Ok(PickedInputTypeView::PaymentMethod(method)),
            Err(error) => Err(error),
        },
        InputTypeView::ReceiveRequest(request) => Ok(PickedInputTypeView::ReceiveRequest(request)),
        InputTypeView::Url(url) => Ok(PickedInputTypeView::Url(url)),
    }
}

/// `first_of_kind` stays in range, stops on a method of the kind and passes
/// over methods of other kinds only.
pub proof fn lemma_first_of_kind(
    methods: Seq<PaymentMethodView>,
    kind: PaymentMethodType,
    from: int,
)
    requires
        0 <= from <= methods.len(),
    ensures
        from <= first_of_kind(methods, kind, from) <= methods.len(),
        first_of_kind(methods, kind, from) < methods.len() ==> methods[first_of_kind(
            methods,
            kind,
            from,
        )].get_type() == kind,
        forall|j: int|
            from <= j < first_of_kind(methods, kind, from) ==> (#[trigger] methods[j]).get_type()
                != kind,
    decreases methods.len() - from,
{
    if from < methods.len() && methods[from].get_type() != kind {
        lemma_first_of_kind(methods, kind, from + 1);
    }
}

/// A bundle offers a kind exactly where `first_of_kind` finds a method.
pub proof fn lemma_offers(methods: Seq<PaymentMethodView>, kind: PaymentMethodType)
    ensures
        offers(methods, kind) <==> first_of_kind(methods, kind, 0) < methods.len(),
{
    lemma_first_of_kind(methods, kind, 0);
    if first_of_kind(methods, kind, 0) < methods.len() {
        assert(methods[first_of_kind(methods, kind, 0)].get_type() == kind);
    }
}

/// What is picked from a bundle is the first method of its kind, its kind
/// is supported, and the bundle offers no kind that the wallet likes
/// better. Nothing is picked exactly where the bundle offers no supported
/// kind at all.
pub proof fn lemma_pick_index(
    methods: Seq<PaymentMethodView>,
    supported: Seq<PaymentMethodType>,
    from: int,
)
    requires
        0 <= from <= supported.len(),
    ensures
        match pick_index(methods, supported, from) {
            Some(index) => exists|rank: int|
                {
                    &&& from <= rank < supported.len()
                    &&& 0 <= index < methods.len()
                    &&& methods[index].get_type() == #[trigger] supported[rank]
                    &&& index == first_of_kind(methods, supported[rank], 0)
                    &&& forall|better: int|
                        from <= better < rank ==> !offers(methods, #[trigger] supported[better])
                },
            None => forall|rank: int|
                from <= rank < supported.len() ==> !offers(methods, #[trigger] supported[rank]),
        },
    decreases supported.len() - from,
{
    if from < supported.len() {
        lemma_offers(methods, supported[from]);
        lemma_first_of_kind(methods, supported[from], 0);
        if first_of_kind(methods, supported[from], 0) < methods.len() {
            assert(from <= from < supported.len());
        } else {
            lemma_pick_index(methods, supported, from + 1);
            match pick_index(methods, supported, from + 1) {
                Some(index) => {
                    let rank = choose|rank: int|
                        {
                            &&& from + 1 <= rank < supported.len()
                            &&& 0 <= index < methods.len()
                            &&& methods[index].get_type() == #[trigger] supported[rank]
                            &&& index == first_of_kind(methods, supported[rank], 0)
                            &&& forall|better: int|
                                from + 1 <= better < rank ==> !offers(
                                    methods,
                                    #[trigger] supported[better],
                                )
                        };
                    assert forall|better: int| from <= better < rank implies !offers(
                        methods,
                        #[trigger] supported[better],
                    ) by {
                        if better > from {
                            assert(from + 1 <= better < rank);
                        }
                    }
                    assert(methods[index].get_type() == supported[rank]);
                },
                None => {
                    assert forall|rank: int| from <= rank < supported.len() implies !offers(
                        methods,
                        #[trigger] supported[rank],
                    ) by {
                        if rank > from {
                            assert(from + 1 <= rank < supported.len());
                        }
                    }
                },
            }
        }
    }
}

/// Picking from a bundle fails exactly where the bundle offers none of the
/// supported kinds.
pub proof fn lemma_unsupported(bundle: Bip21View, supported: Seq<PaymentMethodType>)
    ensures
        expand_bip_21_spec(bundle, supported) is Err <==> forall|rank: int|
            0 <= rank < supported.len() ==> !offers(
                bundle.payment_methods,
                #[trigger] supported[rank],
            ),
{
    lemma_pick_index(bundle.payment_methods, supported, 0);
    match pick_index(bundle.payment_methods, supported, 0) {
        Some(index) => {
            let rank = choose|rank: int|
                0 <= rank < supported.len() && bundle.payment_methods[index].get_type()
                    == #[trigger] supported[rank];
            assert(offers(bundle.payment_methods, supported[rank]));
        },
        None => {},
    }
}

/// The index of the first method of kind `kind`, or the number of methods.
pub fn find_kind(methods: &Vec<PaymentMethod>, kind: PaymentMethodType) -> (r: usize)
    ensures
        r == first_of_kind(methods.deep_view(), kind, 0),
        r <= methods@.len(),
{
    let mut i: usize = 0;
    while i < methods.len()
        invariant
            i <= methods@.len(),
            first_of_kind(methods.deep_view(), kind, 0) == first_of_kind(
                methods.deep_view(),
                kind,
                i as int,
            ),
        decreases methods@.len() - i,
    {
        assert(methods.deep_view()[i as int] == methods@[i as int]@);
        if methods[i].get_type() == kind {
            return i;
        }
        i += 1;
    }
    i
}

/// Sorts a payment method by the way it is paid.
pub fn expand_payment_method(payment_method: PaymentMethod) -> (r: PickedPaymentMethod)
    ensures
        r@ == expand_spec(payment_method@),
{
    match payment_method {
        PaymentMethod::BitcoinAddress(bitcoin_address) => PickedPaymentMethod::Bitcoin(
            BitcoinPaymentMethod::BitcoinAddress(bitcoin_address),
        ),
        PaymentMethod::Bolt11Invoice(bolt11_invoice) => {
            let (min_amount_msat, max_amount_msat) = match bolt11_invoice.details.amount_msat {
                Some(amount) => (amount, amount),
                None => (0, u64::MAX),
            };
            PickedPaymentMethod::Lightning(
                LightningPaymentRequest {
                    min_amount_msat,
                    max_amount_msat,
                    method: LightningPaymentMethod::Bolt11Invoice(bolt11_invoice),
                },
            )
        },
        PaymentMethod::Bolt12Invoice(bolt12_invoice) => PickedPaymentMethod::Lightning(
            LightningPaymentRequest {
                min_amount_msat: bolt12_invoice.details.amount_msat,
                max_amount_msat: bolt12_invoice.details.amount_msat,
                method: LightningPaymentMethod::Bolt12Invoice(bolt12_invoice),
            },
        ),
        PaymentMethod::Bolt12Offer(bolt12_offer) => PickedPaymentMethod::Lightning(
            LightningPaymentRequest {
                min_amount_msat: 0,
                max_amount_msat: u64::MAX,
                method: LightningPaymentMethod::Bolt12Offer(bolt12_offer),
            },
        ),
        PaymentMethod::LightningAddress(lightning_address) => PickedPaymentMethod::LnurlPay(
            LnurlPaymentMethod::LightningAddress(lightning_address),
        ),
        PaymentMethod::LiquidAddress(liquid_address) => PickedPaymentMethod::LiquidAddress(
            liquid_address,
        ),
        PaymentMethod::LnurlPay(lnurl_pay_request) => PickedPaymentMethod::LnurlPay(
            LnurlPaymentMethod::LnurlPay(lnurl_pay_request),
        ),
        PaymentMethod::SilentPaymentAddress(silent_payment_address) => PickedPaymentMethod::Bitcoin(
            BitcoinPaymentMethod::SilentPaymentAddress(silent_payment_address),
        ),
    }
}

impl SourcedPaymentMethod {
    /// Sorts a payment method that was given directly by the way it is
    /// paid.
    pub fn from(value: PaymentMethod) -> (r: Self)
        ensures
            r@ == sourced_spec(value@),
    {
        match expand_payment_method(value) {
            PickedPaymentMethod::Bitcoin(bitcoin) => SourcedPaymentMethod::Bitcoin(
                PaymentMethodSource::Plain(bitcoin),
            ),
            PickedPaymentMethod::Lightning(lightning) => SourcedPaymentMethod::Lightning(
                PaymentMethodSource::Plain(lightning),
            ),
            PickedPaymentMethod::LnurlPay(lnurl) => SourcedPaymentMethod::LnurlPay(
                PaymentMethodSource::Plain(lnurl),
            ),
            PickedPaymentMethod::LiquidAddress(liquid) => SourcedPaymentMethod::LiquidAddress(
                PaymentMethodSource::Plain(liquid),
            ),
        }
    }
}

/// Picks a payment method from a BIP21 bundle: the first method of the
/// first supported kind that the bundle offers. Fails with `Unsupported`
/// where the bundle offers none of the supported kinds.
pub fn expand_bip_21(bip_21: Bip21, supported: &[PaymentMethodType]) -> (r: Result<
    PickedPaymentMethod,
    PickPaymentMethodError,
>)
    ensures
        match r {
            Ok(method) => expand_bip_21_spec(bip_21@, supported@) == Ok::<
                PickedPaymentMethodView,
                PickPaymentMethodError,
            >(method@),
            Err(error) => expand_bip_21_spec(bip_21@, supported@) == Err::<
                PickedPaymentMethodView,
                PickPaymentMethodError,
            >(error),
        },
{
    let ghost all = bip_21@.payment_methods;
    let mut methods = bip_21.payment_methods;
    let mut rank: usize = 0;
    while rank < supported.len()
        invariant
            rank <= supported@.len(),
            all == bip_21@.payment_methods,
            all == methods.deep_view(),
            pick_index(all, supported@, 0) == pick_index(all, supported@, rank as int),
        decreases supported@.len() - rank,
    {
        let index = find_kind(&methods, supported[rank]);
        if index < methods.len() {
            assert(all[index as int] == methods@[index as int]@);
            let method = methods.remove(index);
            return Ok(expand_payment_method(method));
        }
        rank += 1;
    }
    Err(PickPaymentMethodError::Unsupported)
}

impl BreezServices {
    /// A wallet that supports the given kinds, the preferred first.
    pub fn new(supported: Vec<PaymentMethodType>) -> (r: Self)
        ensures
            r.supported@ == supported@,
    {
        BreezServices { supported }
    }

    /// Picks a payment method from a request, based on the supported
    /// kinds. A single method is picked whatever is supported. From a
    /// bundle, the first method of the first supported kind that the bundle
    /// offers is picked; where it offers none, the result is
    /// `Unsupported`.
    pub fn pick_payment_method(&self, payment_request: PaymentRequest) -> (r: Result<
        PickedPaymentMethod,
        PickPaymentMethodError,
    >)
        ensures
            match r {
                Ok(method) => pick_spec(payment_request@, self.supported@) == Ok::<
                    PickedPaymentMethodView,
                    PickPaymentMethodError,
                >(method@),
                Err(error) => pick_spec(payment_request@, self.supported@) == Err::<
                    PickedPaymentMethodView,
                    PickPaymentMethodError,
                >(error),
            },
    {
        match payment_request {
            PaymentRequest::Bip21(bip_21) => expand_bip_21(bip_21, self.supported.as_slice()),
            PaymentRequest::PaymentMethod(payment_method) => Ok(
                expand_payment_method(payment_method),
            ),
        }
    }

    /// Picks the payment method of a classified input; every input that is
    /// no request to pay stays what it is.
    pub fn pick(&self, input: InputType) -> (r: Result<PickedInputType, ParseAndPickError>)
        ensures
            match r {
                Ok(picked) => pick_input_spec(input@, self.supported@) == Ok::<
                    PickedInputTypeView,
                    PickPaymentMethodError,
                >(picked@),
                Err(error) => error == ParseAndPickError::Pick(
                    PickPaymentMethodError::Unsupported,
                ) && pick_input_spec(input@, self.supported@) is Err,
            },
    {
        match input {
            InputType::LnurlAuth(lnurl_auth) => Ok(PickedInputType::LnurlAuth(lnurl_auth)),
            InputType::PaymentRequest(req) => match self.pick_payment_method(req) {
                Ok(payment_method) => Ok(PickedInputType::PaymentMethod(payment_method)),
                Err(error) => Err(ParseAndPickError::Pick(error)),
            },
            InputType::ReceiveRequest(receive_request) => Ok(
                PickedInputType::ReceiveRequest(receive_request),
            ),
            InputType::Url(url) => Ok(PickedInputType::Url(url)),
        }
    }
}

} // verus!
