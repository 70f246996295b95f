//! The decoded forms of payment identifiers.
//!
//! Each executable type has a mathematical value (its view), in which text is
//! `Seq<char>` and lists are `Seq`. Contracts throughout the crate are stated
//! over these values.

use crate::network::Network;
use vstd::prelude::*;

verus! {

/// The mathematical value of a result: that of what it holds.
pub open spec fn result_view<T: DeepView, E: DeepView>(r: Result<T, E>) -> Result<T::V, E::V> {
    match r {
        Ok(value) => Ok(value.deep_view()),
        Err(error) => Err(error.deep_view()),
    }
}

/// Where a payment method was found: the BIP21 URI and the BIP353 address it
/// was resolved from, as far as there were any.
#[derive(Debug, PartialEq, Eq)]
pub struct PaymentRequestSource {
    pub bip_21_uri: Option<String>,
    pub bip_353_address: Option<String>,
}

/// The mathematical value of a [`PaymentRequestSource`].
pub struct PaymentRequestSourceView {
    pub bip_21_uri: Option<Seq<char>>,
    pub bip_353_address: Option<Seq<char>>,
}

impl DeepView for PaymentRequestSource {
    type V = PaymentRequestSourceView;

    open spec fn deep_view(&self) -> PaymentRequestSourceView {
        PaymentRequestSourceView {
            bip_21_uri: self.bip_21_uri.deep_view(),
            bip_353_address: self.bip_353_address.deep_view(),
        }
    }
}

impl View for PaymentRequestSource {
    type V = PaymentRequestSourceView;

    open spec fn view(&self) -> PaymentRequestSourceView {
        self.deep_view()
    }
}

impl PaymentRequestSource {
    /// The source of a method that was given directly.
    pub open spec fn none_spec() -> PaymentRequestSourceView {
        PaymentRequestSourceView { bip_21_uri: None, bip_353_address: None }
    }
}

impl Default for PaymentRequestSource {
    fn default() -> (r: Self)
        ensures
            r@ == PaymentRequestSource::none_spec(),
    {
        PaymentRequestSource { bip_21_uri: None, bip_353_address: None }
    }
}

impl Clone for PaymentRequestSource {
    fn clone(&self) -> (r: Self)
        ensures
            r@ == self@,
    {
        let bip_21_uri = match &self.bip_21_uri {
            Some(uri) => Some(uri.clone()),
            None => None,
        };
        let bip_353_address = match &self.bip_353_address {
            Some(address) => Some(address.clone()),
            None => None,
        };
        PaymentRequestSource { bip_21_uri, bip_353_address }
    }
}

/// The kind of a payment method, without its data.
#[derive(Clone, Copy, Debug, PartialEq, Eq, Structural, Hash)]
pub enum PaymentMethodType {
    BitcoinAddress,
    Bolt11Invoice,
    Bolt12Invoice,
    Bolt12Offer,
    LightningAddress,
    LiquidAddress,
    LnurlPay,
    SilentPaymentAddress,
}

impl DeepView for PaymentMethodType {
    type V = PaymentMethodType;

    open spec fn deep_view(&self) -> PaymentMethodType {
        *self
    }
}

impl View for PaymentMethodType {
    type V = PaymentMethodType;

    open spec fn view(&self) -> PaymentMethodType {
        *self
    }
}

/// An on-chain address and the network it is valid for.
#[derive(Clone, Debug, PartialEq, Eq)]
pub struct RawBitcoinAddress {
    pub address: String,
    pub network: Network,
}

/// The mathematical value of a [`RawBitcoinAddress`].
pub struct RawBitcoinAddressView {
    pub address: Seq<char>,
    pub network: Network,
}

impl DeepView for RawBitcoinAddress {
    type V = RawBitcoinAddressView;

    open spec fn deep_view(&self) -> RawBitcoinAddressView {
        RawBitcoinAddressView {
            address: self.address.deep_view(),
            network: self.network.deep_view(),
        }
    }
}

impl View for RawBitcoinAddress {
    type V = RawBitcoinAddressView;

    open spec fn view(&self) -> RawBitcoinAddressView {
        self.deep_view()
    }
}

/// An on-chain address with its source.
#[derive(Clone, Debug, PartialEq, Eq)]
pub struct BitcoinAddress {
    pub details: RawBitcoinAddress,
    pub source: PaymentRequestSource,
}

/// The mathematical value of a [`BitcoinAddress`].
pub struct BitcoinAddressView {
    pub details: RawBitcoinAddressView,
    pub source: PaymentRequestSourceView,
}

impl DeepView for BitcoinAddress {
    type V = BitcoinAddressView;

    open spec fn deep_view(&self) -> BitcoinAddressView {
        BitcoinAddressView {
            details: self.details.deep_view(),
            source: self.source.deep_view(),
        }
    }
}

impl View for BitcoinAddress {
    type V = BitcoinAddressView;

    open spec fn view(&self) -> BitcoinAddressView {
        self.deep_view()
    }
}

/// One hop of a route hint.
#[derive(Clone, Debug, PartialEq, Eq)]
pub struct Bolt11RouteHintHop {
    /// The `node_id` of the non-target end of the route
    pub src_node_id: String,
    /// The `short_channel_id` of this channel, as `{block}x{tx}x{output}`
    pub short_channel_id: String,
    /// The fees which must be paid to use this channel
    pub fees_base_msat: u32,
    pub fees_proportional_millionths: u32,
    /// The difference in CLTV values between this node and the next node.
    pub cltv_expiry_delta: u16,
    /// The minimum value, in msat, which must be relayed to the next hop.
    pub htlc_minimum_msat: Option<u64>,
    /// The maximum value in msat available for routing with a single HTLC.
    pub htlc_maximum_msat: Option<u64>,
}

/// The mathematical value of a [`Bolt11RouteHintHop`].
pub struct Bolt11RouteHintHopView {
    pub src_node_id: Seq<char>,
    pub short_channel_id: Seq<char>,
    pub fees_base_msat: u32,
    pub fees_proportional_millionths: u32,
    pub cltv_expiry_delta: u16,
    pub htlc_minimum_msat: Option<u64>,
    pub htlc_maximum_msat: Option<u64>,
}

impl DeepView for Bolt11RouteHintHop {
    type V = Bolt11RouteHintHopView;

    open spec fn deep_view(&self) -> Bolt11RouteHintHopView {
        Bolt11RouteHintHopView {
            src_node_id: self.src_node_id.deep_view(),
            short_channel_id: self.short_channel_id.deep_view(),
            fees_base_msat: self.fees_base_msat.deep_view(),
            fees_proportional_millionths: self.fees_proportional_millionths.deep_view(),
            cltv_expiry_delta: self.cltv_expiry_delta.deep_view(),
            htlc_minimum_msat: self.htlc_minimum_msat.deep_view(),
            htlc_maximum_msat: self.htlc_maximum_msat.deep_view(),
        }
    }
}

impl View for Bolt11RouteHintHop {
    type V = Bolt11RouteHintHopView;

    open spec fn view(&self) -> Bolt11RouteHintHopView {
        self.deep_view()
    }
}

/// A private route to the payee.
#[derive(Clone, Debug, PartialEq, Eq)]
pub struct Bolt11RouteHint {
    pub hops: Vec<Bolt11RouteHintHop>,
}

/// The mathematical value of a [`Bolt11RouteHint`].
pub struct Bolt11RouteHintView {
    pub hops: Seq<Bolt11RouteHintHopView>,
}

impl DeepView for Bolt11RouteHint {
    type V = Bolt11RouteHintView;

    open spec fn deep_view(&self) -> Bolt11RouteHintView {
        Bolt11RouteHintView {
            hops: self.hops.deep_view(),
        }
    }
}

impl View for Bolt11RouteHint {
    type V = Bolt11RouteHintView;

    open spec fn view(&self) -> Bolt11RouteHintView {
        self.deep_view()
    }
}

/// What a BOLT11 invoice says.
#[derive(Clone, Debug, PartialEq, Eq)]
pub struct RawBolt11Invoice {
    pub amount_msat: Option<u64>,
    pub description: Option<String>,
    pub description_hash: Option<String>,
    pub expiry: u64,
    pub invoice: String,
    pub min_final_cltv_expiry_delta: u64,
    pub network: Network,
    pub payee_pubkey: String,
    pub payment_hash: String,
    pub payment_secret: String,
    pub routing_hints: Vec<Bolt11RouteHint>,
    pub timestamp: u64,
}

/// The mathematical value of a [`RawBolt11Invoice`].
pub struct RawBolt11InvoiceView {
    pub amount_msat: Option<u64>,
    pub description: Option<Seq<char>>,
    pub description_hash: Option<Seq<char>>,
    pub expiry: u64,
    pub invoice: Seq<char>,
    pub min_final_cltv_expiry_delta: u64,
    pub network: Network,
    pub payee_pubkey: Seq<char>,
    pub payment_hash: Seq<char>,
    pub payment_secret: Seq<char>,
    pub routing_hints: Seq<Bolt11RouteHintView>,
    pub timestamp: u64,
}

impl DeepView for RawBolt11Invoice {
    type V = RawBolt11InvoiceView;

    open spec fn deep_view(&self) -> RawBolt11InvoiceView {
        RawBolt11InvoiceView {
            amount_msat: self.amount_msat.deep_view(),
            description: self.description.deep_view(),
            description_hash: self.description_hash.deep_view(),
            expiry: self.expiry.deep_view(),
            invoice: self.invoice.deep_view(),
            min_final_cltv_expiry_delta: self.min_final_cltv_expiry_delta.deep_view(),
            network: self.network.deep_view(),
            payee_pubkey: self.payee_pubkey.deep_view(),
            payment_hash: self.payment_hash.deep_view(),
            payment_secret: self.payment_secret.deep_view(),
            routing_hints: self.routing_hints.deep_view(),
            timestamp: self.timestamp.deep_view(),
        }
    }
}

impl View for RawBolt11Invoice {
    type V = RawBolt11InvoiceView;

    open spec fn view(&self) -> RawBolt11InvoiceView {
        self.deep_view()
    }
}

/// A BOLT11 invoice with its source.
#[derive(Clone, Debug, PartialEq, Eq)]
pub struct Bolt11Invoice {
    pub details: RawBolt11Invoice,
    pub source: PaymentRequestSource,
}

/// The mathematical value of a [`Bolt11Invoice`].
pub struct Bolt11InvoiceView {
    pub details: RawBolt11InvoiceView,
    pub source: PaymentRequestSourceView,
}

impl DeepView for Bolt11Invoice {
    type V = Bolt11InvoiceView;

    open spec fn deep_view(&self) -> Bolt11InvoiceView {
        Bolt11InvoiceView {
            details: self.details.deep_view(),
            source: self.source.deep_view(),
        }
    }
}

impl View for Bolt11Invoice {
    type V = Bolt11InvoiceView;

    open spec fn view(&self) -> Bolt11InvoiceView {
        self.deep_view()
    }
}

/// The minimum amount of a BOLT12 offer.
#[derive(Clone, Debug, PartialEq, Eq)]
pub enum Amount {
    Bitcoin {
        amount_msat: u64,
    },
    /// An amount of currency specified using ISO 4217, in the currency unit
    /// adjusted by the ISO 4217 exponent (e.g., USD cents).
    Currency {
        iso4217_code: String,
        fractional_amount: u64,
    },
}

/// The mathematical value of a [`Amount`].
pub enum AmountView {
    Bitcoin {
        amount_msat: u64,
    },
    Currency {
        iso4217_code: Seq<char>,
        fractional_amount: u64,
    },
}

impl DeepView for Amount {
    type V = AmountView;

    open spec fn deep_view(&self) -> AmountView {
        match self {
            Amount::Bitcoin { amount_msat } => AmountView::Bitcoin {
                amount_msat: amount_msat.deep_view(),
            },
            Amount::Currency { iso4217_code, fractional_amount } => AmountView::Currency {
                iso4217_code: iso4217_code.deep_view(),
                fractional_amount: fractional_amount.deep_view(),
            },
        }
    }
}

impl View for Amount {
    type V = AmountView;

    open spec fn view(&self) -> AmountView {
        self.deep_view()
    }
}

/// A blinded path: the blinded node id of each hop.
#[derive(Clone, Debug, PartialEq, Eq)]
pub struct Bolt12OfferBlindedPath {
    pub blinded_hops: Vec<String>,
}

/// The mathematical value of a [`Bolt12OfferBlindedPath`].
pub struct Bolt12OfferBlindedPathView {
    pub blinded_hops: Seq<Seq<char>>,
}

impl DeepView for Bolt12OfferBlindedPath {
    type V = Bolt12OfferBlindedPathView;

    open spec fn deep_view(&self) -> Bolt12OfferBlindedPathView {
        Bolt12OfferBlindedPathView {
            blinded_hops: self.blinded_hops.deep_view(),
        }
    }
}

impl View for Bolt12OfferBlindedPath {
    type V = Bolt12OfferBlindedPathView;

    open spec fn view(&self) -> Bolt12OfferBlindedPathView {
        self.deep_view()
    }
}

/// What a BOLT12 offer says.
#[derive(Clone, Debug, PartialEq, Eq)]
pub struct RawBolt12Offer {
    pub absolute_expiry: Option<u64>,
    pub chains: Vec<String>,
    pub description: Option<String>,
    pub issuer: Option<String>,
    pub min_amount: Option<Amount>,
    pub offer: String,
    pub paths: Vec<Bolt12OfferBlindedPath>,
    pub signing_pubkey: Option<String>,
}

/// The mathematical value of a [`RawBolt12Offer`].
pub struct RawBolt12OfferView {
    pub absolute_expiry: Option<u64>,
    pub chains: Seq<Seq<char>>,
    pub description: Option<Seq<char>>,
    pub issuer: Option<Seq<char>>,
    pub min_amount: Option<AmountView>,
    pub offer: Seq<char>,
    pub paths: Seq<Bolt12OfferBlindedPathView>,
    pub signing_pubkey: Option<Seq<char>>,
}

impl DeepView for RawBolt12Offer {
    type V = RawBolt12OfferView;

    open spec fn deep_view(&self) -> RawBolt12OfferView {
        RawBolt12OfferView {
            absolute_expiry: self.absolute_expiry.deep_view(),
            chains: self.chains.deep_view(),
            description: self.description.deep_view(),
            issuer: self.issuer.deep_view(),
            min_amount: self.min_amount.deep_view(),
            offer: self.offer.deep_view(),
            paths: self.paths.deep_view(),
            signing_pubkey: self.signing_pubkey.deep_view(),
        }
    }
}

impl View for RawBolt12Offer {
    type V = RawBolt12OfferView;

    open spec fn view(&self) -> RawBolt12OfferView {
        self.deep_view()
    }
}

/// A BOLT12 offer with its source.
#[derive(Clone, Debug, PartialEq, Eq)]
pub struct Bolt12Offer {
    pub details: RawBolt12Offer,
    pub source: PaymentRequestSource,
}

/// The mathematical value of a [`Bolt12Offer`].
pub struct Bolt12OfferView {
    pub details: RawBolt12OfferView,
    pub source: PaymentRequestSourceView,
}

impl DeepView for Bolt12Offer {
    type V = Bolt12OfferView;

    open spec fn deep_view(&self) -> Bolt12OfferView {
        Bolt12OfferView {
            details: self.details.deep_view(),
            source: self.source.deep_view(),
        }
    }
}

impl View for Bolt12Offer {
    type V = Bolt12OfferView;

    open spec fn view(&self) -> Bolt12OfferView {
        self.deep_view()
    }
}

/// What a BOLT12 invoice says.
#[derive(Clone, Debug, PartialEq, Eq)]
pub struct RawBolt12Invoice {
    pub amount_msat: u64,
    pub invoice: String,
}

/// The mathematical value of a [`RawBolt12Invoice`].
pub struct RawBolt12InvoiceView {
    pub amount_msat: u64,
    pub invoice: Seq<char>,
}

impl DeepView for RawBolt12Invoice {
    type V = RawBolt12InvoiceView;

    open spec fn deep_view(&self) -> RawBolt12InvoiceView {
        RawBolt12InvoiceView {
            amount_msat: self.amount_msat.deep_view(),
            invoice: self.invoice.deep_view(),
        }
    }
}

impl View for RawBolt12Invoice {
    type V = RawBolt12InvoiceView;

    open spec fn view(&self) -> RawBolt12InvoiceView {
        self.deep_view()
    }
}

/// A BOLT12 invoice with its source.
#[derive(Clone, Debug, PartialEq, Eq)]
pub struct Bolt12Invoice {
    pub details: RawBolt12Invoice,
    pub source: PaymentRequestSource,
}

/// The mathematical value of a [`Bolt12Invoice`].
pub struct Bolt12InvoiceView {
    pub details: RawBolt12InvoiceView,
    pub source: PaymentRequestSourceView,
}

impl DeepView for Bolt12Invoice {
    type V = Bolt12InvoiceView;

    open spec fn deep_view(&self) -> Bolt12InvoiceView {
        Bolt12InvoiceView {
            details: self.details.deep_view(),
            source: self.source.deep_view(),
        }
    }
}

impl View for Bolt12Invoice {
    type V = Bolt12InvoiceView;

    open spec fn view(&self) -> Bolt12InvoiceView {
        self.deep_view()
    }
}

/// A BOLT12 invoice request, as it was given.
#[derive(Clone, Debug, PartialEq, Eq)]
pub struct RawBolt12InvoiceRequest {
    pub invoice_request: String,
}

/// The mathematical value of a [`RawBolt12InvoiceRequest`].
pub struct RawBolt12InvoiceRequestView {
    pub invoice_request: Seq<char>,
}

impl DeepView for RawBolt12InvoiceRequest {
    type V = RawBolt12InvoiceRequestView;

    open spec fn deep_view(&self) -> RawBolt12InvoiceRequestView {
        RawBolt12InvoiceRequestView {
            invoice_request: self.invoice_request.deep_view(),
        }
    }
}

impl View for RawBolt12InvoiceRequest {
    type V = RawBolt12InvoiceRequestView;

    open spec fn view(&self) -> RawBolt12InvoiceRequestView {
        self.deep_view()
    }
}

/// A BOLT12 invoice request with its source.
#[derive(Clone, Debug, PartialEq, Eq)]
pub struct Bolt12InvoiceRequest {
    pub details: RawBolt12InvoiceRequest,
    pub source: PaymentRequestSource,
}

/// The mathematical value of a [`Bolt12InvoiceRequest`].
pub struct Bolt12InvoiceRequestView {
    pub details: RawBolt12InvoiceRequestView,
    pub source: PaymentRequestSourceView,
}

impl DeepView for Bolt12InvoiceRequest {
    type V = Bolt12InvoiceRequestView;

    open spec fn deep_view(&self) -> Bolt12InvoiceRequestView {
        Bolt12InvoiceRequestView {
            details: self.details.deep_view(),
            source: self.source.deep_view(),
        }
    }
}

impl View for Bolt12InvoiceRequest {
    type V = Bolt12InvoiceRequestView;

    open spec fn view(&self) -> Bolt12InvoiceRequestView {
        self.deep_view()
    }
}

/// A Liquid address and its network.
#[derive(Clone, Debug, PartialEq, Eq)]
pub struct RawLiquidAddress {
    pub address: String,
    pub network: Network,
}

/// The mathematical value of a [`RawLiquidAddress`].
pub struct RawLiquidAddressView {
    pub address: Seq<char>,
    pub network: Network,
}

impl DeepView for RawLiquidAddress {
    type V = RawLiquidAddressView;

    open spec fn deep_view(&self) -> RawLiquidAddressView {
        RawLiquidAddressView {
            address: self.address.deep_view(),
            network: self.network.deep_view(),
        }
    }
}

impl View for RawLiquidAddress {
    type V = RawLiquidAddressView;

    open spec fn view(&self) -> RawLiquidAddressView {
        self.deep_view()
    }
}

/// A Liquid address with its source.
#[derive(Clone, Debug, PartialEq, Eq)]
pub struct LiquidAddress {
    pub details: RawLiquidAddress,
    pub source: PaymentRequestSource,
}

/// The mathematical value of a [`LiquidAddress`].
pub struct LiquidAddressView {
    pub details: RawLiquidAddressView,
    pub source: PaymentRequestSourceView,
}

impl DeepView for LiquidAddress {
    type V = LiquidAddressView;

    open spec fn deep_view(&self) -> LiquidAddressView {
        LiquidAddressView {
            details: self.details.deep_view(),
            source: self.source.deep_view(),
        }
    }
}

impl View for LiquidAddress {
    type V = LiquidAddressView;

    open spec fn view(&self) -> LiquidAddressView {
        self.deep_view()
    }
}

/// A silent payment address and its network.
#[derive(Clone, Debug, PartialEq, Eq)]
pub struct RawSilentPaymentAddress {
    pub address: String,
    pub network: Network,
}

/// The mathematical value of a [`RawSilentPaymentAddress`].
pub struct RawSilentPaymentAddressView {
    pub address: Seq<char>,
    pub network: Network,
}

impl DeepView for RawSilentPaymentAddress {
    type V = RawSilentPaymentAddressView;

    open spec fn deep_view(&self) -> RawSilentPaymentAddressView {
        RawSilentPaymentAddressView {
            address: self.address.deep_view(),
            network: self.network.deep_view(),
        }
    }
}

impl View for RawSilentPaymentAddress {
    type V = RawSilentPaymentAddressView;

    open spec fn view(&self) -> RawSilentPaymentAddressView {
        self.deep_view()
    }
}

/// A silent payment address with its source.
#[derive(Clone, Debug, PartialEq, Eq)]
pub struct SilentPaymentAddress {
    pub details: RawSilentPaymentAddress,
    pub source: PaymentRequestSource,
}

/// The mathematical value of a [`SilentPaymentAddress`].
pub struct SilentPaymentAddressView {
    pub details: RawSilentPaymentAddressView,
    pub source: PaymentRequestSourceView,
}

impl DeepView for SilentPaymentAddress {
    type V = SilentPaymentAddressView;

    open spec fn deep_view(&self) -> SilentPaymentAddressView {
        SilentPaymentAddressView {
            details: self.details.deep_view(),
            source: self.source.deep_view(),
        }
    }
}

impl View for SilentPaymentAddress {
    type V = SilentPaymentAddressView;

    open spec fn view(&self) -> SilentPaymentAddressView {
        self.deep_view()
    }
}

/// An LNURL-pay endpoint's terms.
#[derive(Clone, Debug, PartialEq, Eq)]
pub struct LnurlPayRequest {
    pub callback: String,
    /// The minimum amount, in millisats, that this LNURL-pay endpoint accepts
    pub min_sendable: u64,
    /// The maximum amount, in millisats, that this LNURL-pay endpoint accepts
    pub max_sendable: u64,
    /// As per LUD-06, `metadata` is a raw string (e.g. a json representation of the inner map).
    pub metadata_str: String,
    /// The comment length accepted by this endpoint
    pub comment_allowed: u16,
    /// The domain of the LNURL-pay endpoint (not of the callback), to be shown to the
    /// user when asking for payment input.
    pub domain: String,
    /// The URL the terms were fetched from.
    pub url: String,
    /// Whether the recipient supports Nostr Zaps through NIP-57.
    pub allows_nostr: bool,
    /// The recipient's lnurl provider's Nostr pubkey for NIP-57, if any.
    pub nostr_pubkey: Option<String>,
}

/// The mathematical value of a [`LnurlPayRequest`].
pub struct LnurlPayRequestView {
    pub callback: Seq<char>,
    pub min_sendable: u64,
    pub max_sendable: u64,
    pub metadata_str: Seq<char>,
    pub comment_allowed: u16,
    pub domain: Seq<char>,
    pub url: Seq<char>,
    pub allows_nostr: bool,
    pub nostr_pubkey: Option<Seq<char>>,
}

impl DeepView for LnurlPayRequest {
    type V = LnurlPayRequestView;

    open spec fn deep_view(&self) -> LnurlPayRequestView {
        LnurlPayRequestView {
            callback: self.callback.deep_view(),
            min_sendable: self.min_sendable.deep_view(),
            max_sendable: self.max_sendable.deep_view(),
            metadata_str: self.metadata_str.deep_view(),
            comment_allowed: self.comment_allowed.deep_view(),
            domain: self.domain.deep_view(),
            url: self.url.deep_view(),
            allows_nostr: self.allows_nostr.deep_view(),
            nostr_pubkey: self.nostr_pubkey.deep_view(),
        }
    }
}

impl View for LnurlPayRequest {
    type V = LnurlPayRequestView;

    open spec fn view(&self) -> LnurlPayRequestView {
        self.deep_view()
    }
}

impl LnurlPayRequestView {
    /// The least sendable amount does not exceed the greatest.
    pub open spec fn well_formed(self) -> bool {
        self.min_sendable <= self.max_sendable
    }
}

/// A lightning address and the LNURL-pay terms it resolved to.
#[derive(Clone, Debug, PartialEq, Eq)]
pub struct LightningAddress {
    pub address: String,
    pub pay_request: LnurlPayRequest,
}

/// The mathematical value of a [`LightningAddress`].
pub struct LightningAddressView {
    pub address: Seq<char>,
    pub pay_request: LnurlPayRequestView,
}

impl DeepView for LightningAddress {
    type V = LightningAddressView;

    open spec fn deep_view(&self) -> LightningAddressView {
        LightningAddressView {
            address: self.address.deep_view(),
            pay_request: self.pay_request.deep_view(),
        }
    }
}

impl View for LightningAddress {
    type V = LightningAddressView;

    open spec fn view(&self) -> LightningAddressView {
        self.deep_view()
    }
}

/// An LNURL-withdraw endpoint's terms.
#[derive(Clone, Debug, PartialEq, Eq)]
pub struct LnurlWithdrawRequestData {
    pub callback: String,
    pub k1: String,
    pub default_description: String,
    /// The minimum amount, in millisats, that this LNURL-withdraw endpoint accepts
    pub min_withdrawable: u64,
    /// The maximum amount, in millisats, that this LNURL-withdraw endpoint accepts
    pub max_withdrawable: u64,
}

/// The mathematical value of a [`LnurlWithdrawRequestData`].
pub struct LnurlWithdrawRequestDataView {
    pub callback: Seq<char>,
    pub k1: Seq<char>,
    pub default_description: Seq<char>,
    pub min_withdrawable: u64,
    pub max_withdrawable: u64,
}

impl DeepView for LnurlWithdrawRequestData {
    type V = LnurlWithdrawRequestDataView;

    open spec fn deep_view(&self) -> LnurlWithdrawRequestDataView {
        LnurlWithdrawRequestDataView {
            callback: self.callback.deep_view(),
            k1: self.k1.deep_view(),
            default_description: self.default_description.deep_view(),
            min_withdrawable: self.min_withdrawable.deep_view(),
            max_withdrawable: self.max_withdrawable.deep_view(),
        }
    }
}

impl View for LnurlWithdrawRequestData {
    type V = LnurlWithdrawRequestDataView;

    open spec fn view(&self) -> LnurlWithdrawRequestDataView {
        self.deep_view()
    }
}

/// An LNURL-auth challenge.
#[derive(Clone, Debug, PartialEq, Eq)]
pub struct LnurlAuthRequestData {
    /// Hex encoded 32 bytes of challenge
    pub k1: String,
    /// When available, one of: register, login, link, auth
    pub action: Option<String>,
    /// The domain of the LNURL-auth service, to be shown to the user when asking for
    /// auth confirmation, as per LUD-04.
    pub domain: String,
    /// The URL of the LNURL-auth service, including the query arguments.
    pub url: String,
}

/// The mathematical value of a [`LnurlAuthRequestData`].
pub struct LnurlAuthRequestDataView {
    pub k1: Seq<char>,
    pub action: Option<Seq<char>>,
    pub domain: Seq<char>,
    pub url: Seq<char>,
}

impl DeepView for LnurlAuthRequestData {
    type V = LnurlAuthRequestDataView;

    open spec fn deep_view(&self) -> LnurlAuthRequestDataView {
        LnurlAuthRequestDataView {
            k1: self.k1.deep_view(),
            action: self.action.deep_view(),
            domain: self.domain.deep_view(),
            url: self.url.deep_view(),
        }
    }
}

impl View for LnurlAuthRequestData {
    type V = LnurlAuthRequestDataView;

    open spec fn view(&self) -> LnurlAuthRequestDataView {
        self.deep_view()
    }
}

/// The reason an LNURL endpoint gave for refusing.
#[derive(Clone, Debug, PartialEq, Eq)]
pub struct LnurlErrorData {
    pub reason: String,
}

/// The mathematical value of a [`LnurlErrorData`].
pub struct LnurlErrorDataView {
    pub reason: Seq<char>,
}

impl DeepView for LnurlErrorData {
    type V = LnurlErrorDataView;

    open spec fn deep_view(&self) -> LnurlErrorDataView {
        LnurlErrorDataView {
            reason: self.reason.deep_view(),
        }
    }
}

impl View for LnurlErrorData {
    type V = LnurlErrorDataView;

    open spec fn view(&self) -> LnurlErrorDataView {
        self.deep_view()
    }
}

/// A query parameter of a BIP21 URI that has no meaning of its own.
#[derive(Clone, Debug, PartialEq, Eq)]
pub struct Bip21Extra {
    pub key: String,
    pub value: String,
}

/// The mathematical value of a [`Bip21Extra`].
pub struct Bip21ExtraView {
    pub key: Seq<char>,
    pub value: Seq<char>,
}

impl DeepView for Bip21Extra {
    type V = Bip21ExtraView;

    open spec fn deep_view(&self) -> Bip21ExtraView {
        Bip21ExtraView {
            key: self.key.deep_view(),
            value: self.value.deep_view(),
        }
    }
}

impl View for Bip21Extra {
    type V = Bip21ExtraView;

    open spec fn view(&self) -> Bip21ExtraView {
        self.deep_view()
    }
}

/// One way to pay.
#[derive(Clone, Debug, PartialEq, Eq)]
pub enum PaymentMethod {
    BitcoinAddress(BitcoinAddress),
    Bolt11Invoice(Bolt11Invoice),
    Bolt12Invoice(Bolt12Invoice),
    Bolt12Offer(Bolt12Offer),
    LightningAddress(LightningAddress),
    LiquidAddress(LiquidAddress),
    LnurlPay(LnurlPayRequest),
    SilentPaymentAddress(SilentPaymentAddress),
}

/// The mathematical value of a [`PaymentMethod`].
pub enum PaymentMethodView {
    BitcoinAddress(BitcoinAddressView),
    Bolt11Invoice(Bolt11InvoiceView),
    Bolt12Invoice(Bolt12InvoiceView),
    Bolt12Offer(Bolt12OfferView),
    LightningAddress(LightningAddressView),
    LiquidAddress(LiquidAddressView),
    LnurlPay(LnurlPayRequestView),
    SilentPaymentAddress(SilentPaymentAddressView),
}

impl DeepView for PaymentMethod {
    type V = PaymentMethodView;

    open spec fn deep_view(&self) -> PaymentMethodView {
        match self {
            PaymentMethod::BitcoinAddress(x) => PaymentMethodView::BitcoinAddress(x.deep_view()),
            PaymentMethod::Bolt11Invoice(x) => PaymentMethodView::Bolt11Invoice(x.deep_view()),
            PaymentMethod::Bolt12Invoice(x) => PaymentMethodView::Bolt12Invoice(x.deep_view()),
            PaymentMethod::Bolt12Offer(x) => PaymentMethodView::Bolt12Offer(x.deep_view()),
            PaymentMethod::LightningAddress(x) => PaymentMethodView::LightningAddress(
                x.deep_view(),
            ),
            PaymentMethod::LiquidAddress(x) => PaymentMethodView::LiquidAddress(x.deep_view()),
            PaymentMethod::LnurlPay(x) => PaymentMethodView::LnurlPay(x.deep_view()),
            PaymentMethod::SilentPaymentAddress(x) => PaymentMethodView::SilentPaymentAddress(
                x.deep_view(),
            ),
        }
    }
}

impl View for PaymentMethod {
    type V = PaymentMethodView;

    open spec fn view(&self) -> PaymentMethodView {
        self.deep_view()
    }
}

/// A decoded BIP21 URI: its parameters and every way to pay that it offers.
#[derive(Clone, Debug, PartialEq, Eq)]
pub struct Bip21 {
    pub amount_sat: Option<u64>,
    pub asset_id: Option<String>,
    pub uri: String,
    pub extras: Vec<Bip21Extra>,
    pub label: Option<String>,
    pub message: Option<String>,
    pub payment_methods: Vec<PaymentMethod>,
}

/// The mathematical value of a [`Bip21`].
pub struct Bip21View {
    pub amount_sat: Option<u64>,
    pub asset_id: Option<Seq<char>>,
    pub uri: Seq<char>,
    pub extras: Seq<Bip21ExtraView>,
    pub label: Option<Seq<char>>,
    pub message: Option<Seq<char>>,
    pub payment_methods: Seq<PaymentMethodView>,
}

impl DeepView for Bip21 {
    type V = Bip21View;

    open spec fn deep_view(&self) -> Bip21View {
        Bip21View {
            amount_sat: self.amount_sat.deep_view(),
            asset_id: self.asset_id.deep_view(),
            uri: self.uri.deep_view(),
            extras: self.extras.deep_view(),
            label: self.label.deep_view(),
            message: self.message.deep_view(),
            payment_methods: self.payment_methods.deep_view(),
        }
    }
}

impl View for Bip21 {
    type V = Bip21View;

    open spec fn view(&self) -> Bip21View {
        self.deep_view()
    }
}

/// A request to pay: a bundle of alternatives or a single method.
#[derive(Clone, Debug, PartialEq, Eq)]
pub enum PaymentRequest {
    Bip21(Bip21),
    PaymentMethod(PaymentMethod),
}

/// The mathematical value of a [`PaymentRequest`].
pub enum PaymentRequestView {
    Bip21(Bip21View),
    PaymentMethod(PaymentMethodView),
}

impl DeepView for PaymentRequest {
    type V = PaymentRequestView;

    open spec fn deep_view(&self) -> PaymentRequestView {
        match self {
            PaymentRequest::Bip21(x) => PaymentRequestView::Bip21(x.deep_view()),
            PaymentRequest::PaymentMethod(x) => PaymentRequestView::PaymentMethod(x.deep_view()),
        }
    }
}

impl View for PaymentRequest {
    type V = PaymentRequestView;

    open spec fn view(&self) -> PaymentRequestView {
        self.deep_view()
    }
}

/// A request to receive.
#[derive(Clone, Debug, PartialEq, Eq)]
pub enum ReceiveRequest {
    Bolt12InvoiceRequest(Bolt12InvoiceRequest),
    LnurlWithdraw(LnurlWithdrawRequestData),
}

/// The mathematical value of a [`ReceiveRequest`].
pub enum ReceiveRequestView {
    Bolt12InvoiceRequest(Bolt12InvoiceRequestView),
    LnurlWithdraw(LnurlWithdrawRequestDataView),
}

impl DeepView for ReceiveRequest {
    type V = ReceiveRequestView;

    open spec fn deep_view(&self) -> ReceiveRequestView {
        match self {
            ReceiveRequest::Bolt12InvoiceRequest(x) => ReceiveRequestView::Bolt12InvoiceRequest(
                x.deep_view(),
            ),
            ReceiveRequest::LnurlWithdraw(x) => ReceiveRequestView::LnurlWithdraw(x.deep_view()),
        }
    }
}

impl View for ReceiveRequest {
    type V = ReceiveRequestView;

    open spec fn view(&self) -> ReceiveRequestView {
        self.deep_view()
    }
}

/// What an input turned out to be.
#[derive(Clone, Debug, PartialEq, Eq)]
pub enum InputType {
    LnurlAuth(LnurlAuthRequestData),
    PaymentRequest(PaymentRequest),
    ReceiveRequest(ReceiveRequest),
    Url(String),
}

/// The mathematical value of a [`InputType`].
pub enum InputTypeView {
    LnurlAuth(LnurlAuthRequestDataView),
    PaymentRequest(PaymentRequestView),
    ReceiveRequest(ReceiveRequestView),
    Url(Seq<char>),
}

impl DeepView for InputType {
    type V = InputTypeView;

    open spec fn deep_view(&self) -> InputTypeView {
        match self {
            InputType::LnurlAuth(x) => InputTypeView::LnurlAuth(x.deep_view()),
            InputType::PaymentRequest(x) => InputTypeView::PaymentRequest(x.deep_view()),
            InputType::ReceiveRequest(x) => InputTypeView::ReceiveRequest(x.deep_view()),
            InputType::Url(x) => InputTypeView::Url(x.deep_view()),
        }
    }
}

impl View for InputType {
    type V = InputTypeView;

    open spec fn view(&self) -> InputTypeView {
        self.deep_view()
    }
}

impl PaymentMethodView {
    /// Where this method was found, for the kinds that say so.
    pub open spec fn source(self) -> Option<PaymentRequestSourceView> {
        match self {
            PaymentMethodView::BitcoinAddress(address) => Some(address.source),
            PaymentMethodView::Bolt11Invoice(invoice) => Some(invoice.source),
            PaymentMethodView::Bolt12Invoice(invoice) => Some(invoice.source),
            PaymentMethodView::Bolt12Offer(offer) => Some(offer.source),
            PaymentMethodView::LightningAddress(_) => None,
            PaymentMethodView::LiquidAddress(address) => Some(address.source),
            PaymentMethodView::LnurlPay(_) => None,
            PaymentMethodView::SilentPaymentAddress(address) => Some(address.source),
        }
    }

    /// This method as one that was found in `source`. A method of a kind
    /// that does not say where it was found stays as it is.
    pub open spec fn with_source(self, source: PaymentRequestSourceView) -> PaymentMethodView {
        match self {
            PaymentMethodView::BitcoinAddress(address) => PaymentMethodView::BitcoinAddress(
                BitcoinAddressView { source, ..address },
            ),
            PaymentMethodView::Bolt11Invoice(invoice) => PaymentMethodView::Bolt11Invoice(
                Bolt11InvoiceView { source, ..invoice },
            ),
            PaymentMethodView::Bolt12Invoice(invoice) => PaymentMethodView::Bolt12Invoice(
                Bolt12InvoiceView { source, ..invoice },
            ),
            PaymentMethodView::Bolt12Offer(offer) => PaymentMethodView::Bolt12Offer(
                Bolt12OfferView { source, ..offer },
            ),
            PaymentMethodView::LightningAddress(address) => PaymentMethodView::LightningAddress(
                address,
            ),
            PaymentMethodView::LiquidAddress(address) => PaymentMethodView::LiquidAddress(
                LiquidAddressView { source, ..address },
            ),
            PaymentMethodView::LnurlPay(request) => PaymentMethodView::LnurlPay(request),
            PaymentMethodView::SilentPaymentAddress(address) => {
                PaymentMethodView::SilentPaymentAddress(
                    SilentPaymentAddressView { source, ..address },
                )
            },
        }
    }

    /// The kind of this method.
    pub open spec fn get_type(self) -> PaymentMethodType {
        match self {
            PaymentMethodView::BitcoinAddress(_) => PaymentMethodType::BitcoinAddress,
            PaymentMethodView::Bolt11Invoice(_) => PaymentMethodType::Bolt11Invoice,
            PaymentMethodView::Bolt12Invoice(_) => PaymentMethodType::Bolt12Invoice,
            PaymentMethodView::Bolt12Offer(_) => PaymentMethodType::Bolt12Offer,
            PaymentMethodView::LightningAddress(_) => PaymentMethodType::LightningAddress,
            PaymentMethodView::LiquidAddress(_) => PaymentMethodType::LiquidAddress,
            PaymentMethodView::LnurlPay(_) => PaymentMethodType::LnurlPay,
            PaymentMethodView::SilentPaymentAddress(_) => PaymentMethodType::SilentPaymentAddress,
        }
    }
}

impl PaymentMethod {
    /// The kind of this method.
    pub fn get_type(&self) -> (r: PaymentMethodType)
        ensures
            r == self@.get_type(),
    {
        match self {
            PaymentMethod::BitcoinAddress(_) => PaymentMethodType::BitcoinAddress,
            PaymentMethod::Bolt11Invoice(_) => PaymentMethodType::Bolt11Invoice,
            PaymentMethod::Bolt12Invoice(_) => PaymentMethodType::Bolt12Invoice,
            PaymentMethod::Bolt12Offer(_) => PaymentMethodType::Bolt12Offer,
            PaymentMethod::LightningAddress(_) => PaymentMethodType::LightningAddress,
            PaymentMethod::LiquidAddress(_) => PaymentMethodType::LiquidAddress,
            PaymentMethod::LnurlPay(_) => PaymentMethodType::LnurlPay,
            PaymentMethod::SilentPaymentAddress(_) => PaymentMethodType::SilentPaymentAddress,
        }
    }
}

} // verus!
