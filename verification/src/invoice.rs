//! Lightning invoices and offers, as the `lightning` crate reads them.
//!
//! The functions here call into `lightning`. Their contracts are not proved:
//! what an invoice or an offer decodes to is given a name, and each function
//! returns one part of it. The decoders that build on them are verified
//! against those names.

use crate::models::{Bolt12OfferBlindedPath, Bolt12OfferBlindedPathView};
use crate::network::Network;
use lightning::bolt11_invoice::Bolt11InvoiceDescriptionRef;
use lightning::offers::offer;
use vstd::prelude::*;

verus! {

/// The numbers of a BOLT11 invoice.
#[derive(Clone, Debug, PartialEq, Eq)]
pub struct Bolt11Terms {
    pub amount_msat: Option<u64>,
    pub expiry: u64,
    pub min_final_cltv_expiry_delta: u64,
    pub network: Network,
    pub timestamp: u64,
}

/// The mathematical value of a [`Bolt11Terms`].
pub struct Bolt11TermsView {
    pub amount_msat: Option<u64>,
    pub expiry: u64,
    pub min_final_cltv_expiry_delta: u64,
    pub network: Network,
    pub timestamp: u64,
}

impl DeepView for Bolt11Terms {
    type V = Bolt11TermsView;

    open spec fn deep_view(&self) -> Bolt11TermsView {
        Bolt11TermsView {
            amount_msat: self.amount_msat.deep_view(),
            expiry: self.expiry.deep_view(),
            min_final_cltv_expiry_delta: self.min_final_cltv_expiry_delta.deep_view(),
            network: self.network.deep_view(),
            timestamp: self.timestamp.deep_view(),
        }
    }
}

impl View for Bolt11Terms {
    type V = Bolt11TermsView;

    open spec fn view(&self) -> Bolt11TermsView {
        self.deep_view()
    }
}

/// The texts and keys of a BOLT11 invoice.
#[derive(Clone, Debug, PartialEq, Eq)]
pub struct Bolt11Texts {
    pub description: Option<String>,
    pub description_hash: Option<String>,
    pub payee_pubkey: String,
    pub payment_hash: String,
    pub payment_secret: Vec<u8>,
}

/// The mathematical value of a [`Bolt11Texts`].
pub struct Bolt11TextsView {
    pub description: Option<Seq<char>>,
    pub description_hash: Option<Seq<char>>,
    pub payee_pubkey: Seq<char>,
    pub payment_hash: Seq<char>,
    pub payment_secret: Seq<u8>,
}

impl DeepView for Bolt11Texts {
    type V = Bolt11TextsView;

    open spec fn deep_view(&self) -> Bolt11TextsView {
        Bolt11TextsView {
            description: self.description.deep_view(),
            description_hash: self.description_hash.deep_view(),
            payee_pubkey: self.payee_pubkey.deep_view(),
            payment_hash: self.payment_hash.deep_view(),
            payment_secret: self.payment_secret.deep_view(),
        }
    }
}

impl View for Bolt11Texts {
    type V = Bolt11TextsView;

    open spec fn view(&self) -> Bolt11TextsView {
        self.deep_view()
    }
}

/// One hop of a route hint, with its channel id as a number.
#[derive(Clone, Debug, PartialEq, Eq)]
pub struct Bolt11Hop {
    pub src_node_id: String,
    pub short_channel_id: u64,
    pub fees_base_msat: u32,
    pub fees_proportional_millionths: u32,
    pub cltv_expiry_delta: u16,
    pub htlc_minimum_msat: Option<u64>,
    pub htlc_maximum_msat: Option<u64>,
}

/// The mathematical value of a [`Bolt11Hop`].
pub struct Bolt11HopView {
    pub src_node_id: Seq<char>,
    pub short_channel_id: u64,
    pub fees_base_msat: u32,
    pub fees_proportional_millionths: u32,
    pub cltv_expiry_delta: u16,
    pub htlc_minimum_msat: Option<u64>,
    pub htlc_maximum_msat: Option<u64>,
}

impl DeepView for Bolt11Hop {
    type V = Bolt11HopView;

    open spec fn deep_view(&self) -> Bolt11HopView {
        Bolt11HopView {
            src_node_id: self.src_node_id.deep_view(),
            short_channel_id: self.short_channel_id.deep_view(),
            fees_base_msat: self.fees_base_msat.deep_view(),
            fees_proportional_millionths: self.fees_proportional_millionths.deep_view(),
            cltv_expiry_delta: self.cltv_expiry_delta.deep_view(),
            htlc_minimum_msat: self.htlc_minimum_msat.deep_view(),
            htlc_maximum_msat: self.htlc_maximum_msat.deep_view(),
        }
    }
}

impl View for Bolt11Hop {
    type V = Bolt11HopView;

    open spec fn view(&self) -> Bolt11HopView {
        self.deep_view()
    }
}

/// Everything this crate reads from a BOLT11 invoice.
pub struct Bolt11Fields {
    pub terms: Bolt11TermsView,
    pub texts: Bolt11TextsView,
    pub routes: Seq<Seq<Bolt11HopView>>,
}

/// The amount of a BOLT12 offer, with its currency code as bytes.
#[derive(Clone, Debug, PartialEq, Eq)]
pub enum OfferAmount {
    Bitcoin {
        amount_msats: u64,
    },
    Currency {
        iso4217_code: Vec<u8>,
        amount: u64,
    },
}

/// The mathematical value of a [`OfferAmount`].
pub enum OfferAmountView {
    Bitcoin {
        amount_msats: u64,
    },
    Currency {
        iso4217_code: Seq<u8>,
        amount: u64,
    },
}

impl DeepView for OfferAmount {
    type V = OfferAmountView;

    open spec fn deep_view(&self) -> OfferAmountView {
        match self {
            OfferAmount::Bitcoin { amount_msats } => OfferAmountView::Bitcoin {
                amount_msats: amount_msats.deep_view(),
            },
            OfferAmount::Currency { iso4217_code, amount } => OfferAmountView::Currency {
                iso4217_code: iso4217_code.deep_view(),
                amount: amount.deep_view(),
            },
        }
    }
}

impl View for OfferAmount {
    type V = OfferAmountView;

    open spec fn view(&self) -> OfferAmountView {
        self.deep_view()
    }
}

/// The numbers and keys of a BOLT12 offer.
#[derive(Clone, Debug, PartialEq, Eq)]
pub struct OfferTerms {
    pub absolute_expiry: Option<u64>,
    pub amount: Option<OfferAmount>,
    pub chains: Vec<String>,
    pub signing_pubkey: Option<String>,
}

/// The mathematical value of a [`OfferTerms`].
pub struct OfferTermsView {
    pub absolute_expiry: Option<u64>,
    pub amount: Option<OfferAmountView>,
    pub chains: Seq<Seq<char>>,
    pub signing_pubkey: Option<Seq<char>>,
}

impl DeepView for OfferTerms {
    type V = OfferTermsView;

    open spec fn deep_view(&self) -> OfferTermsView {
        OfferTermsView {
            absolute_expiry: self.absolute_expiry.deep_view(),
            amount: self.amount.deep_view(),
            chains: self.chains.deep_view(),
            signing_pubkey: self.signing_pubkey.deep_view(),
        }
    }
}

impl View for OfferTerms {
    type V = OfferTermsView;

    open spec fn view(&self) -> OfferTermsView {
        self.deep_view()
    }
}

/// The texts and paths of a BOLT12 offer.
#[derive(Clone, Debug, PartialEq, Eq)]
pub struct OfferTexts {
    pub description: Option<String>,
    pub issuer: Option<String>,
    pub paths: Vec<Bolt12OfferBlindedPath>,
}

/// The mathematical value of a [`OfferTexts`].
pub struct OfferTextsView {
    pub description: Option<Seq<char>>,
    pub issuer: Option<Seq<char>>,
    pub paths: Seq<Bolt12OfferBlindedPathView>,
}

impl DeepView for OfferTexts {
    type V = OfferTextsView;

    open spec fn deep_view(&self) -> OfferTextsView {
        OfferTextsView {
            description: self.description.deep_view(),
            issuer: self.issuer.deep_view(),
            paths: self.paths.deep_view(),
        }
    }
}

impl View for OfferTexts {
    type V = OfferTextsView;

    open spec fn view(&self) -> OfferTextsView {
        self.deep_view()
    }
}

/// Everything this crate reads from a BOLT12 offer.
pub struct OfferFields {
    pub terms: OfferTermsView,
    pub texts: OfferTextsView,
}

/// What `text` decodes to as a BOLT11 invoice, if it is one.
pub uninterp spec fn bolt11_decoded(text: Seq<char>) -> Option<Bolt11Fields>;

/// What `text` decodes to as a BOLT12 offer, if it is one.
pub uninterp spec fn offer_decoded(text: Seq<char>) -> Option<OfferFields>;

/// The amount in millisatoshi of the BOLT12 invoice that `bytes` encode, if
/// they encode one.
pub uninterp spec fn bolt12_invoice_amount(bytes: Seq<u8>) -> Option<u64>;

/// Whether `bytes` encode a BOLT12 invoice request.
pub uninterp spec fn is_invoice_request(bytes: Seq<u8>) -> bool;

/// The human-readable part (in lower case) and the payload of a bech32
/// string without checksum, when `text` is one.
pub uninterp spec fn bech32_unchecked_decoded(text: Seq<char>) -> Option<(Seq<char>, Seq<u8>)>;

/// Calls `Bolt11Invoice::from_str`, then `amount_milli_satoshis`,
/// `expiry_time`, `min_final_cltv_expiry_delta`, `network` and
/// `duration_since_epoch`. The result is the `terms` of `bolt11_decoded`;
/// nothing else is claimed of it.
#[verifier::external_body]
pub(crate) fn decode_bolt11_terms(text: &str) -> (r: Option<Bolt11Terms>)
    ensures
        r is Some <==> bolt11_decoded(text@) is Some,
        r is Some ==> r.unwrap()@ == bolt11_decoded(text@).unwrap().terms,
{
    let invoice = text.parse::<lightning::bolt11_invoice::Bolt11Invoice>().ok()?;
    Some(Bolt11Terms {
        amount_msat: invoice.amount_milli_satoshis(),
        expiry: invoice.expiry_time().as_secs(),
        min_final_cltv_expiry_delta: invoice.min_final_cltv_expiry_delta(),
        network: match invoice.network() {
            bitcoin::Network::Bitcoin => Network::Bitcoin,
            bitcoin::Network::Testnet => Network::Testnet3,
            bitcoin::Network::Testnet4 => Network::Testnet4,
            bitcoin::Network::Signet => Network::Signet,
            bitcoin::Network::Regtest => Network::Regtest,
        },
        timestamp: invoice.duration_since_epoch().as_secs(),
    })
}

/// Calls `Bolt11Invoice::from_str`, then `description`, `get_payee_pub_key`,
/// `payment_hash` and `payment_secret`, writing keys and hashes as text.
/// The result is the `texts` of `bolt11_decoded`; nothing else is claimed of
/// it.
#[verifier::external_body]
pub(crate) fn decode_bolt11_texts(text: &str) -> (r: Option<Bolt11Texts>)
    ensures
        r is Some <==> bolt11_decoded(text@) is Some,
        r is Some ==> r.unwrap()@ == bolt11_decoded(text@).unwrap().texts,
{
    let invoice = text.parse::<lightning::bolt11_invoice::Bolt11Invoice>().ok()?;
    let (description, description_hash) = match invoice.description() {
        Bolt11InvoiceDescriptionRef::Direct(direct) => (Some(direct.to_string()), None),
        Bolt11InvoiceDescriptionRef::Hash(hash) => (None, Some(hash.0.to_string())),
    };
    Some(Bolt11Texts {
        description,
        description_hash,
        payee_pubkey: invoice.get_payee_pub_key().to_string(),
        payment_hash: invoice.payment_hash().to_string(),
        payment_secret: invoice.payment_secret().0.to_vec(),
    })
}

/// Calls `Bolt11Invoice::from_str`, then `route_hints`, moving the fields of
/// each hop. The result is the `routes` of `bolt11_decoded`; nothing else is
/// claimed of it.
#[verifier::external_body]
pub(crate) fn decode_bolt11_routes(text: &str) -> (r: Option<Vec<Vec<Bolt11Hop>>>)
    ensures
        r is Some <==> bolt11_decoded(text@) is Some,
        r is Some ==> r.unwrap().deep_view() == bolt11_decoded(text@).unwrap().routes,
{
    let invoice = text.parse::<lightning::bolt11_invoice::Bolt11Invoice>().ok()?;
    Some(invoice.route_hints().into_iter().map(|hint| hint.0.into_iter().map(|hop| Bolt11Hop {
        src_node_id: hop.src_node_id.to_string(),
        short_channel_id: hop.short_channel_id,
        fees_base_msat: hop.fees.base_msat,
        fees_proportional_millionths: hop.fees.proportional_millionths,
        cltv_expiry_delta: hop.cltv_expiry_delta,
        htlc_minimum_msat: hop.htlc_minimum_msat,
        htlc_maximum_msat: hop.htlc_maximum_msat,
    }).collect()).collect())
}

/// Calls `Offer::from_str`, then `absolute_expiry`, `amount`, `chains` and
/// `issuer_signing_pubkey`, writing chains and the key as text. The result
/// is the `terms` of `offer_decoded`; nothing else is claimed of it.
#[verifier::external_body]
pub(crate) fn decode_offer_terms(text: &str) -> (r: Option<OfferTerms>)
    ensures
        r is Some <==> offer_decoded(text@) is Some,
        r is Some ==> r.unwrap()@ == offer_decoded(text@).unwrap().terms,
{
    let parsed = text.parse::<offer::Offer>().ok()?;
    Some(OfferTerms {
        absolute_expiry: parsed.absolute_expiry().map(|e| e.as_secs()),
        amount: parsed.amount().map(|amount| match amount {
            offer::Amount::Bitcoin { amount_msats } => OfferAmount::Bitcoin { amount_msats },
            offer::Amount::Currency { iso4217_code, amount } => {
                OfferAmount::Currency { iso4217_code: iso4217_code.to_vec(), amount }
            },
        }),
        chains: parsed.chains().into_iter().map(|c| c.to_string()).collect(),
        signing_pubkey: parsed.issuer_signing_pubkey().map(|p| p.to_string()),
    })
}

/// Calls `Offer::from_str`, then `description`, `issuer` and `paths` with
/// `blinded_hops`, writing each blinded node id as text. The result is the
/// `texts` of `offer_decoded`; nothing else is claimed of it.
#[verifier::external_body]
pub(crate) fn decode_offer_texts(text: &str) -> (r: Option<OfferTexts>)
    ensures
        r is Some <==> offer_decoded(text@) is Some,
        r is Some ==> r.unwrap()@ == offer_decoded(text@).unwrap().texts,
{
    let parsed = text.parse::<offer::Offer>().ok()?;
    Some(OfferTexts {
        description: parsed.description().map(|d| d.to_string()),
        issuer: parsed.issuer().map(|i| i.to_string()),
        paths: parsed.paths().iter().map(|path| Bolt12OfferBlindedPath {
            blinded_hops: path.blinded_hops().iter().map(|hop| hop.blinded_node_id.to_string()).collect(),
        }).collect(),
    })
}

/// Calls `CheckedHrpstring::new::<NoChecksum>`, then `hrp` with
/// `to_lowercase` and `byte_iter`. The result is given the name
/// `bech32_unchecked_decoded`; nothing else is claimed of it.
#[verifier::external_body]
pub(crate) fn bech32_decode_unchecked(text: &str) -> (r: Option<(String, Vec<u8>)>)
    ensures
        r is Some <==> bech32_unchecked_decoded(text@) is Some,
        r is Some ==> (r.unwrap().0@, r.unwrap().1@) == bech32_unchecked_decoded(text@).unwrap(),
{
    let parsed =
        bech32::primitives::decode::CheckedHrpstring::new::<bech32::NoChecksum>(text).ok()?;
    Some((parsed.hrp().to_lowercase(), parsed.byte_iter().collect()))
}

/// Calls `Bolt12Invoice::try_from` on the bytes, then `amount_msats`. The
/// result is given the name `bolt12_invoice_amount`; nothing else is claimed
/// of it.
#[verifier::external_body]
pub(crate) fn decode_bolt12_invoice_amount(bytes: Vec<u8>) -> (r: Option<u64>)
    ensures
        r == bolt12_invoice_amount(bytes@),
{
    Some(lightning::offers::invoice::Bolt12Invoice::try_from(bytes).ok()?.amount_msats())
}

/// Calls `InvoiceRequest::try_from` on the bytes. Whether it succeeds is
/// given the name `is_invoice_request`; nothing else is claimed of it.
#[verifier::external_body]
pub(crate) fn check_invoice_request(bytes: Vec<u8>) -> (r: bool)
    ensures
        r == is_invoice_request(bytes@),
{
    lightning::offers::invoice_request::InvoiceRequest::try_from(bytes).is_ok()
}

} // verus!
