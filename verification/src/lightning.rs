//! Decoders for the Lightning family: BOLT11 invoices, BOLT12 offers,
//! invoices and invoice requests.
//!
//! A text that is not of the format asked for gives `None`: to these
//! decoders a malformed invoice is simply not an invoice.

use crate::encoding::{hex_encode, hex_text, utf8_decode, utf8_decoded};
use crate::invoice::{
    Bolt11Hop, Bolt11HopView, OfferAmount, OfferAmountView, bech32_decode_unchecked,
    bech32_unchecked_decoded, bolt11_decoded, bolt12_invoice_amount, check_invoice_request,
    decode_bolt11_routes, decode_bolt11_terms, decode_bolt11_texts,
    decode_bolt12_invoice_amount, decode_offer_terms, decode_offer_texts, is_invoice_request,
    offer_decoded,
};
use crate::models::{
    Amount, AmountView, Bolt11Invoice, Bolt11InvoiceView, Bolt11RouteHint, Bolt11RouteHintHop,
    Bolt11RouteHintHopView, Bolt11RouteHintView, Bolt12Invoice, Bolt12InvoiceRequest,
    Bolt12InvoiceRequestView, Bolt12InvoiceView, Bolt12Offer, Bolt12OfferView, PaymentMethod,
    PaymentMethodView, PaymentRequestSource, PaymentRequestSourceView, RawBolt11Invoice,
    RawBolt11InvoiceView, RawBolt12Invoice, RawBolt12InvoiceRequest,
    RawBolt12InvoiceRequestView, RawBolt12InvoiceView, RawBolt12Offer, RawBolt12OfferView,
};
use crate::text::{
    decimal, eq_ignore_ascii_case, has_prefix, has_prefix_spec, text_equal, to_decimal,
};
use vstd::prelude::*;

verus! {

/// `lightning:`
pub open spec fn lightning_prefix() -> Seq<char> {
    seq!['l', 'i', 'g', 'h', 't', 'n', 'i', 'n', 'g', ':']
}

/// `lni`, the human-readable part of a BOLT12 invoice.
pub open spec fn bolt12_invoice_hrp() -> Seq<char> {
    seq!['l', 'n', 'i']
}

/// `lnr`, the human-readable part of a BOLT12 invoice request.
pub open spec fn bolt12_invoice_request_hrp() -> Seq<char> {
    seq!['l', 'n', 'r']
}

/// `input` without a leading `lightning:` of any case.
pub open spec fn strip_lightning_prefix(input: Seq<char>) -> Seq<char> {
    if has_prefix_spec(input, lightning_prefix()) {
        input.skip(10)
    } else {
        input
    }
}

/// The block height in a short channel id: its upper 24 bits.
pub open spec fn channel_block(id: u64) -> u64 {
    id >> 40
}

/// The transaction index in a short channel id: its middle 24 bits.
pub open spec fn channel_tx(id: u64) -> u64 {
    (id >> 16) & 0xFFFFFF
}

/// The output index in a short channel id: its lower 16 bits.
pub open spec fn channel_output(id: u64) -> u64 {
    id & 0xFFFF
}

/// A short channel id written as `{block}x{tx}x{output}`.
pub open spec fn short_channel_id_text(id: u64) -> Seq<char> {
    decimal(channel_block(id) as nat) + seq!['x'] + decimal(channel_tx(id) as nat) + seq!['x']
        + decimal(channel_output(id) as nat)
}

/// A route hint hop with its channel id written out.
pub open spec fn route_hop_spec(hop: Bolt11HopView) -> Bolt11RouteHintHopView {
    Bolt11RouteHintHopView {
        src_node_id: hop.src_node_id,
        short_channel_id: short_channel_id_text(hop.short_channel_id),
        fees_base_msat: hop.fees_base_msat,
        fees_proportional_millionths: hop.fees_proportional_millionths,
        cltv_expiry_delta: hop.cltv_expiry_delta,
        htlc_minimum_msat: hop.htlc_minimum_msat,
        htlc_maximum_msat: hop.htlc_maximum_msat,
    }
}

/// A route hint with the channel id of each hop written out.
pub open spec fn route_hint_spec(hops: Seq<Bolt11HopView>) -> Bolt11RouteHintView {
    Bolt11RouteHintView { hops: hops.map_values(|hop: Bolt11HopView| route_hop_spec(hop)) }
}

/// The invoice that `input` decodes to: the fields that the invoice holds,
/// with the payment secret in hexadecimal and channel ids written out, the
/// text itself and the source it came from.
pub open spec fn bolt11_spec(input: Seq<char>, source: PaymentRequestSourceView) -> Option<
    Bolt11InvoiceView,
> {
    match bolt11_decoded(input) {
        None => None,
        Some(fields) => Some(
            Bolt11InvoiceView {
                details: RawBolt11InvoiceView {
                    amount_msat: fields.terms.amount_msat,
                    description: fields.texts.description,
                    description_hash: fields.texts.description_hash,
                    expiry: fields.terms.expiry,
                    invoice: input,
                    min_final_cltv_expiry_delta: fields.terms.min_final_cltv_expiry_delta,
                    network: fields.terms.network,
                    payee_pubkey: fields.texts.payee_pubkey,
                    payment_hash: fields.texts.payment_hash,
                    payment_secret: hex_text(fields.texts.payment_secret),
                    routing_hints: fields.routes.map_values(
                        |hops: Seq<Bolt11HopView>| route_hint_spec(hops),
                    ),
                    timestamp: fields.terms.timestamp,
                },
                source,
            },
        ),
    }
}

/// The minimum amount of an offer, or `None` where its currency code is not
/// UTF-8.
pub open spec fn offer_amount_spec(amount: OfferAmountView) -> Option<AmountView> {
    match amount {
        OfferAmountView::Bitcoin { amount_msats } => Some(
            AmountView::Bitcoin { amount_msat: amount_msats },
        ),
        OfferAmountView::Currency { iso4217_code, amount } => match utf8_decoded(iso4217_code) {
            Some(code) => Some(
                AmountView::Currency { iso4217_code: code, fractional_amount: amount },
            ),
            None => None,
        },
    }
}

/// The offer that `input` decodes to. An offer whose amount is in a currency
/// with a code that is not UTF-8 decodes to nothing.
pub open spec fn bolt12_offer_spec(input: Seq<char>, source: PaymentRequestSourceView) -> Option<
    Bolt12OfferView,
> {
    match offer_decoded(input) {
        None => None,
        Some(fields) => {
            if fields.terms.amount is Some && offer_amount_spec(fields.terms.amount.unwrap())
                is None {
                None
            } else {
                Some(
                    Bolt12OfferView {
                        details: RawBolt12OfferView {
                            absolute_expiry: fields.terms.absolute_expiry,
                            chains: fields.terms.chains,
                            description: fields.texts.description,
                            issuer: fields.texts.issuer,
                            min_amount: match fields.terms.amount {
                                Some(amount) => offer_amount_spec(amount),
                                None => None,
                            },
                            offer: input,
                            paths: fields.texts.paths,
                            signing_pubkey: fields.terms.signing_pubkey,
                        },
                        source,
                    },
                )
            }
        },
    }
}

/// The BOLT12 invoice that `input` decodes to: a bech32 text without
/// checksum whose human-readable part is `lni` and whose payload is an
/// invoice.
pub open spec fn bolt12_invoice_spec(input: Seq<char>, source: PaymentRequestSourceView) -> Option<
    Bolt12InvoiceView,
> {
    match bech32_unchecked_decoded(input) {
        Some((hrp, payload)) => if hrp == bolt12_invoice_hrp() {
            match bolt12_invoice_amount(payload) {
                Some(amount_msat) => Some(
                    Bolt12InvoiceView {
                        details: RawBolt12InvoiceView { amount_msat, invoice: input },
                        source,
                    },
                ),
                None => None,
            }
        } else {
            None
        },
        None => None,
    }
}

/// The BOLT12 invoice request that `input` decodes to: a bech32 text
/// without checksum whose human-readable part is `lnr` and whose payload is
/// an invoice request.
pub open spec fn bolt12_invoice_request_spec(
    input: Seq<char>,
    source: PaymentRequestSourceView,
) -> Option<Bolt12InvoiceRequestView> {
    match bech32_unchecked_decoded(input) {
        Some((hrp, payload)) => if hrp == bolt12_invoice_request_hrp() && is_invoice_request(
            payload,
        ) {
            Some(
                Bolt12InvoiceRequestView {
                    details: RawBolt12InvoiceRequestView { invoice_request: input },
                    source,
                },
            )
        } else {
            None
        },
        None => None,
    }
}

/// The payment method that a Lightning text decodes to: a BOLT11 invoice,
/// else a BOLT12 offer, else a BOLT12 invoice, after an optional
/// `lightning:` prefix.
pub open spec fn lightning_payment_method_spec(
    input: Seq<char>,
    source: PaymentRequestSourceView,
) -> Option<PaymentMethodView> {
    let text = strip_lightning_prefix(input);
    if bolt11_spec(text, source) is Some {
        Some(PaymentMethodView::Bolt11Invoice(bolt11_spec(text, source).unwrap()))
    } else if bolt12_offer_spec(text, source) is Some {
        Some(PaymentMethodView::Bolt12Offer(bolt12_offer_spec(text, source).unwrap()))
    } else if bolt12_invoice_spec(text, source) is Some {
        Some(PaymentMethodView::Bolt12Invoice(bolt12_invoice_spec(text, source).unwrap()))
    } else {
        None
    }
}

/// A `lightning:` prefix in letters of any case is stripped.
pub proof fn lemma_strip_lightning_prefix(prefix: Seq<char>, rest: Seq<char>)
    requires
        eq_ignore_ascii_case(prefix, lightning_prefix()),
    ensures
        has_prefix_spec(prefix + rest, lightning_prefix()),
        strip_lightning_prefix(prefix + rest) == rest,
{
    assert((prefix + rest).take(10) =~= prefix);
    assert((prefix + rest).skip(10) =~= rest);
}

/// The three parts of a short channel id lose nothing: block, transaction
/// and output index put back in their places give the id again, and each
/// part is within its width.
pub proof fn lemma_short_channel_id_parts(id: u64)
    ensures
        channel_block(id) < 0x1000000,
        channel_tx(id) < 0x1000000,
        channel_output(id) < 0x10000,
        channel_block(id) * 0x10000000000 + channel_tx(id) * 0x10000 + channel_output(id) == id,
{
    assert(id >> 40 < 0x1000000) by (bit_vector);
    assert((id >> 16) & 0xFFFFFF < 0x1000000) by (bit_vector);
    assert(id & 0xFFFF < 0x10000) by (bit_vector);
    assert((id >> 40) * 0x10000000000 + ((id >> 16) & 0xFFFFFF) * 0x10000 + (id & 0xFFFF) == id)
        by (bit_vector);
}

/// Two ids with the same three parts are the same id.
pub proof fn lemma_short_channel_id_injective(a: u64, b: u64)
    requires
        channel_block(a) == channel_block(b),
        channel_tx(a) == channel_tx(b),
        channel_output(a) == channel_output(b),
    ensures
        a == b,
{
    lemma_short_channel_id_parts(a);
    lemma_short_channel_id_parts(b);
}

/// Writes a short channel id as `{block}x{tx}x{output}`: block is bits 63
/// to 40, tx is bits 39 to 16, output is bits 15 to 0.
pub fn format_short_channel_id(id: u64) -> (r: String)
    ensures
        r@ == short_channel_id_text(id),
{
    let block_num = id >> 40;
    let tx_num = (id >> 16) & 0xFFFFFF;
    let tx_out = id & 0xFFFF;
    let mut text = to_decimal(block_num);
    proof {
        reveal_strlit("x");
    }
    text.append("x");
    let tx_text = to_decimal(tx_num);
    text.append(tx_text.as_str());
    text.append("x");
    let out_text = to_decimal(tx_out);
    text.append(out_text.as_str());
    assert(text@ =~= short_channel_id_text(id));
    text
}

/// Whether `input` begins with `lightning:`, in any case.
pub fn has_lightning_prefix(input: &str) -> (r: bool)
    ensures
        r == has_prefix_spec(input@, lightning_prefix()),
{
    proof {
        reveal_strlit("lightning:");
        assert("lightning:"@ =~= lightning_prefix());
    }
    has_prefix(input, "lightning:")
}

/// `input` without a leading `lightning:` of any case.
pub fn without_lightning_prefix(input: &str) -> (r: &str)
    ensures
        r@ == strip_lightning_prefix(input@),
{
    if has_lightning_prefix(input) {
        let len = input.unicode_len();
        input.substring_char(10, len)
    } else {
        input
    }
}

/// A byte vector's deep view is its view.
proof fn lemma_bytes_deep_view(bytes: Vec<u8>)
    ensures
        bytes.deep_view() == bytes@,
{
    assert(bytes.deep_view() =~= bytes@);
}

/// The hops of one route hint, with channel ids written out.
fn convert_route_hint(hops: &Vec<Bolt11Hop>) -> (r: Bolt11RouteHint)
    ensures
        r@ == route_hint_spec(hops.deep_view()),
{
    let mut converted: Vec<Bolt11RouteHintHop> = Vec::new();
    let mut i: usize = 0;
    while i < hops.len()
        invariant
            i <= hops@.len(),
            converted@.len() == i,
            forall|j: int| 0 <= j < i ==> (#[trigger] converted@[j])@ == route_hop_spec(hops@[j]@),
        decreases hops@.len() - i,
    {
        let hop = &hops[i];
        converted.push(
            Bolt11RouteHintHop {
                src_node_id: hop.src_node_id.clone(),
                short_channel_id: format_short_channel_id(hop.short_channel_id),
                fees_base_msat: hop.fees_base_msat,
                fees_proportional_millionths: hop.fees_proportional_millionths,
                cltv_expiry_delta: hop.cltv_expiry_delta,
                htlc_minimum_msat: hop.htlc_minimum_msat,
                htlc_maximum_msat: hop.htlc_maximum_msat,
            },
        );
        i += 1;
    }
    let r = Bolt11RouteHint { hops: converted };
    assert(r@.hops =~= route_hint_spec(hops.deep_view()).hops);
    r
}

/// Every route hint, with channel ids written out.
fn convert_route_hints(routes: &Vec<Vec<Bolt11Hop>>) -> (r: Vec<Bolt11RouteHint>)
    ensures
        r.deep_view() == routes.deep_view().map_values(
            |hops: Seq<Bolt11HopView>| route_hint_spec(hops),
        ),
{
    let mut converted: Vec<Bolt11RouteHint> = Vec::new();
    let mut i: usize = 0;
    while i < routes.len()
        invariant
            i <= routes@.len(),
            converted@.len() == i,
            forall|j: int|
                0 <= j < i ==> (#[trigger] converted@[j])@ == route_hint_spec(
                    routes@[j].deep_view(),
                ),
        decreases routes@.len() - i,
    {
        converted.push(convert_route_hint(&routes[i]));
        i += 1;
    }
    assert(converted.deep_view() =~= routes.deep_view().map_values(
        |hops: Seq<Bolt11HopView>| route_hint_spec(hops),
    ));
    converted
}

/// Decodes a BOLT11 invoice. Returns `None` for any text that is not one.
pub fn parse_bolt11(input: &str, source: &PaymentRequestSource) -> (r: Option<Bolt11Invoice>)
    ensures
        r.deep_view() == bolt11_spec(input@, source@),
{
    let terms = match decode_bolt11_terms(input) {
        Some(terms) => terms,
        None => {
            return None;
        },
    };
    let texts = match decode_bolt11_texts(input) {
        Some(texts) => texts,
        None => {
            return None;
        },
    };
    let routes = match decode_bolt11_routes(input) {
        Some(routes) => routes,
        None => {
            return None;
        },
    };
    proof {
        lemma_bytes_deep_view(texts.payment_secret);
    }
    Some(
        Bolt11Invoice {
            details: RawBolt11Invoice {
                amount_msat: terms.amount_msat,
                description: texts.description,
                description_hash: texts.description_hash,
                expiry: terms.expiry,
                invoice: input.to_owned(),
                min_final_cltv_expiry_delta: terms.min_final_cltv_expiry_delta,
                network: terms.network,
                payee_pubkey: texts.payee_pubkey,
                payment_hash: texts.payment_hash,
                payment_secret: hex_encode(texts.payment_secret.as_slice()),
                routing_hints: convert_route_hints(&routes),
                timestamp: terms.timestamp,
            },
            source: source.clone(),
        },
    )
}

/// The minimum amount of an offer; `None` where the currency code is not
/// UTF-8.
fn convert_offer_amount(amount: OfferAmount) -> (r: Option<Amount>)
    ensures
        r.deep_view() == offer_amount_spec(amount@),
{
    match amount {
        OfferAmount::Bitcoin { amount_msats } => Some(
            Amount::Bitcoin { amount_msat: amount_msats },
        ),
        OfferAmount::Currency { iso4217_code, amount } => match {
            proof {
                lemma_bytes_deep_view(iso4217_code);
            }
            utf8_decode(iso4217_code)
        } {
            Some(code) => Some(Amount::Currency { iso4217_code: code, fractional_amount: amount }),
            None => None,
        },
    }
}

/// Decodes a BOLT12 offer. Returns `None` for any text that is not one, and
/// for an offer whose currency code is not UTF-8.
pub fn parse_bolt12_offer(input: &str, source: &PaymentRequestSource) -> (r: Option<Bolt12Offer>)
    ensures
        r.deep_view() == bolt12_offer_spec(input@, source@),
{
    let terms = match decode_offer_terms(input) {
        Some(terms) => terms,
        None => {
            return None;
        },
    };
    let texts = match decode_offer_texts(input) {
        Some(texts) => texts,
        None => {
            return None;
        },
    };
    let min_amount = match terms.amount {
        Some(amount) => match convert_offer_amount(amount) {
            Some(converted) => Some(converted),
            None => {
                return None;
            },
        },
        None => None,
    };
    Some(
        Bolt12Offer {
            details: RawBolt12Offer {
                absolute_expiry: terms.absolute_expiry,
                chains: terms.chains,
                description: texts.description,
                issuer: texts.issuer,
                min_amount,
                offer: input.to_owned(),
                paths: texts.paths,
                signing_pubkey: terms.signing_pubkey,
            },
            source: source.clone(),
        },
    )
}

/// Decodes a BOLT12 invoice: bech32 without checksum, human-readable part
/// `lni`. Returns `None` for any text that is not one.
pub fn parse_bolt12_invoice(input: &str, source: &PaymentRequestSource) -> (r: Option<
    Bolt12Invoice,
>)
    ensures
        r.deep_view() == bolt12_invoice_spec(input@, source@),
{
    let (hrp, payload) = match bech32_decode_unchecked(input) {
        Some(decoded) => decoded,
        None => {
            return None;
        },
    };
    proof {
        reveal_strlit("lni");
        assert("lni"@ =~= bolt12_invoice_hrp());
    }
    if !text_equal(hrp.as_str(), "lni") {
        return None;
    }
    match decode_bolt12_invoice_amount(payload) {
        Some(amount_msat) => Some(
            Bolt12Invoice {
                details: RawBolt12Invoice { amount_msat, invoice: input.to_owned() },
                source: source.clone(),
            },
        ),
        None => None,
    }
}

/// Decodes a BOLT12 invoice request: bech32 without checksum,
/// human-readable part `lnr`. Returns `None` for any text that is not one.
pub fn parse_bolt12_invoice_request(input: &str, source: &PaymentRequestSource) -> (r: Option<
    Bolt12InvoiceRequest,
>)
    ensures
        r.deep_view() == bolt12_invoice_request_spec(input@, source@),
{
    let (hrp, payload) = match bech32_decode_unchecked(input) {
        Some(decoded) => decoded,
        None => {
            return None;
        },
    };
    proof {
        reveal_strlit("lnr");
        assert("lnr"@ =~= bolt12_invoice_request_hrp());
    }
    if !text_equal(hrp.as_str(), "lnr") {
        return None;
    }
    if check_invoice_request(payload) {
        Some(
            Bolt12InvoiceRequest {
                details: RawBolt12InvoiceRequest { invoice_request: input.to_owned() },
                source: source.clone(),
            },
        )
    } else {
        None
    }
}

/// Decodes a Lightning payment method: a BOLT11 invoice, else a BOLT12
/// offer, else a BOLT12 invoice, after an optional `lightning:` prefix.
pub fn parse_lightning_payment_method(input: &str, source: &PaymentRequestSource) -> (r: Option<
    PaymentMethod,
>)
    ensures
        r.deep_view() == lightning_payment_method_spec(input@, source@),
{
    let text = without_lightning_prefix(input);
    if let Some(bolt11) = parse_bolt11(text, source) {
        return Some(PaymentMethod::Bolt11Invoice(bolt11));
    }
    if let Some(offer) = parse_bolt12_offer(text, source) {
        return Some(PaymentMethod::Bolt12Offer(offer));
    }
    if let Some(invoice) = parse_bolt12_invoice(text, source) {
        return Some(PaymentMethod::Bolt12Invoice(invoice));
    }
    None
}

} // verus!
