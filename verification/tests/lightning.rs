use breez_sdk_core::lightning::{
    format_short_channel_id, has_lightning_prefix, parse_bolt11, parse_bolt12_invoice,
    parse_bolt12_invoice_request, parse_bolt12_offer, parse_lightning_payment_method,
    without_lightning_prefix,
};
use breez_sdk_core::models::{Amount, PaymentMethod, PaymentRequestSource};
use breez_sdk_core::network::Network;

const BOLT11: &str = "lnbc110n1p38q3gtpp5ypz09jrd8p993snjwnm68cph4ftwp22le34xd4r8ftspwshxhmnsdqqxqyjw5qcqpxsp5htlg8ydpywvsa7h3u4hdn77ehs4z4e844em0apjyvmqfkzqhhd2q9qgsqqqyssqszpxzxt9uuqzymr7zxcdccj5g69s8q7zzjs7sgxn9ejhnvdh6gqjcy22mss2yexunagm5r2gqczh8k24cwrqml3njskm548aruhpwssq9nvrvz";
// From BOLT11: a description and two route hints hops.
const BOLT11_HINTED: &str = "lnbc20m1pvjluezsp5zyg3zyg3zyg3zyg3zyg3zyg3zyg3zyg3zyg3zyg3zyg3zyg3zygspp5qqqsyqcyq5rqwzqfqqqsyqcyq5rqwzqfqqqsyqcyq5rqwzqfqypqhp58yjmdan79s6qqdhdzgynm4zwqd5d7xmw5fk98klysy043l2ahrqsfpp3qjmp7lwpagxun9pygexvgpjdc4jdj85fr9yq20q82gphp2nflc7jtzrcazrra7wwgzxqc8u7754cdlpfrmccae92qgzqvzq2ps8pqqqqqqpqqqqq9qqqvpeuqafqxu92d8lr6fvg0r5gv0heeeqgcrqlnm6jhphu9y00rrhy4grqszsvpcgpy9qqqqqqgqqqqq7qqzq9qrsgqdfjcdk6w3ak5pca9hwfwfh63zrrz06wwfya0ydlzpgzxkn5xagsqz7x9j4jwe7yj7vaf2k9lqsdk45kts2fd0fkr28am0u4w95tt2nsq76cqw0";
const OFFER: &str = "lno1pgx9getnwss8vetrw3hhyuckyypwa3eyt44h6txtxquqh7lz5djge4afgfjn7k4rgrkuag0jsd5xvxg";
const OFFER_USD: &str = "lno1qcp4256ypqpzwyq2p32x2um5ypmx2cm5dae8x93pqthvwfzadd7jejes8q9lhc4rvjxd022zv5l44g6qah82ru5rdpnpj";
const OFFER_MSAT: &str = "lno1pqpzwyq2p32x2um5ypmx2cm5dae8x93pqthvwfzadd7jejes8q9lhc4rvjxd022zv5l44g6qah82ru5rdpnpj";

fn source() -> PaymentRequestSource {
    PaymentRequestSource { bip_21_uri: Some("bitcoin:x".to_string()), bip_353_address: Some("a@b".to_string()) }
}

#[test]
fn short_channel_id() {
    assert_eq!(format_short_channel_id(0x0102030405060708), "66051x263430x1800");
    assert_eq!(format_short_channel_id(0), "0x0x0");
    assert_eq!(format_short_channel_id(u64::MAX), "16777215x16777215x65535");
    assert_eq!(format_short_channel_id(1 << 40), "1x0x0");
    assert_eq!(format_short_channel_id(1 << 16), "0x1x0");
    assert_eq!(format_short_channel_id(0xFFFF), "0x0x65535");
    assert_eq!(format_short_channel_id((700_000 << 40) | (1234 << 16) | 5), "700000x1234x5");
}

#[test]
fn lightning_prefix() {
    assert!(has_lightning_prefix("lightning:x"));
    assert!(has_lightning_prefix("LIGHTNING:"));
    assert!(has_lightning_prefix("LiGhTnInG:abc"));
    assert!(!has_lightning_prefix("lightning"));
    assert!(!has_lightning_prefix("lightnin:g"));
    assert!(!has_lightning_prefix(""));
    assert_eq!(without_lightning_prefix("LightNING:abc"), "abc");
    assert_eq!(without_lightning_prefix("abc"), "abc");
    assert_eq!(without_lightning_prefix("lightning:"), "");
}

#[test]
fn bolt11_fields() {
    let invoice = parse_bolt11(BOLT11, &source()).unwrap();
    assert_eq!(invoice.source, source());
    let details = invoice.details;
    assert_eq!(details.invoice, BOLT11);
    assert_eq!(details.amount_msat, Some(11_000));
    assert_eq!(details.description.as_deref(), Some(""));
    assert_eq!(details.description_hash, None);
    assert_eq!(details.expiry, 604_800);
    assert_eq!(details.min_final_cltv_expiry_delta, 6);
    assert_eq!(details.network, Network::Bitcoin);
    assert_eq!(details.payee_pubkey, "03e06bf1443655b9649999ea913402ea5998034055a717c7a41eb2c1cd16475f9e");
    assert_eq!(details.payment_hash, "2044f2c86d384a58c27274f7a3e037aa56e0a95fcc6a66d4674ae01742e6bee7");
    assert_eq!(details.payment_secret, "bafe8391a123990efaf1e56ed9fbd9bc2a2ae4f5ae76fe864466c09b0817bb54");
    assert!(details.routing_hints.is_empty());
    assert_eq!(details.timestamp, 1_651_524_875);
}

#[test]
fn bolt11_route_hints() {
    let invoice = parse_bolt11(BOLT11_HINTED, &PaymentRequestSource::default()).unwrap();
    let details = invoice.details;
    assert_eq!(details.amount_msat, Some(2_000_000_000));
    assert_eq!(details.description, None);
    assert_eq!(
        details.description_hash.as_deref(),
        Some("3925b6f67e2c340036ed12093dd44e0368df1b6ea26c53dbe4811f58fd5db8c1")
    );
    assert_eq!(details.routing_hints.len(), 1);
    let hops = &details.routing_hints[0].hops;
    assert_eq!(hops.len(), 2);
    assert_eq!(hops[0].src_node_id, "029e03a901b85534ff1e92c43c74431f7ce72046060fcf7a95c37e148f78c77255");
    assert_eq!(hops[0].short_channel_id, "66051x263430x1800");
    assert_eq!(hops[0].fees_base_msat, 1);
    assert_eq!(hops[0].fees_proportional_millionths, 20);
    assert_eq!(hops[0].cltv_expiry_delta, 3);
    assert_eq!(hops[1].src_node_id, "039e03a901b85534ff1e92c43c74431f7ce72046060fcf7a95c37e148f78c77255");
    assert_eq!(hops[1].short_channel_id, "197637x395016x2314");
    assert_eq!(hops[1].fees_base_msat, 2);
    assert_eq!(hops[1].fees_proportional_millionths, 30);
    assert_eq!(hops[1].cltv_expiry_delta, 4);
}

#[test]
fn not_bolt11() {
    assert_eq!(parse_bolt11("", &source()), None);
    assert_eq!(parse_bolt11("lnbc1", &source()), None);
    assert_eq!(parse_bolt11(&format!("lightning:{BOLT11}"), &source()), None);
    assert_eq!(parse_bolt11(&BOLT11[..BOLT11.len() - 1], &source()), None);
    assert_eq!(parse_bolt11(OFFER, &source()), None);
}

#[test]
fn bolt12_offer_fields() {
    let offer = parse_bolt12_offer(OFFER, &source()).unwrap();
    assert_eq!(offer.source, source());
    let details = offer.details;
    assert_eq!(details.offer, OFFER);
    assert_eq!(details.description.as_deref(), Some("Test vectors"));
    assert_eq!(details.issuer, None);
    assert_eq!(details.absolute_expiry, None);
    assert_eq!(details.min_amount, None);
    assert_eq!(details.chains.len(), 1);
    assert!(details.paths.is_empty());
    assert_eq!(
        details.signing_pubkey.as_deref(),
        Some("02eec7245d6b7d2ccb30380bfbe2a3648cd7a942653f5aa340edcea1f283686619")
    );
}

#[test]
fn bolt12_offer_amounts() {
    let offer = parse_bolt12_offer(OFFER_MSAT, &source()).unwrap();
    assert_eq!(offer.details.min_amount, Some(Amount::Bitcoin { amount_msat: 10_000 }));
    let offer = parse_bolt12_offer(OFFER_USD, &source()).unwrap();
    assert_eq!(
        offer.details.min_amount,
        Some(Amount::Currency { iso4217_code: "USD".to_string(), fractional_amount: 10_000 })
    );
}

#[test]
fn not_bolt12() {
    assert_eq!(parse_bolt12_offer(BOLT11, &source()), None);
    assert_eq!(parse_bolt12_offer("lno1", &source()), None);
    assert_eq!(parse_bolt12_invoice(OFFER, &source()), None);
    assert_eq!(parse_bolt12_invoice("lni1qqqq", &source()), None);
    assert_eq!(parse_bolt12_invoice("", &source()), None);
    assert_eq!(parse_bolt12_invoice_request(OFFER, &source()), None);
    assert_eq!(parse_bolt12_invoice_request("lnr1qqqq", &source()), None);
}

#[test]
fn payment_method_order() {
    match parse_lightning_payment_method(&format!("LIGHTNING:{BOLT11}"), &source()) {
        Some(PaymentMethod::Bolt11Invoice(invoice)) => assert_eq!(invoice.details.invoice, BOLT11),
        other => panic!("{other:?}"),
    }
    match parse_lightning_payment_method(OFFER, &source()) {
        Some(PaymentMethod::Bolt12Offer(offer)) => assert_eq!(offer.details.offer, OFFER),
        other => panic!("{other:?}"),
    }
    assert_eq!(parse_lightning_payment_method("1andreas3batLhQa2FawWjeyjCqyBzypd", &source()), None);
}

struct FixedEntropy;

impl lightning::sign::EntropySource for FixedEntropy {
    fn get_secure_random_bytes(&self) -> [u8; 32] {
        [7; 32]
    }
}

fn encode(hrp: &str, message: &impl lightning::util::ser::Writeable) -> String {
    bech32::encode::<bech32::NoChecksum>(bech32::Hrp::parse(hrp).unwrap(), &message.encode()).unwrap()
}

/// An invoice request for 1000 msat and the invoice that answers it, in bech32.
fn request_and_invoice() -> (String, String) {
    let secp = bitcoin::secp256k1::Secp256k1::new();
    let keys = bitcoin::secp256k1::Keypair::from_secret_key(
        &secp,
        &bitcoin::secp256k1::SecretKey::from_slice(&[0x41; 32]).unwrap(),
    );
    let expanded_key = lightning::ln::inbound_payment::ExpandedKey::new([42; 32]);
    let nonce = lightning::offers::nonce::Nonce::from_entropy_source(&FixedEntropy);
    let offer = lightning::offers::offer::OfferBuilder::new(keys.public_key())
        .amount_msats(1000)
        .build()
        .unwrap();
    let request = offer
        .request_invoice(&expanded_key, nonce, &secp, lightning::ln::channelmanager::PaymentId([1; 32]))
        .unwrap()
        .build_and_sign()
        .unwrap();
    let tlvs = lightning::blinded_path::payment::UnauthenticatedReceiveTlvs {
        payment_secret: lightning::types::payment::PaymentSecret([2; 32]),
        payment_constraints: lightning::blinded_path::payment::PaymentConstraints {
            max_cltv_expiry: 1_000_000,
            htlc_minimum_msat: 1,
        },
        payment_context: lightning::blinded_path::payment::PaymentContext::Bolt12Refund(
            lightning::blinded_path::payment::Bolt12RefundContext {},
        ),
    }
    .authenticate(nonce, &expanded_key);
    let path = lightning::blinded_path::payment::BlindedPaymentPath::one_hop(
        keys.public_key(),
        tlvs,
        18,
        &FixedEntropy,
        &secp,
    )
    .unwrap();
    let invoice = request
        .respond_with_no_std(
            vec![path],
            lightning::types::payment::PaymentHash([3; 32]),
            std::time::Duration::from_secs(1_700_000_000),
        )
        .unwrap()
        .build()
        .unwrap()
        .sign(|message: &lightning::offers::invoice::UnsignedBolt12Invoice| {
            Ok(secp.sign_schnorr_no_aux_rand(message.as_ref().as_digest(), &keys))
        })
        .unwrap();
    (encode("lnr", &request), encode("lni", &invoice))
}

#[test]
fn bolt12_invoice_request() {
    let (text, _) = request_and_invoice();
    assert!(text.starts_with("lnr1"));
    let request = parse_bolt12_invoice_request(&text, &source()).unwrap();
    assert_eq!(request.details.invoice_request, text);
    assert_eq!(request.source, source());
    let upper = text.to_uppercase();
    assert_eq!(parse_bolt12_invoice_request(&upper, &source()).unwrap().details.invoice_request, upper);
    // A request is neither an offer nor an invoice nor a payment method.
    assert_eq!(parse_bolt12_offer(&text, &source()), None);
    assert_eq!(parse_bolt12_invoice(&text, &source()), None);
    assert_eq!(parse_lightning_payment_method(&text, &source()), None);
    // The payload of an offer under the human-readable part of a request is none.
    let renamed = format!("lnr{}", &OFFER[3..]);
    assert_eq!(parse_bolt12_invoice_request(&renamed, &source()), None);
}

#[test]
fn bolt12_invoice() {
    let (request, text) = request_and_invoice();
    assert!(text.starts_with("lni1"));
    let invoice = parse_bolt12_invoice(&text, &source()).unwrap();
    assert_eq!(invoice.details.invoice, text);
    assert_eq!(invoice.details.amount_msat, 1000);
    assert_eq!(invoice.source, source());
    match parse_lightning_payment_method(&format!("lightning:{text}"), &source()) {
        Some(PaymentMethod::Bolt12Invoice(found)) => assert_eq!(found, invoice),
        other => panic!("{other:?}"),
    }
    assert_eq!(parse_bolt12_invoice_request(&text, &source()), None);
    let renamed = format!("lni{}", &request[3..]);
    assert_eq!(parse_bolt12_invoice(&renamed, &source()), None);
}
