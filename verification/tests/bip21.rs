use breez_sdk_core::error::Bip21Error;
use breez_sdk_core::models::{Bip21, Bip21Extra, PaymentMethod, PaymentRequestSource};
use breez_sdk_core::network::Network;
use breez_sdk_core::parser::InputParser;

const ADDR: &str = "1andreas3batLhQa2FawWjeyjCqyBzypd";
const BOLT11: &str = "lnbc110n1p38q3gtpp5ypz09jrd8p993snjwnm68cph4ftwp22le34xd4r8ftspwshxhmnsdqqxqyjw5qcqpxsp5htlg8ydpywvsa7h3u4hdn77ehs4z4e844em0apjyvmqfkzqhhd2q9qgsqqqyssqszpxzxt9uuqzymr7zxcdccj5g69s8q7zzjs7sgxn9ejhnvdh6gqjcy22mss2yexunagm5r2gqczh8k24cwrqml3njskm548aruhpwssq9nvrvz";
const OFFER: &str = "lno1pgx9getnwss8vetrw3hhyuckyypwa3eyt44h6txtxquqh7lz5djge4afgfjn7k4rgrkuag0jsd5xvxg";
const SILENT: &str = "sp1qqgste7k9hx0qftg6qmwlkqtwuy6cycyavzmzj85c6qdfhjdpdjtdgqjuexzk6murw56suy3e0rd2cgqvycxttddwsvgxe2usfpxumr70xc9pkqwv";

fn decode(uri: &str) -> Result<Option<Bip21>, Bip21Error> {
    let source = PaymentRequestSource { bip_21_uri: Some(uri.to_string()), bip_353_address: None };
    InputParser::new().parse_bip_21(uri, source)
}

fn bundle(uri: &str) -> Bip21 {
    match decode(uri) {
        Ok(Some(bundle)) => bundle,
        other => panic!("{uri}: {other:?}"),
    }
}

#[test]
fn no_prefix_is_no_uri() {
    assert_eq!(decode(ADDR), Ok(None));
    assert_eq!(decode("bitcoin"), Ok(None));
    assert_eq!(decode(""), Ok(None));
    assert_eq!(decode("lightning:bitcoin:x"), Ok(None));
    // A prefix that is cut inside a character is none.
    assert_eq!(decode("bitcoi\u{20BF}x"), Ok(None));
}

#[test]
fn address_only() {
    let found = bundle(&format!("bitcoin:{ADDR}"));
    assert_eq!(found.uri, format!("bitcoin:{ADDR}"));
    assert_eq!(found.amount_sat, None);
    assert_eq!(found.asset_id, None);
    assert_eq!(found.label, None);
    assert_eq!(found.message, None);
    assert!(found.extras.is_empty());
    assert_eq!(found.payment_methods.len(), 1);
    match &found.payment_methods[0] {
        PaymentMethod::BitcoinAddress(address) => {
            assert_eq!(address.details.address, ADDR);
            assert_eq!(address.details.network, Network::Bitcoin);
        }
        other => panic!("{other:?}"),
    }
}

#[test]
fn invalid_address() {
    assert_eq!(decode("bitcoin:testinvalidaddress"), Err(Bip21Error::InvalidAddress));
    assert_eq!(decode(&format!("bitcoin:{ADDR}x?amount=1")), Err(Bip21Error::InvalidAddress));
}

#[test]
fn no_payment_methods() {
    assert_eq!(decode("bitcoin:"), Err(Bip21Error::NoPaymentMethods));
    assert_eq!(decode("bitcoin:?amount=1"), Err(Bip21Error::NoPaymentMethods));
    assert_eq!(decode("bitcoin:?label=x&bc=y"), Err(Bip21Error::NoPaymentMethods));
}

#[test]
fn missing_equals() {
    assert_eq!(decode(&format!("bitcoin:{ADDR}?amount")), Err(Bip21Error::MissingEquals));
    assert_eq!(decode(&format!("bitcoin:{ADDR}?")), Err(Bip21Error::MissingEquals));
    assert_eq!(decode(&format!("bitcoin:{ADDR}?amount=1&")), Err(Bip21Error::MissingEquals));
    assert_eq!(decode(&format!("bitcoin:{ADDR}?amount=1&&label=x")), Err(Bip21Error::MissingEquals));
}

#[test]
fn amounts() {
    assert_eq!(bundle(&format!("bitcoin:{ADDR}?amount=1")).amount_sat, Some(100_000_000));
    assert_eq!(bundle(&format!("bitcoin:{ADDR}?amount=0.00000001")).amount_sat, Some(1));
    assert_eq!(bundle(&format!("bitcoin:{ADDR}?amount=20.3")).amount_sat, Some(2_030_000_000));
    assert_eq!(bundle(&format!("bitcoin:{ADDR}?AMOUNT=0.5")).amount_sat, Some(50_000_000));
    assert_eq!(bundle(&format!("bitcoin:{ADDR}?req-amount=0.5")).amount_sat, Some(50_000_000));
    for (sat, btc) in [(999u64, "0.00000999"), (1_000, "0.00001000"), (59_810, "0.00059810")] {
        assert_eq!(bundle(&format!("bitcoin:{ADDR}?amount={btc}")).amount_sat, Some(sat));
    }
    assert_eq!(decode(&format!("bitcoin:{ADDR}?amount=abc")), Err(Bip21Error::InvalidAmount));
    assert_eq!(decode(&format!("bitcoin:{ADDR}?amount=")), Err(Bip21Error::InvalidAmount));
    assert_eq!(decode(&format!("bitcoin:{ADDR}?amount=-1")), Err(Bip21Error::InvalidAmount));
    assert_eq!(decode(&format!("bitcoin:{ADDR}?amount=0.000000001")), Err(Bip21Error::InvalidAmount));
}

#[test]
fn duplicate_parameters_are_rejected() {
    assert_eq!(
        decode(&format!("bitcoin:{ADDR}?amount=1&amount=2")),
        Err(Bip21Error::MultipleParams("amount".to_string()))
    );
    assert_eq!(
        decode(&format!("bitcoin:{ADDR}?amount=1&label=a&Amount=1")),
        Err(Bip21Error::MultipleParams("amount".to_string()))
    );
    assert_eq!(
        decode(&format!("bitcoin:{ADDR}?assetid=a&assetid=a")),
        Err(Bip21Error::MultipleParams("assetid".to_string()))
    );
    assert_eq!(
        decode(&format!("bitcoin:{ADDR}?label=a&req-label=b")),
        Err(Bip21Error::MultipleParams("label".to_string()))
    );
    assert_eq!(
        decode(&format!("bitcoin:{ADDR}?message=a&message=b")),
        Err(Bip21Error::MultipleParams("message".to_string()))
    );
}

#[test]
fn unknown_parameters() {
    assert_eq!(
        decode(&format!("bitcoin:{ADDR}?req-unknownkey=x")),
        Err(Bip21Error::UnknownRequiredParameter("unknownkey".to_string()))
    );
    assert_eq!(
        decode(&format!("bitcoin:{ADDR}?REQ-Other=x")),
        Err(Bip21Error::UnknownRequiredParameter("other".to_string()))
    );
    let found = bundle(&format!("bitcoin:{ADDR}?unknownkey=x&Second=Y%20z&unknownkey=again"));
    assert_eq!(
        found.extras,
        vec![
            Bip21Extra { key: "unknownkey".to_string(), value: "x".to_string() },
            Bip21Extra { key: "second".to_string(), value: "Y%20z".to_string() },
            Bip21Extra { key: "unknownkey".to_string(), value: "again".to_string() },
        ]
    );
    assert_eq!(found.payment_methods.len(), 1);
}

#[test]
fn ignored_and_scalar_parameters() {
    let found = bundle(&format!("bitcoin:{ADDR}?bc=anything&assetid=6f0279e9&label=Luke%20Jr&message=caf%C3%A9%3F"));
    assert!(found.extras.is_empty());
    assert_eq!(found.asset_id.as_deref(), Some("6f0279e9"));
    assert_eq!(found.label.as_deref(), Some("Luke Jr"));
    assert_eq!(found.message.as_deref(), Some("caf\u{e9}?"));
}

#[test]
fn broken_percent_encoding() {
    for value in ["%", "%2", "a%zz", "%FF", "%C3"] {
        assert_eq!(
            decode(&format!("bitcoin:{ADDR}?label={value}")),
            Err(Bip21Error::InvalidParameter("label".to_string(), "not percent-encoded UTF-8".to_string()))
        );
        assert_eq!(
            decode(&format!("bitcoin:{ADDR}?message={value}")),
            Err(Bip21Error::InvalidParameter("message".to_string(), "not percent-encoded UTF-8".to_string()))
        );
    }
}

#[test]
fn alternatives_follow_the_address() {
    let uri = format!("bitcoin:{ADDR}?lightning={BOLT11}&lightning=LIGHTNING:{OFFER}&sp={SILENT}");
    let found = bundle(&uri);
    assert_eq!(found.payment_methods.len(), 4);
    assert!(matches!(found.payment_methods[0], PaymentMethod::BitcoinAddress(_)));
    match &found.payment_methods[1] {
        PaymentMethod::Bolt11Invoice(invoice) => {
            assert_eq!(invoice.details.invoice, BOLT11);
            assert_eq!(invoice.source.bip_21_uri.as_deref(), Some(uri.as_str()));
        }
        other => panic!("{other:?}"),
    }
    match &found.payment_methods[2] {
        PaymentMethod::Bolt12Offer(offer) => {
            assert_eq!(offer.details.offer, OFFER);
            assert_eq!(offer.source.bip_21_uri.as_deref(), Some(uri.as_str()));
        }
        other => panic!("{other:?}"),
    }
    match &found.payment_methods[3] {
        PaymentMethod::SilentPaymentAddress(address) => {
            assert_eq!(address.details.address, SILENT);
            assert_eq!(address.details.network, Network::Bitcoin);
        }
        other => panic!("{other:?}"),
    }
}

#[test]
fn alternatives_without_address() {
    let found = bundle(&format!("bitcoin:?lightning={BOLT11}"));
    assert_eq!(found.payment_methods.len(), 1);
    assert!(matches!(found.payment_methods[0], PaymentMethod::Bolt11Invoice(_)));
}

#[test]
fn broken_alternatives() {
    assert_eq!(
        decode(&format!("bitcoin:{ADDR}?lightning=nothing")),
        Err(Bip21Error::InvalidParameter("lightning".to_string(), "not a Lightning payment method".to_string()))
    );
    assert_eq!(
        decode(&format!("bitcoin:{ADDR}?b12=nothing")),
        Err(Bip21Error::InvalidParameter("b12".to_string(), "not a BOLT12 invoice".to_string()))
    );
    assert_eq!(
        decode(&format!("bitcoin:{ADDR}?sp={ADDR}")),
        Err(Bip21Error::InvalidParameter("sp".to_string(), "not a silent payment address".to_string()))
    );
}

#[test]
fn first_error_wins() {
    assert_eq!(decode(&format!("bitcoin:{ADDR}?amount=x&amount=1")), Err(Bip21Error::InvalidAmount));
    assert_eq!(decode("bitcoin:bad?amount=1&amount=1"), Err(Bip21Error::InvalidAddress));
}

#[test]
fn decoding_the_recorded_uri_gives_the_bundle_again() {
    let uri = format!("bitcoin:{ADDR}?amount=0.00002000&label=x&lightning={BOLT11}&other=1");
    let first = bundle(&uri);
    let again = bundle(&first.uri);
    assert_eq!(first, again);
    match &first.payment_methods[1] {
        PaymentMethod::Bolt11Invoice(invoice) => {
            assert_eq!(bundle(invoice.source.bip_21_uri.as_deref().unwrap()), first);
        }
        other => panic!("{other:?}"),
    }
}
