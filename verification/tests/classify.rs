use breez_sdk_core::error::{ParseError, ParseResult, ServiceConnectivityError, ServiceConnectivityErrorKind};
use breez_sdk_core::models::{InputType, LnurlErrorData, PaymentMethod, PaymentRequest, ReceiveRequest};
use breez_sdk_core::network::Network;
use breez_sdk_core::parser::{InputParser, ParseStep};

const BOLT11: &str = "lnbc110n1p38q3gtpp5ypz09jrd8p993snjwnm68cph4ftwp22le34xd4r8ftspwshxhmnsdqqxqyjw5qcqpxsp5htlg8ydpywvsa7h3u4hdn77ehs4z4e844em0apjyvmqfkzqhhd2q9qgsqqqyssqszpxzxt9uuqzymr7zxcdccj5g69s8q7zzjs7sgxn9ejhnvdh6gqjcy22mss2yexunagm5r2gqczh8k24cwrqml3njskm548aruhpwssq9nvrvz";
const LNURL_PAY: &str = "lnurl1dp68gurn8ghj7mr0vdskc6r0wd6z7mrww4excttsv9un7um9wdekjmmw84jxywf5x43rvv35xgmr2enrxanr2cfcvsmnwe3jxcukvde48qukgdec89snwde3vfjxvepjxpjnjvtpxd3kvdnxx5crxwpjvyunsephsz36jf";
const LNURL_AUTH: &str = "lnurl1dp68gurn8ghj7mr0vdskc6r0wd6z7mrww4excttvdankjm3lw3skw0tvdankjm3xdvcn6vtp8q6n2dfsx5mrjwtrxdjnqvtzv56rzcnyv3jrxv3sxqmkyenrvv6kve3exv6nqdtyv43nqcmzvdsnvdrzx33rsenxx5unqc3cxgeqgntfgu";
const LNURL_WITHDRAW: &str = "lnurl1dp68gurn8ghj7mr0vdskc6r0wd6z7mrww4exctthd96xserjv9mn7um9wdekjmmw843xxwpexdnxzen9vgunsvfexq6rvdecx93rgdmyxcuxverrvcursenpxvukzv3c8qunsdecx33nzwpnvg6ryc3hv93nzvecxgcxgwp3h33lxk";
const PAY_BODY: &str = r#"{"callback":"https://localhost/lnurl-pay/callback/db945b624265fc7f5a8d77f269f7589d789a771bdfd20e91a3cf6f50382a98d7","tag":"payRequest","maxSendable":16000,"minSendable":4000,"metadata":"[[\"text/plain\",\"WRhtV\"]]","commentAllowed":0}"#;
const WITHDRAW_BODY: &str = r#"{"tag":"withdrawRequest","callback":"https://localhost/lnurl-withdraw/callback/e464f841c44dbdd86cee4f09f4ccd3ced58d2e24f148730ec192748317b74538","k1":"37b4c919f871c090830cc47b92a544a30097f03430bc39670b8ec0da89f01a81","minWithdrawable":3000,"maxWithdrawable":12000,"defaultDescription":"sample withdraw"}"#;

/// Runs a classification to its end. A DNS lookup finds `records`; every
/// request is answered with `response`.
fn classify(
    input: &str,
    records: Option<Vec<String>>,
    response: Result<String, ServiceConnectivityError>,
) -> ParseResult<InputType> {
    let parser = InputParser::new();
    let mut step = parser.parse(input);
    loop {
        step = match step {
            ParseStep::Done(result) => return result,
            ParseStep::LookupTxt(query) => parser.on_txt_records(query, records.clone()),
            ParseStep::FetchLightningAddress(query) => {
                parser.on_lightning_address_response(query, response.clone())
            }
            ParseStep::FetchLnurl(query) => parser.on_lnurl_response(query, response.clone()),
        };
    }
}

fn offline(input: &str) -> ParseResult<InputType> {
    classify(
        input,
        None,
        Err(ServiceConnectivityError::new(ServiceConnectivityErrorKind::Connect, "offline".to_string())),
    )
}

#[test]
fn test_generic_invalid_input() {
    assert_eq!(offline("invalid_input"), Err(ParseError::InvalidInput));
}

#[test]
fn test_empty_input() {
    assert_eq!(offline(""), Err(ParseError::EmptyInput));
    assert_eq!(offline("  \n\t "), Err(ParseError::EmptyInput));
}

#[test]
fn test_trim_input() {
    let expected = offline("1andreas3batLhQa2FawWjeyjCqyBzypd");
    assert!(expected.is_ok());
    for address in [
        "1andreas3batLhQa2FawWjeyjCqyBzypd",
        "1andreas3batLhQa2FawWjeyjCqyBzypd ",
        "1andreas3batLhQa2FawWjeyjCqyBzypd\n            ",
        "\n            1andreas3batLhQa2FawWjeyjCqyBzypd\n            ",
        " 1andreas3batLhQa2FawWjeyjCqyBzypd\n            ",
    ] {
        let result = offline(address);
        assert!(matches!(
            result,
            Ok(InputType::PaymentRequest(PaymentRequest::PaymentMethod(PaymentMethod::BitcoinAddress(_))))
        ));
        assert_eq!(result, expected);
    }
}

#[test]
fn test_bitcoin_address() {
    for address in [
        "1andreas3batLhQa2FawWjeyjCqyBzypd",
        "12c6DSiU4Rq3P4ZxziKxzrL5LmMBrzjrJX",
        "bc1qxhmdufsvnuaaaer4ynz88fspdsxq2h9e9cetdj",
        "3CJ7cNxChpcUykQztFSqKFrMVQDN4zTTsp",
    ] {
        match offline(address) {
            Ok(InputType::PaymentRequest(PaymentRequest::PaymentMethod(PaymentMethod::BitcoinAddress(found)))) => {
                assert_eq!(found.details.address, address);
                assert_eq!(found.details.network, Network::Bitcoin);
                assert_eq!(found.source.bip_21_uri, None);
                assert_eq!(found.source.bip_353_address, None);
            }
            other => panic!("{address}: {other:?}"),
        }
    }
}

#[test]
fn test_bitcoin_address_networks() {
    // A testnet address is valid on regtest, signet and both testnets; regtest comes first.
    match offline("2N83imGV3gPwBzKJQvWJ7cRUY2SpUyU6A5e") {
        Ok(InputType::PaymentRequest(PaymentRequest::PaymentMethod(PaymentMethod::BitcoinAddress(found)))) => {
            assert_eq!(found.details.network, Network::Regtest);
        }
        other => panic!("{other:?}"),
    }
    match offline("bcrt1qs758ursh4q9z627kt3pp5yysm78ddny6txaqgw") {
        Ok(InputType::PaymentRequest(PaymentRequest::PaymentMethod(PaymentMethod::BitcoinAddress(found)))) => {
            assert_eq!(found.details.network, Network::Regtest);
        }
        other => panic!("{other:?}"),
    }
    match offline("tb1qw508d6qejxtdg4y5r3zarvary0c5xw7kxpjzsx") {
        Ok(InputType::PaymentRequest(PaymentRequest::PaymentMethod(PaymentMethod::BitcoinAddress(found)))) => {
            assert_eq!(found.details.network, Network::Signet);
        }
        other => panic!("{other:?}"),
    }
}

#[test]
fn test_bitcoin_address_bip21() {
    assert_eq!(offline("bitcoin:testinvalidaddress"), Err(ParseError::InvalidInput));
    let addr = "1andreas3batLhQa2FawWjeyjCqyBzypd";
    let check = |uri: String, amount: Option<u64>, label: Option<&str>, message: Option<&str>| {
        match offline(&uri) {
            Ok(InputType::PaymentRequest(PaymentRequest::Bip21(bundle))) => {
                assert_eq!(bundle.uri, uri);
                assert_eq!(bundle.amount_sat, amount);
                assert_eq!(bundle.label.as_deref(), label);
                assert_eq!(bundle.message.as_deref(), message);
                assert_eq!(bundle.payment_methods.len(), 1);
                match &bundle.payment_methods[0] {
                    PaymentMethod::BitcoinAddress(found) => {
                        assert_eq!(found.details.address, addr);
                        assert_eq!(found.source.bip_21_uri.as_deref(), Some(uri.as_str()));
                        assert_eq!(found.source.bip_353_address, None);
                    }
                    other => panic!("{other:?}"),
                }
            }
            other => panic!("{uri}: {other:?}"),
        }
    };
    check(format!("bitcoin:{addr}"), None, None, None);
    check(format!("BITCOIN:{addr}"), None, None, None);
    check(format!("bitcoin:{addr}?amount=0.00002000"), Some(2000), None, None);
    check(format!("bitcoin:{addr}?amount=0.00002000&label=test-label"), Some(2000), Some("test-label"), None);
    check(
        format!("bitcoin:{addr}?amount=0.00002000&label=test-label&message=test-message"),
        Some(2000),
        Some("test-label"),
        Some("test-message"),
    );
}

#[test]
fn test_bitcoin_address_bip21_rounding() {
    for (amt, amount_btc) in [(999u64, "0.00000999"), (1_000, "0.00001000"), (59_810, "0.00059810")] {
        let uri = format!("bitcoin:1andreas3batLhQa2FawWjeyjCqyBzypd?amount={amount_btc}");
        match offline(&uri) {
            Ok(InputType::PaymentRequest(PaymentRequest::Bip21(bundle))) => {
                assert_eq!(bundle.amount_sat, Some(amt));
                assert_eq!(bundle.payment_methods.len(), 1);
            }
            other => panic!("{uri}: {other:?}"),
        }
    }
}

#[test]
fn test_bolt11() {
    let bare = offline(BOLT11);
    match &bare {
        Ok(InputType::PaymentRequest(PaymentRequest::PaymentMethod(PaymentMethod::Bolt11Invoice(invoice)))) => {
            assert_eq!(invoice.details.invoice, BOLT11);
            assert_eq!(invoice.details.amount_msat, Some(11_000));
            assert_eq!(invoice.details.network, Network::Bitcoin);
            assert_eq!(invoice.details.payment_secret.len(), 64);
        }
        other => panic!("{other:?}"),
    }
    assert_eq!(offline(&format!("lightning:{BOLT11}")), bare);
    assert_eq!(offline(&format!("LIGHTNING:{BOLT11}")), bare);
    assert_eq!(offline(&format!("LightNing:{BOLT11}")), bare);
}

#[test]
fn test_capitalized_bolt11() {
    let upper = BOLT11.to_uppercase();
    for input in [upper.clone(), format!("LIGHTNING:{upper}"), format!("lightning:{upper}")] {
        match offline(&input) {
            Ok(InputType::PaymentRequest(PaymentRequest::PaymentMethod(PaymentMethod::Bolt11Invoice(invoice)))) => {
                assert_eq!(invoice.details.invoice, upper);
                assert_eq!(invoice.details.amount_msat, Some(11_000));
            }
            other => panic!("{input}: {other:?}"),
        }
    }
}

#[test]
fn test_bolt11_with_fallback_bitcoin_address() {
    let addr = "1andreas3batLhQa2FawWjeyjCqyBzypd";
    for uri in [
        format!("bitcoin:{addr}?lightning={BOLT11}"),
        format!("bitcoin:{addr}?amount=0.00002000&lightning={BOLT11}"),
    ] {
        match offline(&uri) {
            Ok(InputType::PaymentRequest(PaymentRequest::Bip21(bundle))) => {
                assert_eq!(bundle.payment_methods.len(), 2);
                assert!(matches!(bundle.payment_methods[0], PaymentMethod::BitcoinAddress(_)));
                match &bundle.payment_methods[1] {
                    PaymentMethod::Bolt11Invoice(invoice) => {
                        assert_eq!(invoice.details.invoice, BOLT11);
                        assert_eq!(invoice.source.bip_21_uri.as_deref(), Some(uri.as_str()));
                    }
                    other => panic!("{other:?}"),
                }
            }
            other => panic!("{uri}: {other:?}"),
        }
    }
}

#[test]
fn test_lightning_address() {
    let parser = InputParser::new();
    let query = match parser.parse("User@Domain.net") {
        ParseStep::LookupTxt(query) => query,
        other => panic!("{other:?}"),
    };
    assert_eq!(query.dns_name, "User.user._bitcoin-payment.Domain.net");
    let query = match parser.on_txt_records(query, None) {
        ParseStep::FetchLightningAddress(query) => query,
        other => panic!("{other:?}"),
    };
    assert_eq!(query.address, "user@domain.net");
    assert_eq!(query.request.url, "https://domain.net/.well-known/lnurlp/user");
    assert_eq!(query.request.domain, "domain.net");
    match parser.on_lightning_address_response(query, Ok(PAY_BODY.to_string())) {
        ParseStep::Done(Ok(InputType::PaymentRequest(PaymentRequest::PaymentMethod(
            PaymentMethod::LightningAddress(address),
        )))) => {
            assert_eq!(address.address, "user@domain.net");
            assert_eq!(address.pay_request.min_sendable, 4000);
            assert_eq!(address.pay_request.max_sendable, 16000);
            assert_eq!(address.pay_request.domain, "domain.net");
            assert_eq!(address.pay_request.url, "https://domain.net/.well-known/lnurlp/user");
        }
        other => panic!("{other:?}"),
    }
}

#[test]
fn test_lightning_address_with_prefix() {
    let result = classify("\u{20BF}user@domain.net", None, Ok(PAY_BODY.to_string()));
    match result {
        Ok(InputType::PaymentRequest(PaymentRequest::PaymentMethod(PaymentMethod::LightningAddress(address)))) => {
            assert_eq!(address.address, "user@domain.net");
        }
        other => panic!("{other:?}"),
    }
}

#[test]
fn test_lightning_address_onion() {
    let parser = InputParser::new();
    let query = match parser.parse("user@abcdefghijklmnop.onion") {
        ParseStep::LookupTxt(query) => query,
        other => panic!("{other:?}"),
    };
    match parser.on_txt_records(query, None) {
        ParseStep::FetchLightningAddress(query) => {
            assert_eq!(query.request.url, "http://abcdefghijklmnop.onion/.well-known/lnurlp/user");
        }
        other => panic!("{other:?}"),
    }
}

#[test]
fn test_lightning_address_unresolved() {
    // No records, and the endpoint cannot be reached: the text is nothing.
    assert_eq!(offline("user@domain.net"), Err(ParseError::InvalidInput));
    // A user part with other characters is no lightning address.
    assert_eq!(classify("us er@domain.net", None, Ok(PAY_BODY.to_string())), Err(ParseError::InvalidInput));
    assert_eq!(classify("@domain.net", None, Ok(PAY_BODY.to_string())), Err(ParseError::InvalidInput));
}

#[test]
fn test_bip353_address() {
    let addr = "1andreas3batLhQa2FawWjeyjCqyBzypd";
    let record = format!("bitcoin:{addr}?amount=0.00002000");
    let records = vec!["v=spf1 -all".to_string(), record.clone()];
    match classify("\u{20BF}user@bitcoin-domain.com", Some(records), Ok(PAY_BODY.to_string())) {
        Ok(InputType::PaymentRequest(PaymentRequest::Bip21(bundle))) => {
            assert_eq!(bundle.uri, record);
            assert_eq!(bundle.amount_sat, Some(2000));
            match &bundle.payment_methods[0] {
                PaymentMethod::BitcoinAddress(found) => {
                    assert_eq!(found.source.bip_21_uri.as_deref(), Some(record.as_str()));
                    assert_eq!(found.source.bip_353_address.as_deref(), Some("\u{20BF}user@bitcoin-domain.com"));
                }
                other => panic!("{other:?}"),
            }
        }
        other => panic!("{other:?}"),
    }
}

#[test]
fn test_bip353_two_records_fall_through() {
    let records = vec![
        "bitcoin:1andreas3batLhQa2FawWjeyjCqyBzypd".to_string(),
        "BITCOIN:12c6DSiU4Rq3P4ZxziKxzrL5LmMBrzjrJX".to_string(),
    ];
    let result = classify("user@domain.net", Some(records), Ok(PAY_BODY.to_string()));
    assert!(matches!(
        result,
        Ok(InputType::PaymentRequest(PaymentRequest::PaymentMethod(PaymentMethod::LightningAddress(_))))
    ));
}

#[test]
fn test_bip353_broken_record_is_invalid() {
    let records = vec!["bitcoin:testinvalidaddress".to_string()];
    let result = classify("user@domain.net", Some(records), Ok(PAY_BODY.to_string()));
    assert_eq!(result, Err(ParseError::InvalidInput));
}

#[test]
fn test_bip353_long_label_is_skipped() {
    let parser = InputParser::new();
    let local = "a".repeat(64);
    assert!(matches!(parser.parse(&format!("{local}@domain.net")), ParseStep::FetchLightningAddress(_)));
    let local = "a".repeat(63);
    assert!(matches!(parser.parse(&format!("{local}@domain.net")), ParseStep::LookupTxt(_)));
}

#[test]
fn test_lnurl() {
    let parser = InputParser::new();
    for input in [LNURL_PAY.to_string(), format!("lightning:{LNURL_PAY}"), LNURL_PAY.to_uppercase()] {
        let query = match parser.parse(&input) {
            ParseStep::FetchLnurl(query) => query,
            other => panic!("{other:?}"),
        };
        assert_eq!(query.url, "https://localhost/lnurl-pay?session=db945b624265fc7f5a8d77f269f7589d789a771bdfd20e91a3cf6f50382a98d7");
        assert_eq!(query.domain, "localhost");
        match parser.on_lnurl_response(query, Ok(PAY_BODY.to_string())) {
            ParseStep::Done(Ok(InputType::PaymentRequest(PaymentRequest::PaymentMethod(PaymentMethod::LnurlPay(pay))))) => {
                assert_eq!(pay.min_sendable, 4000);
                assert_eq!(pay.max_sendable, 16000);
                assert_eq!(pay.comment_allowed, 0);
                assert_eq!(pay.metadata_str, "[[\"text/plain\",\"WRhtV\"]]");
                assert_eq!(pay.domain, "localhost");
                assert!(!pay.allows_nostr);
                assert_eq!(pay.nostr_pubkey, None);
            }
            other => panic!("{other:?}"),
        }
    }
}

#[test]
fn test_lnurl_auth() {
    match offline(LNURL_AUTH) {
        Ok(InputType::LnurlAuth(data)) => {
            assert_eq!(data.k1, "1a855505699c3e01be41bddd32007bfcc5ff93505dec0cbca64b4b8ff590b822");
            assert_eq!(data.action, None);
            assert_eq!(data.domain, "localhost");
            assert_eq!(
                data.url,
                "https://localhost/lnurl-login?tag=login&k1=1a855505699c3e01be41bddd32007bfcc5ff93505dec0cbca64b4b8ff590b822"
            );
        }
        other => panic!("{other:?}"),
    }
}

#[test]
fn test_lnurl_withdraw() {
    match classify(LNURL_WITHDRAW, None, Ok(WITHDRAW_BODY.to_string())) {
        Ok(InputType::ReceiveRequest(ReceiveRequest::LnurlWithdraw(data))) => {
            assert_eq!(data.k1, "37b4c919f871c090830cc47b92a544a30097f03430bc39670b8ec0da89f01a81");
            assert_eq!(data.min_withdrawable, 3000);
            assert_eq!(data.max_withdrawable, 12000);
            assert_eq!(data.default_description, "sample withdraw");
        }
        other => panic!("{other:?}"),
    }
}

#[test]
fn test_lnurl_prefixed_schemes() {
    let parser = InputParser::new();
    for (input, url) in [
        ("lnurlp://domain.com/lnurl-pay?session=test", "https://domain.com/lnurl-pay?session=test"),
        ("lnurlw://domain.com/lnurl-withdraw?session=test", "https://domain.com/lnurl-withdraw?session=test"),
        ("lnurlp:domain.com/lnurl-pay?session=test", "https://domain.com/lnurl-pay?session=test"),
        ("LNURLW:Domain.com/lnurl-withdraw?session=test", "https://domain.com/lnurl-withdraw?session=test"),
        ("lnurlp://abcdefghijklmnop.onion/pay", "http://abcdefghijklmnop.onion/pay"),
    ] {
        match parser.parse(input) {
            ParseStep::FetchLnurl(query) => assert_eq!(query.url, url),
            other => panic!("{input}: {other:?}"),
        }
    }
    // A challenge that is no 32 bytes in hexadecimal.
    assert_eq!(offline("keyauth://domain.com/lnurl-login?tag=login&k1=test"), Err(ParseError::InvalidInput));
    let k1 = "1a855505699c3e01be41bddd32007bfcc5ff93505dec0cbca64b4b8ff590b822";
    match offline(&format!("keyauth://domain.com/lnurl-login?tag=login&k1={k1}&action=link")) {
        Ok(InputType::LnurlAuth(data)) => {
            assert_eq!(data.k1, k1);
            assert_eq!(data.action.as_deref(), Some("link"));
            assert_eq!(data.domain, "domain.com");
        }
        other => panic!("{other:?}"),
    }
}

#[test]
fn test_lnurl_endpoint_errors() {
    let refused = classify(LNURL_PAY, None, Ok(r#"{"status":"ERROR","reason":"no such session"}"#.to_string()));
    assert_eq!(refused, Err(ParseError::LnurlError(LnurlErrorData { reason: "no such session".to_string() })));
    assert_eq!(
        classify(LNURL_PAY, None, Err(ServiceConnectivityError::new(ServiceConnectivityErrorKind::Timeout, "timed out".to_string()))),
        Err(ParseError::LnurlError(LnurlErrorData { reason: "timed out".to_string() }))
    );
    assert!(matches!(classify(LNURL_PAY, None, Ok("not json".to_string())), Err(ParseError::LnurlError(_))));
}

#[test]
fn test_node_id() {
    // A node id is none of the formats.
    let node_id = "02eec7245d6b7d2ccb30380bfbe2a3648cd7a942653f5aa340edcea1f283686619";
    assert_eq!(offline(node_id), Err(ParseError::InvalidInput));
}

#[test]
fn test_bolt12() {
    let offer = "lno1pgx9getnwss8vetrw3hhyuckyypwa3eyt44h6txtxquqh7lz5djge4afgfjn7k4rgrkuag0jsd5xvxg";
    for input in [offer.to_string(), format!("lightning:{offer}"), format!("  {offer}\n")] {
        match offline(&input) {
            Ok(InputType::PaymentRequest(PaymentRequest::PaymentMethod(PaymentMethod::Bolt12Offer(found)))) => {
                assert_eq!(found.details.offer, offer);
            }
            other => panic!("{input}: {other:?}"),
        }
    }
}

#[test]
fn test_silent_payment_address() {
    let text = "sp1qqgste7k9hx0qftg6qmwlkqtwuy6cycyavzmzj85c6qdfhjdpdjtdgqjuexzk6murw56suy3e0rd2cgqvycxttddwsvgxe2usfpxumr70xc9pkqwv";
    match offline(text) {
        Ok(InputType::PaymentRequest(PaymentRequest::PaymentMethod(PaymentMethod::SilentPaymentAddress(found)))) => {
            assert_eq!(found.details.address, text);
            assert_eq!(found.details.network, Network::Bitcoin);
        }
        other => panic!("{other:?}"),
    }
}

#[test]
fn test_precedence() {
    // A text with `@` is a human-readable address before it is anything else.
    let parser = InputParser::new();
    assert!(matches!(parser.parse("bitcoin:1andreas3batLhQa2FawWjeyjCqyBzypd?label=a@b"), ParseStep::LookupTxt(_)));
    // Once both resolutions have come to nothing, the prefix decides.
    let result = offline("bitcoin:1andreas3batLhQa2FawWjeyjCqyBzypd?label=a@b");
    match result {
        Ok(InputType::PaymentRequest(PaymentRequest::Bip21(bundle))) => {
            assert_eq!(bundle.label.as_deref(), Some("a@b"));
        }
        other => panic!("{other:?}"),
    }
    // An address behind a `lightning:` prefix is no address.
    assert_eq!(offline("lightning:1andreas3batLhQa2FawWjeyjCqyBzypd"), Err(ParseError::InvalidInput));
}

#[test]
fn test_error_messages() {
    assert_eq!(ParseError::EmptyInput.message(), "empty input");
    assert_eq!(ParseError::InvalidInput.message(), "invalid input");
    assert_eq!(
        ParseError::LnurlError(LnurlErrorData { reason: "closed".to_string() }).message(),
        "Lnurl error: closed"
    );
}
