use breez_sdk_core::error::{LnurlError, ServiceConnectivityError, ServiceConnectivityErrorKind};
use breez_sdk_core::lnurl::{
    check_auth_action, check_k1, check_scheme, is_onion_domain, normalize_lnurl, parse_json,
    validate_auth, LnurlQuery, LnurlRequestData, LnurlStep,
};
use breez_sdk_core::models::{InputType, LnurlErrorData, PaymentMethod, PaymentRequest, PaymentRequestSource, ReceiveRequest};
use breez_sdk_core::parser::InputParser;

const K1: &str = "1a855505699c3e01be41bddd32007bfcc5ff93505dec0cbca64b4b8ff590b822";

fn lnurl(input: &str) -> Result<Option<LnurlStep>, LnurlError> {
    InputParser::new().parse_lnurl(input, &PaymentRequestSource::default())
}

fn query() -> LnurlQuery {
    LnurlQuery {
        url: "https://domain.com/pay".to_string(),
        domain: "domain.com".to_string(),
        source: PaymentRequestSource::default(),
    }
}

fn respond(body: &str) -> Result<InputType, LnurlError> {
    InputParser::new().resolve_lnurl_response(query(), Ok(body.to_string()))
}

#[test]
fn scheme_enforcement() {
    assert_eq!(lnurl("https://foo.onion/pay"), Err(LnurlError::HttpsSchemeWithOnionDomain));
    assert_eq!(lnurl("http://foo.com/pay"), Err(LnurlError::HttpSchemeWithoutOnionDomain));
    match lnurl("http://foo.onion/pay?x=1") {
        Ok(Some(LnurlStep::Fetch(query))) => {
            assert_eq!(query.url, "http://foo.onion/pay?x=1");
            assert_eq!(query.domain, "foo.onion");
        }
        other => panic!("{other:?}"),
    }
    match lnurl("https://foo.com/pay") {
        Ok(Some(LnurlStep::Fetch(query))) => {
            assert_eq!(query.url, "https://foo.com/pay");
            assert_eq!(query.domain, "foo.com");
        }
        other => panic!("{other:?}"),
    }
    assert_eq!(lnurl("ftp://foo.com/pay"), Err(LnurlError::UnknownScheme));
    assert_eq!(lnurl("lnurlx://foo.com/pay"), Err(LnurlError::UnknownScheme));
}

#[test]
fn scheme_rule() {
    assert_eq!(check_scheme("http", "a.onion"), Ok(None));
    assert_eq!(check_scheme("http", "a.com"), Err(LnurlError::HttpSchemeWithoutOnionDomain));
    assert_eq!(check_scheme("http", "onion"), Err(LnurlError::HttpSchemeWithoutOnionDomain));
    assert_eq!(check_scheme("https", "a.com"), Ok(None));
    assert_eq!(check_scheme("https", "a.onion"), Err(LnurlError::HttpsSchemeWithOnionDomain));
    for scheme in ["lnurlp", "lnurlw", "keyauth"] {
        assert_eq!(check_scheme(scheme, "a.onion"), Ok(Some("http")));
        assert_eq!(check_scheme(scheme, "a.onion.com"), Ok(Some("https")));
    }
    assert_eq!(check_scheme("HTTP", "a.onion"), Err(LnurlError::UnknownScheme));
    assert_eq!(check_scheme("", "a.com"), Err(LnurlError::UnknownScheme));
    assert!(is_onion_domain("x.onion"));
    assert!(is_onion_domain(".onion"));
    assert!(!is_onion_domain("x.onion."));
    assert!(!is_onion_domain("xonion"));
}

#[test]
fn not_an_lnurl() {
    assert_eq!(lnurl("invalid_input"), Ok(None));
    assert_eq!(lnurl("1andreas3batLhQa2FawWjeyjCqyBzypd"), Ok(None));
    // bech32 with another human-readable part
    assert_eq!(lnurl("bc1qxhmdufsvnuaaaer4ynz88fspdsxq2h9e9cetdj"), Ok(None));
    // a URL without a domain
    assert_eq!(lnurl("mailto:someone"), Ok(None));
    assert_eq!(lnurl("https://127.0.0.1/pay"), Ok(None));
}

#[test]
fn normalization() {
    assert_eq!(normalize_lnurl("lnurlp:Domain.com/x?A=B".to_string()), "lnurlp://domain.com/x?a=b");
    assert_eq!(normalize_lnurl("LNURLW:domain.com".to_string()), "lnurlw://domain.com");
    assert_eq!(normalize_lnurl("keyauth:domain.com".to_string()), "keyauth://domain.com");
    assert_eq!(normalize_lnurl("keyauth://Domain.com/X".to_string()), "keyauth://Domain.com/X");
    assert_eq!(normalize_lnurl("https://Domain.com/X".to_string()), "https://Domain.com/X");
    assert_eq!(normalize_lnurl("lnurlp".to_string()), "lnurlp");
    assert_eq!(normalize_lnurl("lnurlp:/x".to_string()), "lnurlp:///x");
}

#[test]
fn k1_must_be_32_bytes_of_hexadecimal() {
    assert!(check_k1(K1));
    assert!(check_k1(&K1.to_uppercase()));
    assert!(!check_k1(""));
    assert!(!check_k1(&K1[2..]));
    assert!(!check_k1(&K1[1..]));
    assert!(!check_k1(&format!("{K1}00")));
    assert!(!check_k1(&format!("{}zz", &K1[2..])));
    for k1 in ["", "test", &K1[2..], &format!("{K1}ab"), &format!("g{}", &K1[1..])] {
        assert_eq!(
            lnurl(&format!("https://domain.com/login?tag=login&k1={k1}&action=login")),
            Err(LnurlError::InvalidK1)
        );
        assert_eq!(
            validate_auth(Some(k1.to_string()), None, Some("domain.com".to_string()), "u".to_string()),
            Err(LnurlError::InvalidK1)
        );
    }
}

#[test]
fn login_challenge() {
    assert_eq!(lnurl("https://domain.com/login?tag=login"), Err(LnurlError::MissingK1));
    assert_eq!(lnurl("https://domain.com/login?tag=login&action=login"), Err(LnurlError::MissingK1));
    assert_eq!(
        lnurl(&format!("https://domain.com/login?tag=login&k1={K1}&action=other")),
        Err(LnurlError::UnsupportedAction)
    );
    for action in ["register", "login", "link", "auth"] {
        assert!(check_auth_action(action));
        match lnurl(&format!("https://domain.com/login?tag=login&k1={K1}&action={action}&k1=second")) {
            Ok(Some(LnurlStep::Auth(data))) => {
                assert_eq!(data.k1, K1);
                assert_eq!(data.action.as_deref(), Some(action));
                assert_eq!(data.domain, "domain.com");
                assert_eq!(
                    data.url,
                    format!("https://domain.com/login?tag=login&k1={K1}&action={action}&k1=second")
                );
            }
            other => panic!("{other:?}"),
        }
    }
    assert!(!check_auth_action("Login"));
    assert!(!check_auth_action(""));
    assert_eq!(
        validate_auth(Some(K1.to_string()), None, None, "u".to_string()),
        Err(LnurlError::MissingDomain)
    );
    assert_eq!(validate_auth(None, None, None, "u".to_string()), Err(LnurlError::MissingK1));
}

#[test]
fn answers_in_order_of_precedence() {
    let pay = r#"{"callback":"c","minSendable":1,"maxSendable":2,"metadata":"m","k1":"k","defaultDescription":"d","minWithdrawable":1,"maxWithdrawable":2,"reason":"r"}"#;
    assert!(matches!(parse_json(pay), Ok(LnurlRequestData::PayRequest { .. })));
    let withdraw = r#"{"callback":"c","k1":"k","defaultDescription":"d","minWithdrawable":1,"maxWithdrawable":2,"reason":"r"}"#;
    assert!(matches!(parse_json(withdraw), Ok(LnurlRequestData::WithdrawRequest { .. })));
    let auth = r#"{"k1":"k","reason":"r","tag":"login"}"#;
    assert!(matches!(parse_json(auth), Ok(LnurlRequestData::AuthRequest { .. })));
    let error = r#"{"status":"ERROR","reason":"r"}"#;
    assert_eq!(
        parse_json(error),
        Ok(LnurlRequestData::Error { data: LnurlErrorData { reason: "r".to_string() } })
    );
    for body in ["{}", "[]", "null", "1", r#"{"reason":1}"#, r#"{"callback":"c"}"#] {
        match parse_json(body) {
            Err(error) => assert_eq!(error.kind, ServiceConnectivityErrorKind::Json),
            other => panic!("{body}: {other:?}"),
        }
    }
}

#[test]
fn pay_request_members() {
    let body = r#"{"callback":"https://c","minSendable":1000,"maxSendable":2000,"metadata":"[]","commentAllowed":144,"allowsNostr":true,"nostrPubkey":"abcd","extra":[1,2]}"#;
    match respond(body) {
        Ok(InputType::PaymentRequest(PaymentRequest::PaymentMethod(PaymentMethod::LnurlPay(pay)))) => {
            assert_eq!(pay.callback, "https://c");
            assert_eq!(pay.min_sendable, 1000);
            assert_eq!(pay.max_sendable, 2000);
            assert_eq!(pay.metadata_str, "[]");
            assert_eq!(pay.comment_allowed, 144);
            assert!(pay.allows_nostr);
            assert_eq!(pay.nostr_pubkey.as_deref(), Some("abcd"));
            assert_eq!(pay.domain, "domain.com");
            assert_eq!(pay.url, "https://domain.com/pay");
        }
        other => panic!("{other:?}"),
    }
    // The least amount may not exceed the greatest.
    let inverted = r#"{"callback":"c","minSendable":3,"maxSendable":2,"metadata":"m"}"#;
    assert!(matches!(respond(inverted), Err(LnurlError::EndpointError(_))));
    let equal = r#"{"callback":"c","minSendable":2,"maxSendable":2,"metadata":"m","nostrPubkey":null}"#;
    assert!(respond(equal).is_ok());
    // Members of the wrong kind.
    for body in [
        r#"{"callback":"c","minSendable":"1","maxSendable":2,"metadata":"m"}"#,
        r#"{"callback":"c","minSendable":-1,"maxSendable":2,"metadata":"m"}"#,
        r#"{"callback":"c","minSendable":1.5,"maxSendable":2,"metadata":"m"}"#,
        r#"{"callback":"c","minSendable":1,"maxSendable":2,"metadata":"m","commentAllowed":65536}"#,
        r#"{"callback":"c","minSendable":1,"maxSendable":2,"metadata":"m","allowsNostr":"yes"}"#,
        r#"{"callback":"c","minSendable":1,"maxSendable":2,"metadata":"m","nostrPubkey":5}"#,
        r#"{"callback":null,"minSendable":1,"maxSendable":2,"metadata":"m"}"#,
    ] {
        assert!(matches!(respond(body), Err(LnurlError::EndpointError(_))), "{body}");
    }
}

#[test]
fn other_answers() {
    let withdraw = r#"{"callback":"c","k1":"k","defaultDescription":"d","minWithdrawable":1,"maxWithdrawable":2}"#;
    match respond(withdraw) {
        Ok(InputType::ReceiveRequest(ReceiveRequest::LnurlWithdraw(data))) => {
            assert_eq!(data.callback, "c");
            assert_eq!(data.k1, "k");
            assert_eq!(data.default_description, "d");
            assert_eq!(data.min_withdrawable, 1);
            assert_eq!(data.max_withdrawable, 2);
        }
        other => panic!("{other:?}"),
    }
    match respond(&format!(r#"{{"tag":"login","k1":"{K1}","action":"auth"}}"#)) {
        Ok(InputType::LnurlAuth(data)) => {
            assert_eq!(data.k1, K1);
            assert_eq!(data.action.as_deref(), Some("auth"));
            assert_eq!(data.domain, "domain.com");
            assert_eq!(data.url, "https://domain.com/pay");
        }
        other => panic!("{other:?}"),
    }
    assert_eq!(respond(r#"{"tag":"login","k1":"abcd"}"#), Err(LnurlError::InvalidK1));
    assert_eq!(
        respond(&format!(r#"{{"k1":"{K1}","action":"pay"}}"#)),
        Err(LnurlError::UnsupportedAction)
    );
    assert_eq!(
        respond(r#"{"reason":"closed"}"#),
        Err(LnurlError::EndpointError(ServiceConnectivityError::new(
            ServiceConnectivityErrorKind::Other,
            "closed".to_string()
        )))
    );
    let failed = ServiceConnectivityError::new(ServiceConnectivityErrorKind::Status, "500".to_string());
    assert_eq!(
        InputParser::new().resolve_lnurl_response(query(), Err(failed.clone())),
        Err(LnurlError::EndpointError(failed))
    );
}
