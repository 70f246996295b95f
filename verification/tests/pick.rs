use breez_sdk_core::error::PickPaymentMethodError;
use breez_sdk_core::models::{
    Bip21, BitcoinAddress, Bolt11Invoice, Bolt12Invoice, Bolt12Offer, InputType, LightningAddress,
    LiquidAddress, LnurlAuthRequestData, LnurlPayRequest, PaymentMethod, PaymentMethodType,
    PaymentRequest, PaymentRequestSource, RawBitcoinAddress, RawBolt11Invoice, RawBolt12Invoice,
    RawBolt12Offer, RawLiquidAddress, RawSilentPaymentAddress, SilentPaymentAddress,
};
use breez_sdk_core::network::Network;
use breez_sdk_core::sdk::{validate_buy_bitcoin, PrepareBuyBitcoinError};
use breez_sdk_core::services::{
    expand_bip_21, expand_payment_method, BitcoinPaymentMethod, BreezServices,
    LightningPaymentMethod, LightningPaymentRequest, LnurlPaymentMethod, ParseAndPickError,
    PaymentMethodSource, SourcedPaymentMethod,
    PickedInputType, PickedPaymentMethod,
};

fn address(text: &str) -> BitcoinAddress {
    BitcoinAddress {
        details: RawBitcoinAddress { address: text.to_string(), network: Network::Bitcoin },
        source: PaymentRequestSource::default(),
    }
}

fn bolt11(text: &str, amount_msat: Option<u64>) -> Bolt11Invoice {
    Bolt11Invoice {
        details: RawBolt11Invoice {
            amount_msat,
            description: None,
            description_hash: None,
            expiry: 3600,
            invoice: text.to_string(),
            min_final_cltv_expiry_delta: 18,
            network: Network::Bitcoin,
            payee_pubkey: String::new(),
            payment_hash: String::new(),
            payment_secret: String::new(),
            routing_hints: Vec::new(),
            timestamp: 0,
        },
        source: PaymentRequestSource::default(),
    }
}

fn offer(text: &str) -> Bolt12Offer {
    Bolt12Offer {
        details: RawBolt12Offer {
            absolute_expiry: None,
            chains: Vec::new(),
            description: None,
            issuer: None,
            min_amount: None,
            offer: text.to_string(),
            paths: Vec::new(),
            signing_pubkey: None,
        },
        source: PaymentRequestSource::default(),
    }
}

fn pay_request() -> LnurlPayRequest {
    LnurlPayRequest {
        callback: "c".to_string(),
        min_sendable: 1,
        max_sendable: 2,
        metadata_str: "m".to_string(),
        comment_allowed: 0,
        domain: "d".to_string(),
        url: "u".to_string(),
        allows_nostr: false,
        nostr_pubkey: None,
    }
}

fn bundle(payment_methods: Vec<PaymentMethod>) -> Bip21 {
    Bip21 {
        amount_sat: None,
        asset_id: None,
        uri: "bitcoin:".to_string(),
        extras: Vec::new(),
        label: None,
        message: None,
        payment_methods,
    }
}

fn three() -> Bip21 {
    bundle(vec![
        PaymentMethod::BitcoinAddress(address("a")),
        PaymentMethod::Bolt11Invoice(bolt11("i", Some(5))),
        PaymentMethod::Bolt12Offer(offer("o")),
    ])
}

#[test]
fn picks_by_the_wallets_preference() {
    let picked = expand_bip_21(three(), &[PaymentMethodType::Bolt12Offer, PaymentMethodType::Bolt11Invoice]);
    assert_eq!(
        picked,
        Ok(PickedPaymentMethod::Lightning(LightningPaymentRequest {
            min_amount_msat: 0,
            max_amount_msat: u64::MAX,
            method: LightningPaymentMethod::Bolt12Offer(offer("o")),
        }))
    );
    let picked = expand_bip_21(three(), &[PaymentMethodType::Bolt11Invoice, PaymentMethodType::Bolt12Offer]);
    assert_eq!(
        picked,
        Ok(PickedPaymentMethod::Lightning(LightningPaymentRequest {
            min_amount_msat: 5,
            max_amount_msat: 5,
            method: LightningPaymentMethod::Bolt11Invoice(bolt11("i", Some(5))),
        }))
    );
    let picked = expand_bip_21(
        three(),
        &[PaymentMethodType::LiquidAddress, PaymentMethodType::BitcoinAddress, PaymentMethodType::Bolt11Invoice],
    );
    assert_eq!(picked, Ok(PickedPaymentMethod::Bitcoin(BitcoinPaymentMethod::BitcoinAddress(address("a")))));
}

#[test]
fn unsupported() {
    assert_eq!(expand_bip_21(three(), &[PaymentMethodType::LnurlPay]), Err(PickPaymentMethodError::Unsupported));
    assert_eq!(expand_bip_21(three(), &[]), Err(PickPaymentMethodError::Unsupported));
    assert_eq!(
        expand_bip_21(bundle(Vec::new()), &[PaymentMethodType::BitcoinAddress]),
        Err(PickPaymentMethodError::Unsupported)
    );
}

#[test]
fn first_of_a_kind_counts() {
    let methods = vec![
        PaymentMethod::Bolt11Invoice(bolt11("first", None)),
        PaymentMethod::BitcoinAddress(address("a")),
        PaymentMethod::Bolt11Invoice(bolt11("second", Some(1))),
        PaymentMethod::BitcoinAddress(address("b")),
    ];
    assert_eq!(
        expand_bip_21(bundle(methods.clone()), &[PaymentMethodType::Bolt11Invoice]),
        Ok(PickedPaymentMethod::Lightning(LightningPaymentRequest {
            min_amount_msat: 0,
            max_amount_msat: u64::MAX,
            method: LightningPaymentMethod::Bolt11Invoice(bolt11("first", None)),
        }))
    );
    assert_eq!(
        expand_bip_21(
            bundle(methods),
            &[PaymentMethodType::SilentPaymentAddress, PaymentMethodType::BitcoinAddress, PaymentMethodType::BitcoinAddress]
        ),
        Ok(PickedPaymentMethod::Bitcoin(BitcoinPaymentMethod::BitcoinAddress(address("a"))))
    );
}

#[test]
fn every_kind_expands() {
    let silent = SilentPaymentAddress {
        details: RawSilentPaymentAddress { address: "sp1".to_string(), network: Network::Bitcoin },
        source: PaymentRequestSource::default(),
    };
    let liquid = LiquidAddress {
        details: RawLiquidAddress { address: "l".to_string(), network: Network::Bitcoin },
        source: PaymentRequestSource::default(),
    };
    let invoice = Bolt12Invoice {
        details: RawBolt12Invoice { amount_msat: 7, invoice: "lni1".to_string() },
        source: PaymentRequestSource::default(),
    };
    let lightning_address = LightningAddress { address: "a@b".to_string(), pay_request: pay_request() };
    assert_eq!(
        expand_payment_method(PaymentMethod::SilentPaymentAddress(silent.clone())),
        PickedPaymentMethod::Bitcoin(BitcoinPaymentMethod::SilentPaymentAddress(silent))
    );
    assert_eq!(
        expand_payment_method(PaymentMethod::LiquidAddress(liquid.clone())),
        PickedPaymentMethod::LiquidAddress(liquid)
    );
    assert_eq!(
        expand_payment_method(PaymentMethod::Bolt12Invoice(invoice.clone())),
        PickedPaymentMethod::Lightning(LightningPaymentRequest {
            min_amount_msat: 7,
            max_amount_msat: 7,
            method: LightningPaymentMethod::Bolt12Invoice(invoice),
        })
    );
    assert_eq!(
        expand_payment_method(PaymentMethod::LnurlPay(pay_request())),
        PickedPaymentMethod::LnurlPay(LnurlPaymentMethod::LnurlPay(pay_request()))
    );
    assert_eq!(
        expand_payment_method(PaymentMethod::LightningAddress(lightning_address.clone())),
        PickedPaymentMethod::LnurlPay(LnurlPaymentMethod::LightningAddress(lightning_address))
    );
    assert_eq!(PaymentMethod::LnurlPay(pay_request()).get_type(), PaymentMethodType::LnurlPay);
    assert_eq!(PaymentMethod::BitcoinAddress(address("a")).get_type(), PaymentMethodType::BitcoinAddress);
}

#[test]
fn a_single_method_is_picked_whatever_is_supported() {
    let services = BreezServices::new(vec![PaymentMethodType::LnurlPay]);
    assert_eq!(
        services.pick_payment_method(PaymentRequest::PaymentMethod(PaymentMethod::BitcoinAddress(address("a")))),
        Ok(PickedPaymentMethod::Bitcoin(BitcoinPaymentMethod::BitcoinAddress(address("a"))))
    );
    assert_eq!(
        services.pick_payment_method(PaymentRequest::Bip21(three())),
        Err(PickPaymentMethodError::Unsupported)
    );
}

#[test]
fn picking_from_a_classified_input() {
    let services = BreezServices::new(vec![PaymentMethodType::BitcoinAddress]);
    assert_eq!(
        services.pick(InputType::PaymentRequest(PaymentRequest::Bip21(three()))),
        Ok(PickedInputType::PaymentMethod(PickedPaymentMethod::Bitcoin(BitcoinPaymentMethod::BitcoinAddress(
            address("a")
        ))))
    );
    assert_eq!(services.pick(InputType::Url("u".to_string())), Ok(PickedInputType::Url("u".to_string())));
    let auth = LnurlAuthRequestData { k1: "k".to_string(), action: None, domain: "d".to_string(), url: "u".to_string() };
    assert_eq!(services.pick(InputType::LnurlAuth(auth.clone())), Ok(PickedInputType::LnurlAuth(auth)));
    let nothing = BreezServices::new(Vec::new());
    assert_eq!(
        nothing.pick(InputType::PaymentRequest(PaymentRequest::Bip21(three()))),
        Err(ParseAndPickError::Pick(PickPaymentMethodError::Unsupported))
    );
}

#[test]
fn buying_bitcoin() {
    assert_eq!(validate_buy_bitcoin(breez_sdk_core::sdk::Network::Mainnet, 0), Ok(()));
    assert_eq!(validate_buy_bitcoin(breez_sdk_core::sdk::Network::Mainnet, 25_000), Ok(()));
    assert_eq!(
        validate_buy_bitcoin(breez_sdk_core::sdk::Network::Mainnet, 25_001),
        Err(PrepareBuyBitcoinError::InvalidAmount(
            "Can only buy sat amounts that are multiples of 1000".to_string()
        ))
    );
    assert_eq!(validate_buy_bitcoin(breez_sdk_core::sdk::Network::Regtest, 25_000), Err(PrepareBuyBitcoinError::InvalidNetwork));
    assert_eq!(validate_buy_bitcoin(breez_sdk_core::sdk::Network::Regtest, 1), Err(PrepareBuyBitcoinError::InvalidNetwork));
}

#[test]
fn a_method_given_directly_is_plain() {
    assert_eq!(
        SourcedPaymentMethod::from(PaymentMethod::Bolt11Invoice(bolt11("i", None))),
        SourcedPaymentMethod::Lightning(PaymentMethodSource::Plain(LightningPaymentRequest {
            min_amount_msat: 0,
            max_amount_msat: u64::MAX,
            method: LightningPaymentMethod::Bolt11Invoice(bolt11("i", None)),
        }))
    );
    assert_eq!(
        SourcedPaymentMethod::from(PaymentMethod::BitcoinAddress(address("a"))),
        SourcedPaymentMethod::Bitcoin(PaymentMethodSource::Plain(BitcoinPaymentMethod::BitcoinAddress(address("a"))))
    );
    assert_eq!(
        SourcedPaymentMethod::from(PaymentMethod::LnurlPay(pay_request())),
        SourcedPaymentMethod::LnurlPay(PaymentMethodSource::Plain(LnurlPaymentMethod::LnurlPay(pay_request())))
    );
}
