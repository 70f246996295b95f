//! Decoders for the Bitcoin family: on-chain addresses and silent payment
//! addresses.

use crate::chain::{
    DecodedAddress, DecodedAddressView, SilentPaymentPayload, SilentPaymentPayloadView,
    address_decoded, check_public_key, decode_address, decode_silent_payment, is_secp256k1_key,
    silent_payment_decoded,
};
use crate::encoding::{bech32_decode, bech32_decoded};
use crate::models::{
    BitcoinAddress, BitcoinAddressView, InputType, InputTypeView, PaymentMethod,
    PaymentMethodView, PaymentRequest, PaymentRequestSource, PaymentRequestSourceView,
    PaymentRequestView, RawBitcoinAddress, RawBitcoinAddressView, RawSilentPaymentAddress,
    RawSilentPaymentAddressView, SilentPaymentAddress, SilentPaymentAddressView,
};
use crate::network::Network;
use crate::parser::InputParser;
use crate::text::text_equal;
use vstd::prelude::*;
use vstd::slice::slice_subrange;

verus! {

/// `sp`, the human-readable part of a mainnet silent payment address.
pub open spec fn silent_payment_hrp() -> Seq<char> {
    seq!['s', 'p']
}

/// The network of an address: the first it is valid for among mainnet,
/// regtest, signet, testnet3 and testnet4.
pub open spec fn address_network(decoded: DecodedAddressView) -> Option<Network> {
    if decoded.bitcoin {
        Some(Network::Bitcoin)
    } else if decoded.regtest {
        Some(Network::Regtest)
    } else if decoded.signet {
        Some(Network::Signet)
    } else if decoded.testnet3 {
        Some(Network::Testnet3)
    } else if decoded.testnet4 {
        Some(Network::Testnet4)
    } else {
        None
    }
}

/// The address that `input` decodes to, with its network and source.
pub open spec fn bitcoin_address_spec(input: Seq<char>, source: PaymentRequestSourceView) -> Option<
    BitcoinAddressView,
> {
    if input.len() == 0 {
        None
    } else {
        match address_decoded(input) {
            Some(decoded) => match address_network(decoded) {
                Some(network) => Some(
                    BitcoinAddressView {
                        details: RawBitcoinAddressView { address: decoded.address, network },
                        source,
                    },
                ),
                None => None,
            },
            None => None,
        }
    }
}

/// A silent payment payload is well formed: it is for mainnet, its version
/// is below 31, it holds two keys of 33 bytes each (and, at version 0,
/// nothing more), and both are points of the curve.
pub open spec fn silent_payment_valid(payload: SilentPaymentPayloadView) -> bool {
    &&& payload.hrp == silent_payment_hrp()
    &&& payload.version < 31
    &&& payload.data.len() >= 66
    &&& (payload.version == 0 ==> payload.data.len() == 66)
    &&& is_secp256k1_key(payload.data.subrange(0, 33))
    &&& is_secp256k1_key(payload.data.subrange(33, 66))
}

/// The silent payment address that `input` decodes to.
pub open spec fn silent_payment_spec(input: Seq<char>, source: PaymentRequestSourceView) -> Option<
    SilentPaymentAddressView,
> {
    match silent_payment_decoded(input) {
        Some(payload) => if silent_payment_valid(payload) {
            Some(
                SilentPaymentAddressView {
                    details: RawSilentPaymentAddressView {
                        address: input,
                        network: Network::Bitcoin,
                    },
                    source,
                },
            )
        } else {
            None
        },
        None => None,
    }
}

/// Whether `input` is bech32 with the human-readable part `sp`.
pub open spec fn is_silent_payment_text(input: Seq<char>) -> bool {
    match bech32_decoded(input) {
        Some((hrp, _)) => hrp == silent_payment_hrp(),
        None => false,
    }
}

/// What `input` decodes to in the Bitcoin family. A bech32 text with the
/// human-readable part `sp` is a silent payment address or nothing; any
/// other text is an on-chain address or nothing.
pub open spec fn bitcoin_spec(input: Seq<char>, source: PaymentRequestSourceView) -> Option<
    InputTypeView,
> {
    if is_silent_payment_text(input) {
        match silent_payment_spec(input, source) {
            Some(address) => Some(
                InputTypeView::PaymentRequest(
                    PaymentRequestView::PaymentMethod(
                        PaymentMethodView::SilentPaymentAddress(address),
                    ),
                ),
            ),
            None => None,
        }
    } else {
        match bitcoin_address_spec(input, source) {
            Some(address) => Some(
                InputTypeView::PaymentRequest(
                    PaymentRequestView::PaymentMethod(PaymentMethodView::BitcoinAddress(address)),
                ),
            ),
            None => None,
        }
    }
}

/// The first network, in the order mainnet, regtest, signet, testnet3,
/// testnet4, that the address is valid for.
pub fn pick_network(decoded: &DecodedAddress) -> (r: Option<Network>)
    ensures
        r == address_network(decoded@),
{
    if decoded.bitcoin {
        Some(Network::Bitcoin)
    } else if decoded.regtest {
        Some(Network::Regtest)
    } else if decoded.signet {
        Some(Network::Signet)
    } else if decoded.testnet3 {
        Some(Network::Testnet3)
    } else if decoded.testnet4 {
        Some(Network::Testnet4)
    } else {
        None
    }
}

/// Whether a decoded payload is a well-formed silent payment address.
pub fn check_silent_payment(payload: &SilentPaymentPayload) -> (r: bool)
    ensures
        r == silent_payment_valid(payload@),
{
    proof {
        reveal_strlit("sp");
        assert("sp"@ =~= silent_payment_hrp());
        assert(payload.data.deep_view() =~= payload.data@);
    }
    if !text_equal(payload.hrp.as_str(), "sp") {
        return false;
    }
    if payload.version >= 31 || payload.data.len() < 66 {
        return false;
    }
    if payload.version == 0 && payload.data.len() != 66 {
        return false;
    }
    let data = payload.data.as_slice();
    check_public_key(slice_subrange(data, 0, 33)) && check_public_key(slice_subrange(data, 33, 66))
}

impl InputParser {
    /// Decodes an on-chain address of any of the five networks. The network
    /// reported is the first that the address is valid for, in the order
    /// mainnet, regtest, signet, testnet3, testnet4.
    pub fn parse_bitcoin_address(&self, input: &str, source: &PaymentRequestSource) -> (r: Option<
        BitcoinAddress,
    >)
        ensures
            r.deep_view() == bitcoin_address_spec(input@, source@),
    {
        if input.is_empty() {
            return None;
        }
        let decoded = match decode_address(input) {
            Some(decoded) => decoded,
            None => {
                return None;
            },
        };
        let network = match pick_network(&decoded) {
            Some(network) => network,
            None => {
                return None;
            },
        };
        Some(
            BitcoinAddress {
                details: RawBitcoinAddress { address: decoded.address, network },
                source: source.clone(),
            },
        )
    }

    /// Decodes a mainnet silent payment address.
    pub fn parse_silent_payment_address(
        &self,
        input: &str,
        source: &PaymentRequestSource,
    ) -> (r: Option<SilentPaymentAddress>)
        ensures
            r.deep_view() == silent_payment_spec(input@, source@),
    {
        let payload = match decode_silent_payment(input) {
            Some(payload) => payload,
            None => {
                return None;
            },
        };
        if !check_silent_payment(&payload) {
            return None;
        }
        Some(
            SilentPaymentAddress {
                details: RawSilentPaymentAddress {
                    address: input.to_owned(),
                    network: Network::Bitcoin,
                },
                source: source.clone(),
            },
        )
    }

    /// Decodes a text of the Bitcoin family: a silent payment address where
    /// the text is bech32 with the human-readable part `sp`, else an
    /// on-chain address.
    pub fn parse_bitcoin(&self, input: &str, source: &PaymentRequestSource) -> (r: Option<
        InputType,
    >)
        ensures
            r.deep_view() == bitcoin_spec(input@, source@),
    {
        proof {
            reveal_strlit("sp");
            assert("sp"@ =~= silent_payment_hrp());
        }
        if let Some((hrp, _)) = bech32_decode(input) {
            if text_equal(hrp.as_str(), "sp") {
                return match self.parse_silent_payment_address(input, source) {
                    Some(address) => Some(
                        InputType::PaymentRequest(
                            PaymentRequest::PaymentMethod(
                                PaymentMethod::SilentPaymentAddress(address),
                            ),
                        ),
                    ),
                    None => None,
                };
            }
        }
        match self.parse_bitcoin_address(input, source) {
            Some(address) => Some(
                InputType::PaymentRequest(
                    PaymentRequest::PaymentMethod(PaymentMethod::BitcoinAddress(address)),
                ),
            ),
            None => None,
        }
    }
}

} // verus!
