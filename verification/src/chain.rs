//! On-chain addresses and amounts, as the `bitcoin` crate reads them.
//!
//! The functions here call into `bitcoin`. Their contracts are not proved:
//! each result is given a name, and the decoders that build on them are
//! verified against those names.

use vstd::prelude::*;

verus! {

/// An address that parsed: its canonical text and the networks it is valid for.
#[derive(Clone, Debug, PartialEq, Eq)]
pub struct DecodedAddress {
    pub address: String,
    pub bitcoin: bool,
    pub regtest: bool,
    pub signet: bool,
    pub testnet3: bool,
    pub testnet4: bool,
}

/// The mathematical value of a [`DecodedAddress`].
pub struct DecodedAddressView {
    pub address: Seq<char>,
    pub bitcoin: bool,
    pub regtest: bool,
    pub signet: bool,
    pub testnet3: bool,
    pub testnet4: bool,
}

impl DeepView for DecodedAddress {
    type V = DecodedAddressView;

    open spec fn deep_view(&self) -> DecodedAddressView {
        DecodedAddressView {
            address: self.address.deep_view(),
            bitcoin: self.bitcoin.deep_view(),
            regtest: self.regtest.deep_view(),
            signet: self.signet.deep_view(),
            testnet3: self.testnet3.deep_view(),
            testnet4: self.testnet4.deep_view(),
        }
    }
}

impl View for DecodedAddress {
    type V = DecodedAddressView;

    open spec fn view(&self) -> DecodedAddressView {
        self.deep_view()
    }
}

/// The parts of a bech32m text: its human-readable part in lower case, its
/// version and the bytes after the version.
#[derive(Clone, Debug, PartialEq, Eq)]
pub struct SilentPaymentPayload {
    pub hrp: String,
    pub version: u8,
    pub data: Vec<u8>,
}

/// The mathematical value of a [`SilentPaymentPayload`].
pub struct SilentPaymentPayloadView {
    pub hrp: Seq<char>,
    pub version: u8,
    pub data: Seq<u8>,
}

impl DeepView for SilentPaymentPayload {
    type V = SilentPaymentPayloadView;

    open spec fn deep_view(&self) -> SilentPaymentPayloadView {
        SilentPaymentPayloadView {
            hrp: self.hrp.deep_view(),
            version: self.version.deep_view(),
            data: self.data.deep_view(),
        }
    }
}

impl View for SilentPaymentPayload {
    type V = SilentPaymentPayloadView;

    open spec fn view(&self) -> SilentPaymentPayloadView {
        self.deep_view()
    }
}

/// What `text` parses to as an address of any network, if it parses.
pub uninterp spec fn address_decoded(text: Seq<char>) -> Option<DecodedAddressView>;

/// The number of satoshis that the decimal numeral `text` denotes, read as
/// an amount of bitcoin, if it denotes any that fits.
pub uninterp spec fn btc_amount_sat(text: Seq<char>) -> Option<u64>;

/// The parts of `text` read as bech32m with a version, if it is such a text.
pub uninterp spec fn silent_payment_decoded(text: Seq<char>) -> Option<SilentPaymentPayloadView>;

/// Whether `bytes` serialise a point of the secp256k1 curve.
pub uninterp spec fn is_secp256k1_key(bytes: Seq<u8>) -> bool;

/// Calls `Address::<NetworkUnchecked>::from_str`, then
/// `Address::is_valid_for_network` for each of the five networks and
/// `Address::assume_checked` with `to_string`. The result is given the name
/// `address_decoded`; nothing else is claimed of it.
#[verifier::external_body]
pub(crate) fn decode_address(text: &str) -> (r: Option<DecodedAddress>)
    ensures
        r is Some <==> address_decoded(text@) is Some,
        r is Some ==> r.unwrap()@ == address_decoded(text@).unwrap(),
{
    let parsed = text.parse::<bitcoin::Address<bitcoin::address::NetworkUnchecked>>().ok()?;
    Some(DecodedAddress {
        bitcoin: parsed.is_valid_for_network(bitcoin::Network::Bitcoin),
        regtest: parsed.is_valid_for_network(bitcoin::Network::Regtest),
        signet: parsed.is_valid_for_network(bitcoin::Network::Signet),
        testnet3: parsed.is_valid_for_network(bitcoin::Network::Testnet),
        testnet4: parsed.is_valid_for_network(bitcoin::Network::Testnet4),
        address: parsed.assume_checked().to_string(),
    })
}

/// Calls `Amount::from_str_in` with `Denomination::Bitcoin`, then
/// `Amount::to_sat`. The result is given the name `btc_amount_sat`; nothing
/// else is claimed of it.
#[verifier::external_body]
pub(crate) fn parse_btc_amount(text: &str) -> (r: Option<u64>)
    ensures
        r == btc_amount_sat(text@),
{
    let amount = bitcoin::Amount::from_str_in(text, bitcoin::Denomination::Bitcoin).ok()?;
    Some(amount.to_sat())
}

/// Calls `CheckedHrpstring::new::<Bech32m>`, then `remove_witness_version`,
/// `hrp` with `to_lowercase` and `byte_iter`. The result is given the name
/// `silent_payment_decoded`; nothing else is claimed of it.
#[verifier::external_body]
pub(crate) fn decode_silent_payment(text: &str) -> (r: Option<SilentPaymentPayload>)
    ensures
        r is Some <==> silent_payment_decoded(text@) is Some,
        r is Some ==> r.unwrap()@ == silent_payment_decoded(text@).unwrap(),
{
    let mut parsed =
        bech32::primitives::decode::CheckedHrpstring::new::<bech32::Bech32m>(text).ok()?;
    let version = parsed.remove_witness_version()?.to_u8();
    Some(SilentPaymentPayload {
        hrp: parsed.hrp().to_lowercase(),
        version,
        data: parsed.byte_iter().collect(),
    })
}

/// Calls `secp256k1::PublicKey::from_slice`. Whether it succeeds is given
/// the name `is_secp256k1_key`; nothing else is claimed of it.
#[verifier::external_body]
pub(crate) fn check_public_key(bytes: &[u8]) -> (r: bool)
    ensures
        r == is_secp256k1_key(bytes@),
{
    bitcoin::secp256k1::PublicKey::from_slice(bytes).is_ok()
}

} // verus!
