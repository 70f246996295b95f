//! The data of the wallet operations that surround input resolution:
//! requests, responses and the ways each operation fails.
//!
//! These types carry data only.

use crate::models::{
    BitcoinAddress, Bolt11Invoice, Bolt12InvoiceRequest, Bolt12Offer, LnurlWithdrawRequestData,
};
use vstd::prelude::*;

verus! {

/// The network a wallet runs on.
#[derive(Clone, Copy, Debug, PartialEq, Eq, Structural)]
pub enum Network {
    Mainnet,
    Regtest,
}

/// A third party that sells bitcoin.
#[derive(Clone, Copy, Debug, PartialEq, Eq)]
pub enum BuyBitcoinProvider {
    Moonpay,
}

/// How far a payment has come.
#[derive(Clone, Copy, Debug, Default, PartialEq, Eq, Hash)]
pub enum PaymentState {
    #[default]
    Created,
    Pending,
    Complete,
    Failed,
    TimedOut,
    Refundable,
    RefundPending,
    WaitingFeeAcceptance,
}

/// The direction of a payment.
#[derive(Clone, Copy, Debug, PartialEq, Eq, Hash)]
pub enum PaymentType {
    Receive,
    Send,
}

/// How a wallet is set up.
#[derive(Clone, Debug, PartialEq, Eq)]
pub struct Config {
    pub mnemonic: String,
    pub network: Network,
    pub data_dir: String,
}

#[derive(Clone, Debug, PartialEq, Eq)]
pub struct AcceptPaymentProposedFeesRequest {
    pub response: FetchPaymentProposedFeesResponse,
}

#[derive(Clone, Debug, PartialEq, Eq)]
pub struct AcceptPaymentProposedFeesResponse {
}

#[derive(Clone, Debug, PartialEq, Eq)]
pub struct AddEventListenerResponse {
    pub listener_id: String,
}

#[derive(Clone, Debug, PartialEq, Eq)]
pub struct PrepareBuyBitcoinRequest {
    pub provider: BuyBitcoinProvider,
    pub amount_sat: u64,
}

#[derive(Clone, Debug, PartialEq, Eq)]
pub struct PrepareBuyBitcoinResponse {
    pub req: PrepareBuyBitcoinRequest,
    pub fee_msat: u64,
}

#[derive(Clone, Debug, PartialEq, Eq)]
pub struct BuyBitcoinRequest {
    pub prepared: PrepareBuyBitcoinResponse,
    /// The optional URL to redirect to after completing the buy.
    pub redirect_url: Option<String>,
}

#[derive(Clone, Debug, PartialEq, Eq)]
pub struct BuyBitcoinResponse {
    pub url: String,
}

#[derive(Clone, Debug, PartialEq, Eq)]
pub struct FetchOnchainLimitsResponse {
}

#[derive(Clone, Debug, PartialEq, Eq)]
pub struct FetchPaymentProposedFeesRequest {
    pub payment_id: String,
}

#[derive(Clone, Debug, PartialEq, Eq)]
pub struct FetchPaymentProposedFeesResponse {
}

#[derive(Clone, Debug, PartialEq, Eq)]
pub struct FetchRecommendedFeesResponse {
    pub fastest_fee: u64,
    pub half_hour_fee: u64,
    pub hour_fee: u64,
    pub economy_fee: u64,
    pub minimum_fee: u64,
}

#[derive(Clone, Debug, PartialEq, Eq)]
pub struct RecommendedFees {
    pub fastest_fee: u64,
    pub half_hour_fee: u64,
    pub hour_fee: u64,
    pub economy_fee: u64,
    pub minimum_fee: u64,
}

#[derive(Clone, Debug, PartialEq, Eq)]
pub struct GetInfoResponse {
}

#[derive(Clone, Debug, PartialEq, Eq)]
pub struct InitializeLoggingRequest {
    pub log_dir: String,
}

#[derive(Clone, Debug, PartialEq, Eq)]
pub struct InitializeLoggingResponse {
}

#[derive(Clone, Debug, Default, PartialEq, Eq)]
pub struct ListPaymentsRequest {
    pub filters: Option<Vec<PaymentType>>,
    pub states: Option<Vec<PaymentState>>,
    /// Epoch time, in seconds
    pub from_timestamp: Option<u64>,
    /// Epoch time, in seconds
    pub to_timestamp: Option<u64>,
    pub offset: Option<u32>,
    pub limit: Option<u32>,
    pub sort_ascending: Option<bool>,
}

#[derive(Clone, Debug, PartialEq, Eq)]
pub struct LnurlPayErrorData {
    pub payment_hash: String,
    pub reason: String,
}

#[derive(Clone, Debug, PartialEq, Eq)]
pub struct PrepareRefundRequest {
}

#[derive(Clone, Debug, PartialEq, Eq)]
pub struct PrepareRefundResponse {
}

#[derive(Clone, Debug, PartialEq, Eq)]
pub struct PrepareSendPaymentResponse {
}

#[derive(Clone, Debug, PartialEq, Eq)]
pub struct ReceivePaymentResponse {
    pub payment_request: String,
}

#[derive(Clone, Debug, PartialEq, Eq)]
pub struct RefundRequest {
    pub prepared: PrepareRefundResponse,
}

#[derive(Clone, Debug, PartialEq, Eq)]
pub struct RefundResponse {
}

#[derive(Clone, Debug, PartialEq, Eq)]
pub struct RegisterWebhookRequest {
    pub url: String,
}

#[derive(Clone, Debug, PartialEq, Eq)]
pub struct RegisterWebhookResponse {
}

#[derive(Clone, Debug, PartialEq, Eq)]
pub struct RemoveEventListenerRequest {
    pub listener_id: String,
}

#[derive(Clone, Debug, PartialEq, Eq)]
pub struct SendPaymentRequest {
    pub prepared: PrepareSendPaymentResponse,
}

#[derive(Clone, Debug, PartialEq, Eq)]
pub struct SendLiquidAddressResponse {
}

#[derive(Clone, Debug, PartialEq, Eq)]
pub struct SignMessageRequest {
    pub message: String,
}

#[derive(Clone, Debug, PartialEq, Eq)]
pub struct SignMessageResponse {
    pub signature: String,
}

#[derive(Clone, Debug, PartialEq, Eq)]
pub struct UnregisterWebhookRequest {
}

#[derive(Clone, Debug, PartialEq, Eq)]
pub struct UnregisterWebhookResponse {
}

#[derive(Clone, Debug, PartialEq, Eq)]
pub struct VerifyMessageRequest {
    /// The message that was signed.
    pub message: String,
    /// The public key of the node that signed the message.
    pub pubkey: String,
    /// The zbase encoded signature to verify.
    pub signature: String,
}

#[derive(Clone, Debug, PartialEq, Eq)]
pub struct VerifyMessageResponse {
    /// Whether the signature covers the message and was signed by the given pubkey.
    pub is_valid: bool,
}

/// Contents of an AES success action, decrypted.
#[derive(Clone, Debug, PartialEq, Eq)]
pub struct AesSuccessActionDataDecrypted {
    /// Contents description, up to 144 characters
    pub description: String,
    /// Decrypted content
    pub plaintext: String,
}

/// Result of decrypting an AES success action.
#[derive(Clone, Debug, PartialEq, Eq)]
pub enum AesSuccessActionDataResult {
    Decrypted { data: AesSuccessActionDataDecrypted },
    ErrorStatus { reason: String },
}

/// A message to show after a payment.
#[derive(Clone, Debug, PartialEq, Eq)]
pub struct MessageSuccessActionData {
    pub message: String,
}

/// A URL to show after a payment.
#[derive(Clone, Debug, PartialEq, Eq)]
pub struct UrlSuccessActionData {
    /// Contents description, up to 144 characters
    pub description: String,
    /// URL of the success action
    pub url: String,
    /// Whether the success URL domain matches the LNURL callback domain.
    pub matches_callback_domain: bool,
}

/// A success action whose contents are ready to be shown.
#[derive(Clone, Debug, PartialEq, Eq)]
#[allow(inconsistent_fields)]
pub enum SuccessActionProcessed {
    Aes { result: AesSuccessActionDataResult },
    Message { data: MessageSuccessActionData },
    Url { data: UrlSuccessActionData },
}

/// How a symbol of a currency is written.
#[derive(Clone, Debug, PartialEq, Eq)]
pub struct Symbol {
    pub grapheme: Option<String>,
    pub template: Option<String>,
    pub rtl: Option<bool>,
    pub position: Option<u32>,
}

/// The name of a currency in one locale.
#[derive(Clone, Debug, PartialEq, Eq)]
pub struct LocalizedName {
    pub locale: String,
    pub name: String,
}

/// How a currency is written in one locale.
#[derive(Clone, Debug, PartialEq, Eq)]
pub struct LocaleOverrides {
    pub locale: String,
    pub spacing: Option<u32>,
    pub symbol: Symbol,
}

/// Details about a supported currency in the fiat rate feed.
#[derive(Clone, Debug, PartialEq, Eq)]
pub struct CurrencyInfo {
    pub name: String,
    pub fraction_size: u32,
    pub spacing: Option<u32>,
    pub symbol: Option<Symbol>,
    pub uniq_symbol: Option<Symbol>,
    pub localized_name: Vec<LocalizedName>,
    pub locale_overrides: Vec<LocaleOverrides>,
}

/// A fiat currency and its details.
#[derive(Clone, Debug, PartialEq, Eq)]
pub struct FiatCurrency {
    pub id: String,
    pub info: CurrencyInfo,
}

/// What receiving can be asked for.
#[derive(Clone, Debug, PartialEq, Eq)]
pub enum ReceiveMethod {
    BitcoinAddress,
    Bolt11Invoice,
    Bolt12InvoiceRequest(Bolt12InvoiceRequest),
    Bolt12Offer,
    LnurlWithdraw(LnurlWithdrawRequestData),
}

/// Why buying bitcoin cannot be prepared.
#[derive(Clone, Debug, PartialEq, Eq)]
pub enum PrepareBuyBitcoinError {
    InvalidAmount(String),
    InvalidNetwork,
}

/// Why buying bitcoin failed.
#[derive(Clone, Debug, PartialEq, Eq)]
pub enum BuyBitcoinError {
    InvalidAmount(String),
    InvalidNetwork,
    ProviderError { provider: BuyBitcoinProvider, error: String },
    General(String),
}

/// Why stopping failed.
#[derive(Clone, Copy, Debug, PartialEq, Eq)]
pub enum StopError {
    SendSignalFailed,
}

impl Network {
    /// The network's lower-case name.
    pub fn name(&self) -> (r: &'static str)
        ensures
            r@ == (match self {
                Network::Mainnet => "mainnet"@,
                Network::Regtest => "regtest"@,
            }),
    {
        match self {
            Network::Mainnet => "mainnet",
            Network::Regtest => "regtest",
        }
    }
}

impl BuyBitcoinError {
    /// The failure to buy that a failure to prepare comes to.
    pub fn from(err: PrepareBuyBitcoinError) -> (r: Self)
        ensures
            match err {
                PrepareBuyBitcoinError::InvalidAmount(amount) => r is InvalidAmount
                    && r->InvalidAmount_0@ == amount@,
                PrepareBuyBitcoinError::InvalidNetwork => r is InvalidNetwork,
            },
    {
        match err {
            PrepareBuyBitcoinError::InvalidAmount(amount) => BuyBitcoinError::InvalidAmount(amount),
            PrepareBuyBitcoinError::InvalidNetwork => BuyBitcoinError::InvalidNetwork,
        }
    }
}

/// The capability to sign LNURL-auth challenges. The keys stay with the
/// wallet that owns them; this type is the handle it is asked through.
#[derive(Clone, Copy, Debug, PartialEq, Eq)]
pub struct LnurlAuthSigner {}

impl LnurlAuthSigner {
    /// A signer.
    pub fn new() -> (r: Self) {
        LnurlAuthSigner {  }
    }
}

/// Whether bitcoin can be bought: on mainnet only, and in whole thousands
/// of satoshis only.
pub fn validate_buy_bitcoin(network: Network, amount_sat: u64) -> (r: Result<
    (),
    PrepareBuyBitcoinError,
>)
    ensures
        r is Ok <==> network == Network::Mainnet && amount_sat % 1000 == 0,
        network != Network::Mainnet ==> r == Err::<(), PrepareBuyBitcoinError>(
            PrepareBuyBitcoinError::InvalidNetwork,
        ),
        r is Err && network == Network::Mainnet ==> r->Err_0 is InvalidAmount && r->Err_0->InvalidAmount_0@
            == "Can only buy sat amounts that are multiples of 1000"@,
{
    if network != Network::Mainnet {
        return Err(PrepareBuyBitcoinError::InvalidNetwork);
    }
    if amount_sat % 1_000 != 0 {
        return Err(
            PrepareBuyBitcoinError::InvalidAmount(
                "Can only buy sat amounts that are multiples of 1000".to_owned(),
            ),
        );
    }
    Ok(())
}

} // verus!
