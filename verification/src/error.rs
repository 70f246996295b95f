//! The ways decoding and method selection fail.

use crate::models::{LnurlErrorData, LnurlErrorDataView};
use vstd::prelude::*;

verus! {

/// What went wrong while talking to a service.
#[derive(Clone, Copy, Debug, PartialEq, Eq, Structural)]
pub enum ServiceConnectivityErrorKind {
    Builder,
    Redirect,
    Status,
    Timeout,
    Request,
    Connect,
    Body,
    Decode,
    Json,
    Other,
}

impl DeepView for ServiceConnectivityErrorKind {
    type V = ServiceConnectivityErrorKind;

    open spec fn deep_view(&self) -> ServiceConnectivityErrorKind {
        *self
    }
}

impl View for ServiceConnectivityErrorKind {
    type V = ServiceConnectivityErrorKind;

    open spec fn view(&self) -> ServiceConnectivityErrorKind {
        *self
    }
}

/// A failure to reach a service or to read its answer.
#[derive(Clone, Debug, PartialEq, Eq)]
pub struct ServiceConnectivityError {
    pub kind: ServiceConnectivityErrorKind,
    pub err: String,
}

/// The mathematical value of a [`ServiceConnectivityError`].
pub struct ServiceConnectivityErrorView {
    pub kind: ServiceConnectivityErrorKind,
    pub err: Seq<char>,
}

impl DeepView for ServiceConnectivityError {
    type V = ServiceConnectivityErrorView;

    open spec fn deep_view(&self) -> ServiceConnectivityErrorView {
        ServiceConnectivityErrorView {
            kind: self.kind.deep_view(),
            err: self.err.deep_view(),
        }
    }
}

impl View for ServiceConnectivityError {
    type V = ServiceConnectivityErrorView;

    open spec fn view(&self) -> ServiceConnectivityErrorView {
        self.deep_view()
    }
}

impl ServiceConnectivityError {
    /// An error of the given kind with the given message.
    pub fn new(kind: ServiceConnectivityErrorKind, err: String) -> (r: Self)
        ensures
            r@ == (ServiceConnectivityErrorView { kind, err: err@ }),
    {
        ServiceConnectivityError { kind, err }
    }
}

/// Why a `bitcoin:` URI was refused.
#[derive(Clone, Debug, PartialEq, Eq)]
pub enum Bip21Error {
    /// The address is valid on none of the networks.
    InvalidAddress,
    /// The `amount` is no amount of bitcoin.
    InvalidAmount,
    /// A parameter has no `=`.
    MissingEquals,
    /// The named parameter occurs more than once.
    MultipleParams(String),
    /// A `req-` parameter is not understood.
    UnknownRequiredParameter(String),
    /// The named parameter has a value that cannot be read; the second text says why.
    InvalidParameter(String, String),
    /// The URI offers no way to pay.
    NoPaymentMethods,
}

/// The mathematical value of a [`Bip21Error`].
pub enum Bip21ErrorView {
    InvalidAddress,
    InvalidAmount,
    MissingEquals,
    MultipleParams(Seq<char>),
    UnknownRequiredParameter(Seq<char>),
    InvalidParameter(Seq<char>, Seq<char>),
    NoPaymentMethods,
}

impl DeepView for Bip21Error {
    type V = Bip21ErrorView;

    open spec fn deep_view(&self) -> Bip21ErrorView {
        match self {
            Bip21Error::InvalidAddress => Bip21ErrorView::InvalidAddress,
            Bip21Error::InvalidAmount => Bip21ErrorView::InvalidAmount,
            Bip21Error::MissingEquals => Bip21ErrorView::MissingEquals,
            Bip21Error::MultipleParams(x) => Bip21ErrorView::MultipleParams(x.deep_view()),
            Bip21Error::UnknownRequiredParameter(x) => Bip21ErrorView::UnknownRequiredParameter(
                x.deep_view(),
            ),
            Bip21Error::InvalidParameter(x0, x1) => Bip21ErrorView::InvalidParameter(
                x0.deep_view(), x1.deep_view(),
            ),
            Bip21Error::NoPaymentMethods => Bip21ErrorView::NoPaymentMethods,
        }
    }
}

impl View for Bip21Error {
    type V = Bip21ErrorView;

    open spec fn view(&self) -> Bip21ErrorView {
        self.deep_view()
    }
}

/// Why an LNURL was refused.
#[derive(Clone, Debug, PartialEq, Eq)]
pub enum LnurlError {
    MissingK1,
    InvalidK1,
    UnsupportedAction,
    MissingDomain,
    HttpSchemeWithoutOnionDomain,
    HttpsSchemeWithOnionDomain,
    UnknownScheme,
    /// The endpoint could not be reached, answered with something else than
    /// LNURL data, or refused.
    EndpointError(ServiceConnectivityError),
    General(String),
}

/// The mathematical value of a [`LnurlError`].
pub enum LnurlErrorView {
    MissingK1,
    InvalidK1,
    UnsupportedAction,
    MissingDomain,
    HttpSchemeWithoutOnionDomain,
    HttpsSchemeWithOnionDomain,
    UnknownScheme,
    EndpointError(ServiceConnectivityErrorView),
    General(Seq<char>),
}

impl DeepView for LnurlError {
    type V = LnurlErrorView;

    open spec fn deep_view(&self) -> LnurlErrorView {
        match self {
            LnurlError::MissingK1 => LnurlErrorView::MissingK1,
            LnurlError::InvalidK1 => LnurlErrorView::InvalidK1,
            LnurlError::UnsupportedAction => LnurlErrorView::UnsupportedAction,
            LnurlError::MissingDomain => LnurlErrorView::MissingDomain,
            LnurlError::HttpSchemeWithoutOnionDomain => LnurlErrorView::HttpSchemeWithoutOnionDomain,
            LnurlError::HttpsSchemeWithOnionDomain => LnurlErrorView::HttpsSchemeWithOnionDomain,
            LnurlError::UnknownScheme => LnurlErrorView::UnknownScheme,
            LnurlError::EndpointError(x) => LnurlErrorView::EndpointError(x.deep_view()),
            LnurlError::General(x) => LnurlErrorView::General(x.deep_view()),
        }
    }
}

impl View for LnurlError {
    type V = LnurlErrorView;

    open spec fn view(&self) -> LnurlErrorView {
        self.deep_view()
    }
}

/// Why an input was not classified.
#[derive(Clone, Debug, PartialEq, Eq)]
pub enum ParseError {
    EmptyInput,
    InvalidInput,
    LnurlError(LnurlErrorData),
}

/// The mathematical value of a [`ParseError`].
pub enum ParseErrorView {
    EmptyInput,
    InvalidInput,
    LnurlError(LnurlErrorDataView),
}

impl DeepView for ParseError {
    type V = ParseErrorView;

    open spec fn deep_view(&self) -> ParseErrorView {
        match self {
            ParseError::EmptyInput => ParseErrorView::EmptyInput,
            ParseError::InvalidInput => ParseErrorView::InvalidInput,
            ParseError::LnurlError(x) => ParseErrorView::LnurlError(x.deep_view()),
        }
    }
}

impl View for ParseError {
    type V = ParseErrorView;

    open spec fn view(&self) -> ParseErrorView {
        self.deep_view()
    }
}

impl ParseErrorView {
    /// What the error says.
    pub open spec fn message(self) -> Seq<char> {
        match self {
            ParseErrorView::EmptyInput => "empty input"@,
            ParseErrorView::InvalidInput => "invalid input"@,
            ParseErrorView::LnurlError(data) => "Lnurl error: "@ + data.reason,
        }
    }
}

impl ParseError {
    /// What the error says.
    pub fn message(&self) -> (r: String)
        ensures
            r@ == self@.message(),
    {
        match self {
            ParseError::EmptyInput => "empty input".to_owned(),
            ParseError::InvalidInput => "invalid input".to_owned(),
            ParseError::LnurlError(data) => {
                let mut text = "Lnurl error: ".to_owned();
                text.append(data.reason.as_str());
                text
            },
        }
    }
}

/// The result of classifying an input.
pub type ParseResult<T> = Result<T, ParseError>;

/// Why no payment method was picked.
#[derive(Clone, Copy, Debug, PartialEq, Eq, Structural)]
pub enum PickPaymentMethodError {
    /// The request offers none of the supported kinds.
    Unsupported,
}

impl PickPaymentMethodError {
    /// What the error says.
    pub fn message(&self) -> (r: &'static str)
        ensures
            r@ == "Unsupported payment method"@,
    {
        "Unsupported payment method"
    }
}

} // verus!
