//! Failures of the transformation layer.

use vstd::prelude::*;

verus! {

/// Why an amount could not be converted.
#[derive(Clone, Copy, Debug, PartialEq, Eq, Structural)]
pub enum ParsingError {
    /// The text is not a decimal amount in the notation of the currency.
    StringToDecimalConversionFailure,
    /// The amount is a decimal number that does not fit the minor-unit integer.
    DecimalToI64ConversionFailure,
    /// The decimal places of the amount are not those of the currency.
    DecimalScaleMismatch,
}

/// `bytes::Bytes`, a buffer of bytes; nothing is known of it but what
/// `bytes_content` names.
#[verifier::external_type_specification]
#[verifier::external_body]
pub struct ExBytes(bytes::Bytes);

/// The bytes that a byte buffer holds, in order.
pub uninterp spec fn bytes_content(buffer: bytes::Bytes) -> Seq<u8>;

/// Calls `bytes::Bytes::from` on a `String`: the buffer holds the UTF-8 bytes
/// of the text.
#[verifier::external_body]
pub(crate) fn bytes_from_string(text: String) -> (r: bytes::Bytes)
    ensures
        bytes_content(r) == vstd::utf8::encode_utf8(text@),
{
    bytes::Bytes::from(text)
}

/// Why a request could not be built or a response not be translated.
#[derive(Debug, PartialEq, Eq)]
pub enum ConnectorError {
    /// The connector has no mapping for the requested payment method or feature.
    NotImplemented(String),
    /// The request lacks data that the connector requires.
    MissingRequiredField { field_name: &'static str },
    /// The stored credentials do not have the shape that the connector expects.
    FailedToObtainAuthType,
    /// The stored connector metadata could not be read.
    InvalidConnectorConfig { config: &'static str },
    /// The connector's response does not have the expected structure.
    ResponseHandlingFailed,
    /// The outbound payload could not be encoded.
    RequestEncodingFailed,
    /// The connector answered with a result code that is not known; the code is kept.
    UnexpectedResponseError(bytes::Bytes),
    /// The connector does not support the flow.
    FlowNotSupported { flow: String, connector: String },
    /// The request names no connector transaction.
    MissingConnectorTransactionID,
    /// The connector metadata lacks the named transaction reference.
    MissingConnectorRelatedTransactionID { id: String },
    /// The connector's redirect address is not a URL.
    FailedToObtainIntegrationUrl,
    /// The wallet token of the named wallet could not be read.
    InvalidWalletToken { wallet_name: String },
    /// The wallet has no token.
    InvalidWallet,
    /// The amount could not be converted.
    AmountConversionFailed,
    /// The connector does not support the requested capture method.
    CaptureMethodNotSupported,
}

/// What a `ConnectorError` says, with its texts as character sequences.
pub enum ConnectorErrorView {
    NotImplemented(Seq<char>),
    MissingRequiredField { field_name: Seq<char> },
    FailedToObtainAuthType,
    InvalidConnectorConfig { config: Seq<char> },
    ResponseHandlingFailed,
    RequestEncodingFailed,
    UnexpectedResponseError(Seq<u8>),
    FlowNotSupported { flow: Seq<char>, connector: Seq<char> },
    MissingConnectorTransactionID,
    MissingConnectorRelatedTransactionID { id: Seq<char> },
    FailedToObtainIntegrationUrl,
    InvalidWalletToken { wallet_name: Seq<char> },
    InvalidWallet,
    AmountConversionFailed,
    CaptureMethodNotSupported,
}

impl ConnectorError {
    /// What the error says.
    pub open spec fn view(&self) -> ConnectorErrorView {
        match self {
            ConnectorError::NotImplemented(m) => ConnectorErrorView::NotImplemented(m@),
            ConnectorError::MissingRequiredField { field_name } =>
                ConnectorErrorView::MissingRequiredField { field_name: field_name@ },
            ConnectorError::FailedToObtainAuthType => ConnectorErrorView::FailedToObtainAuthType,
            ConnectorError::InvalidConnectorConfig { config } =>
                ConnectorErrorView::InvalidConnectorConfig { config: config@ },
            ConnectorError::ResponseHandlingFailed => ConnectorErrorView::ResponseHandlingFailed,
            ConnectorError::RequestEncodingFailed => ConnectorErrorView::RequestEncodingFailed,
            ConnectorError::UnexpectedResponseError(b) =>
                ConnectorErrorView::UnexpectedResponseError(bytes_content(*b)),
            ConnectorError::FlowNotSupported { flow, connector } =>
                ConnectorErrorView::FlowNotSupported { flow: flow@, connector: connector@ },
            ConnectorError::MissingConnectorTransactionID =>
                ConnectorErrorView::MissingConnectorTransactionID,
            ConnectorError::MissingConnectorRelatedTransactionID { id } =>
                ConnectorErrorView::MissingConnectorRelatedTransactionID { id: id@ },
            ConnectorError::FailedToObtainIntegrationUrl =>
                ConnectorErrorView::FailedToObtainIntegrationUrl,
            ConnectorError::InvalidWalletToken { wallet_name } =>
                ConnectorErrorView::InvalidWalletToken { wallet_name: wallet_name@ },
            ConnectorError::InvalidWallet => ConnectorErrorView::InvalidWallet,
            ConnectorError::AmountConversionFailed => ConnectorErrorView::AmountConversionFailed,
            ConnectorError::CaptureMethodNotSupported =>
                ConnectorErrorView::CaptureMethodNotSupported,
        }
    }
}

/// The error that says that a required field called `name` is missing.
pub open spec fn missing_field(name: Seq<char>) -> ConnectorErrorView {
    ConnectorErrorView::MissingRequiredField { field_name: name }
}

/// The error that says that `what` is not implemented.
pub open spec fn not_implemented(what: Seq<char>) -> ConnectorErrorView {
    ConnectorErrorView::NotImplemented(what)
}

/// Builds the error that says that `what` is not implemented.
pub fn not_implemented_error(what: &str) -> (r: ConnectorError)
    ensures
        r@ == not_implemented(what@),
{
    ConnectorError::NotImplemented(String::from_str(what))
}

/// The message of a payment method that a connector does not implement.
pub open spec fn unimplemented_payment_method_message(connector: Seq<char>) -> Seq<char> {
    "Selected payment method through "@ + connector
}

/// The message of a payment method that `connector` does not implement.
pub fn get_unimplemented_payment_method_error_message(connector: &str) -> (r: String)
    ensures
        r@ == unimplemented_payment_method_message(connector@),
{
    crate::text::concatenate("Selected payment method through ", connector)
}

} // verus!
