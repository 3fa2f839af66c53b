//! The Global Payments connector: requests with stored-credential details
//! for mandates, access tokens from a nonce and a digest, and the reading of
//! transaction states.

use vstd::prelude::*;
use crate::amount::{read_amount_text, MinorUnit, StringMinorUnit};
use crate::encoding::{
    hex_encode, hex_text, is_alphanumeric, random_alphanumeric, sha512_digest, sha512_digest_of,
};
use crate::enums::{
    apply_redirect_priority, with_redirect_priority, AttemptStatus, CaptureMethod, CountryAlpha2, Currency, Method,
    RefundStatus,
};
use crate::errors::{
    missing_field, not_implemented, not_implemented_error, ConnectorError, ConnectorErrorView,
    ParsingError,
};
use crate::json::{json_string_member, json_string_member_of};
use crate::payment_method_data::{
    two_digit_year, wallet_token_json, BankRedirectData, CardNumber,
    PaymentMethodData as DomainPaymentMethodData, WalletData,
};
use crate::redirect::{
    redirect_form_from_url, url_normal_form, RedirectForm,
};
use crate::router_data::{
    mandate_reference_from_id, mandate_reference_of, AccessToken, CaptureSyncResponse,
    ConnectorAuthType, ErrorResponse, PaymentsAuthorizeRouterData, PaymentsCancelRouterData,
    PaymentsCaptureRouterData, PaymentsResponseData, PaymentsSyncData, PaymentsSyncRouterData,
    RefreshTokenRouterData, RefundsData, RefundsResponseData, RefundsRouterData, ResponseId,
    ResponseRouterData, RouterData,
};
use crate::secret::Secret;
use crate::text::clone_optional_string;

verus! {

/// A request context together with its amount in minor units as text.
pub struct GlobalPayRouterData<T> {
    pub amount: StringMinorUnit,
    pub router_data: T,
}

impl<T> GlobalPayRouterData<T> {
    /// Pairs an amount with a request context.
    pub fn from(pair: (StringMinorUnit, T)) -> (r: Self)
        ensures
            r.amount == pair.0,
            r.router_data == pair.1,
    {
        GlobalPayRouterData { amount: pair.0, router_data: pair.1 }
    }
}

/// The context of a cancellation together with its amount, if it has one.
pub struct GlobalpayCancelRouterData<T> {
    pub amount: Option<StringMinorUnit>,
    pub router_data: T,
}

impl<T> GlobalpayCancelRouterData<T> {
    /// Pairs an optional amount with a request context.
    pub fn from(pair: (Option<StringMinorUnit>, T)) -> (r: Self)
        ensures
            r.amount == pair.0,
            r.router_data == pair.1,
    {
        GlobalpayCancelRouterData { amount: pair.0, router_data: pair.1 }
    }
}

/// What is stored with the merchant's account at Global Payments.
pub struct GlobalPayMeta {
    pub account_name: Secret,
}

/// Who starts a transaction.
#[derive(Clone, Copy, Debug, PartialEq, Eq, Structural)]
pub enum Initiator {
    Merchant,
    Payer,
}

/// The place of a transaction in a series.
#[derive(Clone, Copy, Debug, PartialEq, Eq, Structural)]
pub enum Sequence {
    First,
    Last,
    Subsequent,
}

/// The kind of a series of transactions.
#[derive(Clone, Copy, Debug, PartialEq, Eq, Structural)]
pub enum Model {
    Recurring,
}

/// How a stored credential is used.
#[derive(Clone, Copy, Debug, PartialEq, Eq, Structural)]
pub struct StoredCredential {
    pub model: Option<Model>,
    pub sequence: Option<Sequence>,
}

/// When the funds are captured.
#[derive(Clone, Copy, Debug, PartialEq, Eq, Structural)]
pub enum CaptureMode {
    Auto,
    Later,
    Multiple,
}

/// The capture mode that a capture method stands for: automatic unless the
/// request asks for a manual capture, in one part or in several.
pub open spec fn capture_mode_of(capture_method: Option<CaptureMethod>) -> CaptureMode {
    match capture_method {
        Some(CaptureMethod::Manual) => CaptureMode::Later,
        Some(CaptureMethod::ManualMultiple) => CaptureMode::Multiple,
        _ => CaptureMode::Auto,
    }
}

impl CaptureMode {
    /// The capture mode that `capture_method` stands for.
    pub fn from(capture_method: Option<CaptureMethod>) -> (r: Self)
        ensures
            r == capture_mode_of(capture_method),
    {
        match capture_method {
            Some(CaptureMethod::Manual) => CaptureMode::Later,
            Some(CaptureMethod::ManualMultiple) => CaptureMode::Multiple,
            _ => CaptureMode::Auto,
        }
    }
}

/// The providers of alternative payment methods.
#[derive(Clone, Copy, Debug, PartialEq, Eq, Structural)]
pub enum ApmProvider {
    Giropay,
    Ideal,
    Paypal,
    Sofort,
    Eps,
    Testpay,
}

/// An alternative payment method.
#[derive(Clone, Copy, Debug, PartialEq, Eq, Structural)]
pub struct Apm {
    pub provider: Option<ApmProvider>,
}

/// The providers of digital wallets.
#[derive(Clone, Copy, Debug, PartialEq, Eq, Structural)]
pub enum DigitalWalletProvider {
    Applepay,
    PayByGoogle,
}

/// A digital wallet payment; the token is JSON text.
#[derive(Clone, Debug, PartialEq, Eq)]
pub struct DigitalWallet {
    pub provider: Option<DigitalWalletProvider>,
    pub payment_token: String,
}

/// A card as Global Payments takes it.
#[derive(Clone, PartialEq, Eq)]
pub struct Card {
    pub number: CardNumber,
    pub expiry_month: Secret,
    pub expiry_year: Secret,
    pub cvv: Secret,
    pub brand_reference: Option<String>,
}

/// What the customer pays with, in the terms of Global Payments.
#[derive(Clone, PartialEq, Eq)]
pub enum PaymentMethodData {
    Card(Card),
    Apm(Apm),
    DigitalWallet(DigitalWallet),
}

/// The payment method of a request.
#[derive(Clone, PartialEq, Eq)]
pub struct PaymentMethod {
    pub payment_method_data: PaymentMethodData,
}

/// Where Global Payments sends the customer and its notifications.
#[derive(Clone, Debug, PartialEq, Eq)]
pub struct Notifications {
    pub return_url: Option<String>,
    pub status_url: Option<String>,
}

/// The request to authorize a payment.
#[derive(Clone, PartialEq, Eq)]
pub struct GlobalpayPaymentsRequest {
    pub account_name: Secret,
    pub amount: Option<StringMinorUnit>,
    pub currency: String,
    pub reference: String,
    pub country: CountryAlpha2,
    pub capture_mode: Option<CaptureMode>,
    pub payment_method: PaymentMethod,
    pub notifications: Option<Notifications>,
    pub initiator: Option<Initiator>,
    pub stored_credential: Option<StoredCredential>,
}

/// The request to capture an authorized payment.
#[derive(Clone, Debug, PartialEq, Eq)]
pub struct GlobalpayCaptureRequest {
    pub amount: Option<StringMinorUnit>,
    pub capture_sequence: Option<Sequence>,
    pub reference: Option<String>,
}

/// The request to cancel an authorized payment.
#[derive(Clone, Debug, PartialEq, Eq)]
pub struct GlobalpayCancelRequest {
    pub amount: Option<StringMinorUnit>,
}

/// The request to refund a payment.
#[derive(Clone, Debug, PartialEq, Eq)]
pub struct GlobalpayRefundRequest {
    pub amount: StringMinorUnit,
}

/// The request for an access token.
#[derive(Clone, PartialEq, Eq)]
pub struct GlobalpayRefreshTokenRequest {
    pub app_id: Secret,
    pub nonce: Secret,
    pub secret: Secret,
    pub grant_type: String,
}

/// What Global Payments reports of a transaction.
#[derive(Clone, Copy, Debug, PartialEq, Eq, Structural)]
pub enum GlobalpayPaymentStatus {
    Captured,
    Declined,
    Funded,
    Initiated,
    Pending,
    Preauthorized,
    Rejected,
    Reversed,
}

/// The alternative payment method of an answer.
#[derive(Clone, Debug, PartialEq, Eq)]
pub struct ApmResponse {
    pub redirect_url: Option<String>,
}

/// The card of an answer.
#[derive(Clone, PartialEq, Eq)]
pub struct CardResponse {
    pub brand_reference: Option<Secret>,
}

/// The payment method of an answer.
#[derive(Clone, PartialEq, Eq)]
pub struct PaymentMethodResponse {
    pub apm: Option<ApmResponse>,
    pub card: Option<CardResponse>,
    pub message: Option<String>,
}

/// The answer of Global Payments about a transaction.
#[derive(Clone, PartialEq, Eq)]
pub struct GlobalpayPaymentsResponse {
    pub status: GlobalpayPaymentStatus,
    pub id: String,
    pub payment_method: Option<PaymentMethodResponse>,
    pub reference: Option<String>,
    pub amount: Option<StringMinorUnit>,
    pub currency: Option<Currency>,
}

/// The answer of Global Payments to a request for an access token.
#[derive(Clone, PartialEq, Eq)]
pub struct GlobalpayRefreshTokenResponse {
    pub token: Secret,
    pub seconds_to_expire: i64,
}

/// The answer of Global Payments when it refuses a request.
#[derive(Clone, Debug, PartialEq, Eq)]
pub struct GlobalpayErrorResponse {
    pub error_code: String,
    pub detailed_error_code: String,
    pub detailed_error_description: String,
}

/// The credentials that Global Payments takes.
pub struct GlobalpayAuthType {
    pub app_id: Secret,
    pub key: Secret,
}

impl GlobalpayAuthType {
    /// Reads the credentials from a body key: the first key names the
    /// application. No other shape is accepted.
    pub fn try_from(auth_type: &ConnectorAuthType) -> (r: Result<Self, ConnectorError>)
        ensures
            auth_type is BodyKey ==> (r matches Ok(auth) && auth.app_id == auth_type->BodyKey_key1
                && auth.key == auth_type->BodyKey_api_key),
            !(auth_type is BodyKey) ==> (r matches Err(e) && e@
                == ConnectorErrorView::FailedToObtainAuthType),
    {
        match auth_type {
            ConnectorAuthType::BodyKey { api_key, key1 } => Ok(
                GlobalpayAuthType { app_id: key1.clone(), key: api_key.clone() },
            ),
            _ => Err(ConnectorError::FailedToObtainAuthType),
        }
    }
}

impl AccessToken {
    /// The access token that Global Payments granted.
    pub fn try_from(item: GlobalpayRefreshTokenResponse) -> (r: Result<Self, ParsingError>)
        ensures
            r matches Ok(token) && token.token == item.token && token.expires
                == item.seconds_to_expire,
    {
        Ok(AccessToken { token: item.token, expires: item.seconds_to_expire })
    }
}

/// The secret that proves the knowledge of `key` for the nonce `nonce`: the
/// SHA-512 digest of the nonce followed by the key, in hexadecimal notation.
pub open spec fn token_secret(nonce: Seq<char>, key: Seq<char>) -> Seq<char> {
    hex_text(sha512_digest_of(vstd::utf8::encode_utf8(nonce + key)))
}

/// Whether `request` asks for an access token for `auth` with the nonce `nonce`.
pub open spec fn is_refresh_token_request(
    request: GlobalpayRefreshTokenRequest,
    auth: GlobalpayAuthType,
    nonce: Seq<char>,
) -> bool {
    &&& request.app_id == auth.app_id
    &&& request.nonce@ == nonce
    &&& request.secret@ == token_secret(nonce, auth.key@)
    &&& request.grant_type@ == "client_credentials"@
}

impl GlobalpayRefreshTokenRequest {
    /// The request for an access token that proves the knowledge of the key
    /// of `auth` for the nonce `nonce`.
    pub fn with_nonce(auth: GlobalpayAuthType, nonce: String) -> (r: Self)
        ensures
            is_refresh_token_request(r, auth, nonce@),
    {
        let mut nonce_with_api_key = nonce.clone();
        nonce_with_api_key.append(auth.key.peek().as_str());
        let bytes = nonce_with_api_key.as_str().as_bytes_vec();
        let secret_vec = sha512_digest(&bytes);
        let secret = hex_encode(&secret_vec);
        GlobalpayRefreshTokenRequest {
            app_id: auth.app_id,
            nonce: Secret::new(nonce),
            secret: Secret::new(secret),
            grant_type: String::from_str("client_credentials"),
        }
    }

    /// The request for an access token, with a fresh nonce of twelve letters
    /// and digits. Which nonce is left to chance; whatever it is, the secret
    /// of the request belongs to it.
    pub fn try_from(item: &RefreshTokenRouterData) -> (r: Result<Self, ConnectorError>)
        ensures
            !(item.connector_auth_type is BodyKey) ==> (r matches Err(e) && e@
                == ConnectorErrorView::FailedToObtainAuthType),
            item.connector_auth_type is BodyKey ==> {
                &&& r matches Ok(request)
                &&& request.app_id == item.connector_auth_type->BodyKey_key1
                &&& request.nonce@.len() == 12
                &&& forall|i: int|
                    0 <= i < request.nonce@.len() ==> is_alphanumeric(#[trigger] request.nonce@[i])
                &&& request.secret@ == token_secret(
                    request.nonce@,
                    item.connector_auth_type->BodyKey_api_key@,
                )
                &&& request.grant_type@ == "client_credentials"@
            },
    {
        let globalpay_auth = GlobalpayAuthType::try_from(&item.connector_auth_type)?;
        let nonce = random_alphanumeric(12);
        Ok(Self::with_nonce(globalpay_auth, nonce))
    }
}

/// The state of an attempt that a state of Global Payments stands for.
pub open spec fn globalpay_attempt_status(item: GlobalpayPaymentStatus) -> AttemptStatus {
    match item {
        GlobalpayPaymentStatus::Captured | GlobalpayPaymentStatus::Funded => AttemptStatus::Charged,
        GlobalpayPaymentStatus::Declined | GlobalpayPaymentStatus::Rejected =>
            AttemptStatus::Failure,
        GlobalpayPaymentStatus::Preauthorized => AttemptStatus::Authorized,
        GlobalpayPaymentStatus::Reversed => AttemptStatus::Voided,
        GlobalpayPaymentStatus::Initiated => AttemptStatus::AuthenticationPending,
        GlobalpayPaymentStatus::Pending => AttemptStatus::Pending,
    }
}

/// The state of a refund that a state of Global Payments stands for.
pub open spec fn globalpay_refund_status(item: GlobalpayPaymentStatus) -> RefundStatus {
    match item {
        GlobalpayPaymentStatus::Captured | GlobalpayPaymentStatus::Funded => RefundStatus::Success,
        GlobalpayPaymentStatus::Declined | GlobalpayPaymentStatus::Rejected =>
            RefundStatus::Failure,
        _ => RefundStatus::Pending,
    }
}

/// Every state of Global Payments stands for a state of the machine that
/// all connectors share, and for a state of the shared refund machine: the
/// two mappings have no gap.
pub proof fn lemma_globalpay_status_mapping_total(item: GlobalpayPaymentStatus)
    ensures
        globalpay_attempt_status(item).is_shared_state(),
        globalpay_refund_status(item).is_shared_state(),
{
}

impl GlobalpayPaymentStatus {
    /// The state of the attempt that this state stands for.
    pub fn into_attempt_status(self) -> (r: AttemptStatus)
        ensures
            r == globalpay_attempt_status(self),
    {
        match self {
            GlobalpayPaymentStatus::Captured | GlobalpayPaymentStatus::Funded => {
                AttemptStatus::Charged
            },
            GlobalpayPaymentStatus::Declined | GlobalpayPaymentStatus::Rejected => {
                AttemptStatus::Failure
            },
            GlobalpayPaymentStatus::Preauthorized => AttemptStatus::Authorized,
            GlobalpayPaymentStatus::Reversed => AttemptStatus::Voided,
            GlobalpayPaymentStatus::Initiated => AttemptStatus::AuthenticationPending,
            GlobalpayPaymentStatus::Pending => AttemptStatus::Pending,
        }
    }

    /// The state of the refund that this state stands for.
    pub fn into_refund_status(self) -> (r: RefundStatus)
        ensures
            r == globalpay_refund_status(self),
    {
        match self {
            GlobalpayPaymentStatus::Captured | GlobalpayPaymentStatus::Funded => {
                RefundStatus::Success
            },
            GlobalpayPaymentStatus::Declined | GlobalpayPaymentStatus::Rejected => {
                RefundStatus::Failure
            },
            GlobalpayPaymentStatus::Initiated | GlobalpayPaymentStatus::Pending => {
                RefundStatus::Pending
            },
            _ => RefundStatus::Pending,
        }
    }
}

impl From<GlobalpayPaymentStatus> for AttemptStatus {
    /// The state of the attempt that a state of Global Payments stands for.
    fn from(item: GlobalpayPaymentStatus) -> (r: Self) {
        item.into_attempt_status()
    }
}

impl vstd::std_specs::convert::FromSpecImpl<GlobalpayPaymentStatus> for AttemptStatus {
    open spec fn obeys_from_spec() -> bool {
        true
    }

    open spec fn from_spec(item: GlobalpayPaymentStatus) -> Self {
        globalpay_attempt_status(item)
    }
}

impl From<GlobalpayPaymentStatus> for RefundStatus {
    /// The state of the refund that a state of Global Payments stands for.
    fn from(item: GlobalpayPaymentStatus) -> (r: Self) {
        item.into_refund_status()
    }
}

impl vstd::std_specs::convert::FromSpecImpl<GlobalpayPaymentStatus> for RefundStatus {
    open spec fn obeys_from_spec() -> bool {
        true
    }

    open spec fn from_spec(item: GlobalpayPaymentStatus) -> Self {
        globalpay_refund_status(item)
    }
}

/// The alternative payment method that a bank redirect is routed through.
pub open spec fn bank_redirect_provider(value: BankRedirectData) -> Option<ApmProvider> {
    match value {
        BankRedirectData::Eps => Some(ApmProvider::Eps),
        BankRedirectData::Giropay { .. } => Some(ApmProvider::Giropay),
        BankRedirectData::Ideal { .. } => Some(ApmProvider::Ideal),
        BankRedirectData::Sofort => Some(ApmProvider::Sofort),
        _ => None,
    }
}

impl PaymentMethodData {
    /// What Global Payments is told of a bank redirect. It takes EPS,
    /// giropay, iDEAL and Sofort; every other is not implemented.
    pub fn try_from(value: &BankRedirectData) -> (r: Result<Self, ConnectorError>)
        ensures
            match bank_redirect_provider(*value) {
                Some(provider) => r matches Ok(PaymentMethodData::Apm(apm)) && apm.provider == Some(
                    provider,
                ),
                None => r matches Err(e) && e@ == not_implemented("Payment method"@),
            },
    {
        match value {
            BankRedirectData::Eps => Ok(
                PaymentMethodData::Apm(Apm { provider: Some(ApmProvider::Eps) }),
            ),
            BankRedirectData::Giropay { .. } => Ok(
                PaymentMethodData::Apm(Apm { provider: Some(ApmProvider::Giropay) }),
            ),
            BankRedirectData::Ideal { .. } => Ok(
                PaymentMethodData::Apm(Apm { provider: Some(ApmProvider::Ideal) }),
            ),
            BankRedirectData::Sofort => Ok(
                PaymentMethodData::Apm(Apm { provider: Some(ApmProvider::Sofort) }),
            ),
            _ => Err(not_implemented_error("Payment method")),
        }
    }
}

/// Why no wallet details can be built, if they cannot.
pub open spec fn wallet_data_error(wallet_data: WalletData) -> Option<ConnectorErrorView> {
    match wallet_data {
        WalletData::PaypalRedirect => None,
        WalletData::GooglePay(_) => match wallet_token_json(wallet_data, "Google Pay"@) {
            Ok(_) => None,
            Err(error) => Some(error),
        },
        _ => Some(not_implemented("Payment method"@)),
    }
}

/// What Global Payments is told of a wallet payment. It takes PayPal and
/// Google Pay; every other wallet is not implemented.
pub fn get_wallet_data(wallet_data: &WalletData) -> (r: Result<PaymentMethodData, ConnectorError>)
    ensures
        match wallet_data_error(*wallet_data) {
            Some(error) => r matches Err(e) && e@ == error,
            None => if *wallet_data is PaypalRedirect {
                r matches Ok(PaymentMethodData::Apm(apm)) && apm.provider == Some(
                    ApmProvider::Paypal,
                )
            } else {
                &&& r matches Ok(PaymentMethodData::DigitalWallet(wallet))
                &&& wallet.provider == Some(DigitalWalletProvider::PayByGoogle)
                &&& wallet.payment_token@ == wallet_token_json(*wallet_data, "Google Pay"@)->Ok_0
            },
        },
{
    match wallet_data {
        WalletData::PaypalRedirect => Ok(
            PaymentMethodData::Apm(Apm { provider: Some(ApmProvider::Paypal) }),
        ),
        WalletData::GooglePay(_) => {
            Ok(
                PaymentMethodData::DigitalWallet(
                    DigitalWallet {
                        provider: Some(DigitalWalletProvider::PayByGoogle),
                        payment_token: wallet_data.get_wallet_token_as_json(
                            String::from_str("Google Pay"),
                        )?,
                    },
                ),
            )
        },
        _ => Err(not_implemented_error("Payment method")),
    }
}

/// The payment methods that Global Payments takes.
pub open spec fn globalpay_supports(method: DomainPaymentMethodData) -> bool {
    match method {
        DomainPaymentMethodData::Card(_) => true,
        DomainPaymentMethodData::Wallet(wallet) => wallet is PaypalRedirect || wallet is GooglePay,
        DomainPaymentMethodData::BankRedirect(redirect) => bank_redirect_provider(redirect)
            is Some,
        _ => false,
    }
}

/// Why the payment method cannot be encoded, if it cannot.
pub open spec fn payment_method_data_error(method: DomainPaymentMethodData) -> Option<
    ConnectorErrorView,
> {
    match method {
        DomainPaymentMethodData::Card(card) => if card.card_exp_year@.len() < 2 {
            Some(ConnectorErrorView::RequestEncodingFailed)
        } else {
            None
        },
        DomainPaymentMethodData::Wallet(wallet) => wallet_data_error(wallet),
        DomainPaymentMethodData::BankRedirect(redirect) => if bank_redirect_provider(redirect)
            is None {
            Some(not_implemented("Payment method"@))
        } else {
            None
        },
        _ => Some(not_implemented("Payment methods"@)),
    }
}

/// Whether `sent` is what Global Payments is told of the payment method
/// `method`, with the reference `brand_reference` of a stored card.
pub open spec fn is_payment_method_data_of(
    sent: PaymentMethodData,
    method: DomainPaymentMethodData,
    brand_reference: Option<String>,
) -> bool {
    match method {
        DomainPaymentMethodData::Card(card) => {
            &&& sent matches PaymentMethodData::Card(c)
            &&& c.number == card.card_number
            &&& c.expiry_month == card.card_exp_month
            &&& c.expiry_year@ == two_digit_year(card.card_exp_year@)
            &&& c.cvv == card.card_cvc
            &&& c.brand_reference == brand_reference
        },
        DomainPaymentMethodData::Wallet(WalletData::PaypalRedirect) => {
            &&& sent matches PaymentMethodData::Apm(apm)
            &&& apm.provider == Some(ApmProvider::Paypal)
        },
        DomainPaymentMethodData::Wallet(wallet) => {
            &&& sent matches PaymentMethodData::DigitalWallet(w)
            &&& w.provider == Some(DigitalWalletProvider::PayByGoogle)
            &&& w.payment_token@ == wallet_token_json(wallet, "Google Pay"@)->Ok_0
        },
        DomainPaymentMethodData::BankRedirect(redirect) => {
            &&& sent matches PaymentMethodData::Apm(apm)
            &&& apm.provider == bank_redirect_provider(redirect)
        },
        _ => false,
    }
}

/// What Global Payments is told of the payment method of `item`. It takes
/// cards, PayPal, Google Pay, EPS, giropay, iDEAL and Sofort; for everything
/// else the request is refused as not implemented.
pub fn get_payment_method_data(
    item: &PaymentsAuthorizeRouterData,
    brand_reference: Option<String>,
) -> (r: Result<PaymentMethodData, ConnectorError>)
    ensures
        match payment_method_data_error(item.request.payment_method_data) {
            Some(error) => r matches Err(e) && e@ == error,
            None => r matches Ok(sent) && is_payment_method_data_of(
                sent,
                item.request.payment_method_data,
                brand_reference,
            ),
        },
{
    match &item.request.payment_method_data {
        DomainPaymentMethodData::Card(ccard) => Ok(
            PaymentMethodData::Card(
                Card {
                    number: ccard.card_number.clone(),
                    expiry_month: ccard.card_exp_month.clone(),
                    expiry_year: ccard.get_card_expiry_year_2_digit()?,
                    cvv: ccard.card_cvc.clone(),
                    brand_reference,
                },
            ),
        ),
        DomainPaymentMethodData::Wallet(wallet_data) => get_wallet_data(wallet_data),
        DomainPaymentMethodData::BankRedirect(bank_redirect) => PaymentMethodData::try_from(
            bank_redirect,
        ),
        _ => Err(not_implemented_error("Payment methods")),
    }
}

/// The address to which the customer returns: for PayPal the address that
/// completes the authorization, and otherwise the return address of the switch.
pub open spec fn return_url_of(item: PaymentsAuthorizeRouterData) -> Option<String> {
    match item.request.payment_method_data {
        DomainPaymentMethodData::Wallet(WalletData::PaypalRedirect) =>
            item.request.complete_authorize_url,
        _ => item.request.router_return_url,
    }
}

/// The address to which the customer returns.
pub fn get_return_url(item: &PaymentsAuthorizeRouterData) -> (r: Option<String>)
    ensures
        r == return_url_of(*item),
{
    match &item.request.payment_method_data {
        DomainPaymentMethodData::Wallet(WalletData::PaypalRedirect) => {
            clone_optional_string(&item.request.complete_authorize_url)
        },
        _ => clone_optional_string(&item.request.router_return_url),
    }
}

/// Who starts the payment, how the stored credential is used, and the
/// reference of the stored card.
pub struct MandateDetails {
    pub initiator: Option<Initiator>,
    pub stored_credential: Option<StoredCredential>,
    pub brand_reference: Option<String>,
}

/// The mandate details of a request. A payment that is no mandate payment
/// has none. A mandate payment is started by the merchant when the customer
/// is not in the session, and by the payer otherwise; it is the first of a
/// recurring series unless the connector already knows the mandate, whose
/// identifier is then the reference of the stored card.
pub open spec fn mandate_details_of(item: PaymentsAuthorizeRouterData) -> MandateDetails {
    if item.request.is_mandate_payment_spec() {
        MandateDetails {
            initiator: Some(
                if item.request.off_session == Some(true) {
                    Initiator::Merchant
                } else {
                    Initiator::Payer
                },
            ),
            stored_credential: Some(
                StoredCredential {
                    model: Some(Model::Recurring),
                    sequence: Some(
                        if item.request.connector_mandate_id_spec() is Some {
                            Sequence::Subsequent
                        } else {
                            Sequence::First
                        },
                    ),
                },
            ),
            brand_reference: item.request.connector_mandate_id_spec(),
        }
    } else {
        MandateDetails { initiator: None, stored_credential: None, brand_reference: None }
    }
}

/// The mandate details of the request of `item`.
pub fn get_mandate_details(item: &PaymentsAuthorizeRouterData) -> (r: Result<
    MandateDetails,
    ConnectorError,
>)
    ensures
        r matches Ok(details) && details == mandate_details_of(*item),
{
    Ok(
        if item.request.is_mandate_payment() {
            let connector_mandate_id = item.request.connector_mandate_id();
            MandateDetails {
                initiator: Some(
                    match item.request.off_session {
                        Some(true) => Initiator::Merchant,
                        _ => Initiator::Payer,
                    },
                ),
                stored_credential: Some(
                    StoredCredential {
                        model: Some(Model::Recurring),
                        sequence: Some(
                            match connector_mandate_id.is_some() {
                                true => Sequence::Subsequent,
                                false => Sequence::First,
                            },
                        ),
                    },
                ),
                brand_reference: connector_mandate_id,
            }
        } else {
            MandateDetails { initiator: None, stored_credential: None, brand_reference: None }
        },
    )
}

/// The account that the metadata `metadata` name.
pub open spec fn account_name_of(metadata: Option<Secret>) -> Option<Seq<char>> {
    match metadata {
        Some(text) => json_string_member_of(text@, "account_name"@),
        None => None,
    }
}

impl GlobalPayMeta {
    /// Reads the metadata of the merchant's account: a JSON object that
    /// names the account.
    pub fn try_from(meta_data: &Option<Secret>) -> (r: Result<Self, ConnectorError>)
        ensures
            match account_name_of(*meta_data) {
                Some(name) => r matches Ok(meta) && meta.account_name@ == name,
                None => r matches Err(e) && e@ == (ConnectorErrorView::InvalidConnectorConfig {
                    config: "metadata"@,
                }),
            },
    {
        let found = match meta_data {
            Some(text) => json_string_member(text.peek().as_str(), "account_name"),
            None => None,
        };
        match found {
            Some(name) => Ok(GlobalPayMeta { account_name: Secret::new(name) }),
            None => Err(ConnectorError::InvalidConnectorConfig { config: "metadata" }),
        }
    }
}

/// Why no payment request can be built, if none can: the metadata of the
/// account are read first, then the payment method is encoded, and last the
/// country of the payer is asked for.
pub open spec fn payments_request_error(data: PaymentsAuthorizeRouterData) -> Option<
    ConnectorErrorView,
> {
    if account_name_of(data.connector_meta_data) is None {
        Some(ConnectorErrorView::InvalidConnectorConfig { config: "metadata"@ })
    } else if payment_method_data_error(data.request.payment_method_data) is Some {
        payment_method_data_error(data.request.payment_method_data)
    } else if data.billing_country() is None {
        Some(missing_field("payment_method_data.billing.address.country"@))
    } else {
        None
    }
}

/// Whether `request` is the payment request of `data` with the amount `amount`.
pub open spec fn is_payments_request_of(
    request: GlobalpayPaymentsRequest,
    amount: StringMinorUnit,
    data: PaymentsAuthorizeRouterData,
) -> bool {
    &&& request.account_name@ == account_name_of(data.connector_meta_data)->0
    &&& request.amount == Some(amount)
    &&& request.currency@ == data.request.currency.code_spec()
    &&& request.reference == data.connector_request_reference_id
    &&& Some(request.country) == data.billing_country()
    &&& request.capture_mode == Some(capture_mode_of(data.request.capture_method))
    &&& is_payment_method_data_of(
        request.payment_method.payment_method_data,
        data.request.payment_method_data,
        mandate_details_of(data).brand_reference,
    )
    &&& request.notifications == Some(
        Notifications { return_url: return_url_of(data), status_url: data.request.webhook_url },
    )
    &&& request.initiator == mandate_details_of(data).initiator
    &&& request.stored_credential == mandate_details_of(data).stored_credential
}

impl GlobalpayPaymentsRequest {
    /// Builds the payment request.
    pub fn try_from(item: &GlobalPayRouterData<&PaymentsAuthorizeRouterData>) -> (r: Result<
        Self,
        ConnectorError,
    >)
        ensures
            match payments_request_error(*item.router_data) {
                Some(error) => r matches Err(e) && e@ == error,
                None => r matches Ok(request) && is_payments_request_of(
                    request,
                    item.amount,
                    *item.router_data,
                ),
            },
    {
        let data = item.router_data;
        let metadata = GlobalPayMeta::try_from(&data.connector_meta_data)?;
        let account_name = metadata.account_name;
        let MandateDetails { initiator, stored_credential, brand_reference } = get_mandate_details(
            data,
        )?;
        let payment_method_data = get_payment_method_data(data, brand_reference)?;
        Ok(
            GlobalpayPaymentsRequest {
                account_name,
                amount: Some(item.amount.clone()),
                currency: data.request.currency.to_string(),
                reference: data.connector_request_reference_id.clone(),
                country: data.get_billing_country()?,
                capture_mode: Some(CaptureMode::from(data.request.capture_method)),
                payment_method: PaymentMethod { payment_method_data },
                notifications: Some(
                    Notifications {
                        return_url: get_return_url(data),
                        status_url: clone_optional_string(&data.request.webhook_url),
                    },
                ),
                initiator,
                stored_credential,
            },
        )
    }
}

/// Whatever the customer pays with, the request is built or it is refused as
/// not implemented: a payment method that Global Payments takes is never
/// refused as not implemented, and one that it does not take is never
/// encoded. Left out are only the requests that are refused for another
/// reason: metadata of the account that are missing or unreadable, a card
/// year that cannot be encoded, a wallet token that cannot be read, or a
/// payer without a country.
pub proof fn lemma_globalpay_payment_method_coverage(data: PaymentsAuthorizeRouterData)
    requires
        !(payments_request_error(data) matches Some(
            ConnectorErrorView::InvalidConnectorConfig { .. },
        )),
        payments_request_error(data) != Some(ConnectorErrorView::RequestEncodingFailed),
        !(payments_request_error(data) matches Some(
            ConnectorErrorView::InvalidWalletToken { .. },
        )),
        !(payments_request_error(data) matches Some(
            ConnectorErrorView::MissingRequiredField { .. },
        )),
    ensures
        globalpay_supports(data.request.payment_method_data) ==> payments_request_error(data)
            is None,
        !globalpay_supports(data.request.payment_method_data) ==> payments_request_error(data)
            matches Some(ConnectorErrorView::NotImplemented(_)),
{
}

impl GlobalpayCaptureRequest {
    /// The request to capture the amount of `value`. One capture among
    /// several names its place in the series and its reference.
    pub fn try_from(value: &GlobalPayRouterData<&PaymentsCaptureRouterData>) -> (r: Result<
        Self,
        ConnectorError,
    >)
        ensures
            r matches Ok(request) && {
                &&& request.amount == Some(value.amount)
                &&& match value.router_data.request.multiple_capture_data {
                    Some(capture) => request.capture_sequence == Some(
                        if capture.capture_sequence == 1 {
                            Sequence::First
                        } else {
                            Sequence::Subsequent
                        },
                    ) && request.reference == Some(capture.capture_reference),
                    None => request.capture_sequence is None && request.reference is None,
                }
            },
    {
        let (capture_sequence, reference) = match &value.router_data.request.multiple_capture_data {
            Some(mcd) => (
                Some(
                    if mcd.capture_sequence == 1 {
                        Sequence::First
                    } else {
                        Sequence::Subsequent
                    },
                ),
                Some(mcd.capture_reference.clone()),
            ),
            None => (None, None),
        };
        Ok(GlobalpayCaptureRequest { amount: Some(value.amount.clone()), capture_sequence, reference })
    }
}

impl GlobalpayCancelRequest {
    /// The request to cancel the payment of `value`.
    pub fn try_from(value: &GlobalpayCancelRouterData<&PaymentsCancelRouterData>) -> (r: Result<
        Self,
        ConnectorError,
    >)
        ensures
            r matches Ok(request) && request.amount == value.amount,
    {
        Ok(
            GlobalpayCancelRequest {
                amount: match &value.amount {
                    Some(amount) => Some(amount.clone()),
                    None => None,
                },
            },
        )
    }
}

impl GlobalpayRefundRequest {
    /// The request to refund the amount of `item`.
    pub fn try_from(item: &GlobalPayRouterData<&RefundsRouterData>) -> (r: Result<
        Self,
        ConnectorError,
    >)
        ensures
            r matches Ok(request) && request.amount == item.amount,
    {
        Ok(GlobalpayRefundRequest { amount: item.amount.clone() })
    }
}

/// The reference of the stored card of an answer.
pub open spec fn brand_reference_of(response: GlobalpayPaymentsResponse) -> Option<Secret> {
    match response.payment_method {
        Some(method) => match method.card {
            Some(card) => card.brand_reference,
            None => None,
        },
        None => None,
    }
}

/// The message of an answer.
pub open spec fn message_of(response: GlobalpayPaymentsResponse) -> Option<String> {
    match response.payment_method {
        Some(method) => method.message,
        None => None,
    }
}

/// Whether `error` is the error response to the failed payment that
/// `response` tells of: it carries the message of the answer, or says that
/// there is none, under the code and the status code of an error without a
/// cause of its own, and names neither a reason, nor a state of the attempt,
/// nor a transaction.
pub open spec fn is_failure_response(
    error: ErrorResponse,
    response: GlobalpayPaymentsResponse,
) -> bool {
    &&& error.message@ == match message_of(response) {
        Some(message) => message@,
        None => "No error message"@,
    }
    &&& error.code@ == "HE_00"@
    &&& error.reason is None
    &&& error.status_code == 500
    &&& error.attempt_status is None
    &&& error.connector_transaction_id is None
    &&& error.network_advice_code is None
    &&& error.network_decline_code is None
    &&& error.network_error_message is None
}

/// The normalized response to a payment. A failed attempt gives an error
/// response with the message of the answer, and nothing else; any other
/// state gives a transaction response that names the transaction and carries
/// the redirect and the stored card as a mandate.
pub fn get_payment_response(
    status: AttemptStatus,
    response: GlobalpayPaymentsResponse,
    redirection_data: Option<RedirectForm>,
) -> (r: Result<PaymentsResponseData, ErrorResponse>)
    ensures
        r is Err <==> status == AttemptStatus::Failure,
        r matches Err(error) ==> is_failure_response(error, response),
        r matches Ok(data) ==> {
            &&& data matches PaymentsResponseData::TransactionResponse {
                resource_id,
                redirection_data: redirect,
                mandate_reference,
                connector_metadata,
                network_txn_id,
                connector_response_reference_id,
                incremental_authorization_allowed,
            }
            &&& resource_id == ResponseId::ConnectorTransactionId(response.id)
            &&& redirect == redirection_data
            &&& connector_response_reference_id == response.reference
            &&& connector_metadata is None
            &&& network_txn_id is None
            &&& incremental_authorization_allowed is None
            &&& mandate_reference is Some <==> brand_reference_of(response) is Some
            &&& mandate_reference matches Some(reference) ==> mandate_reference_of(
                brand_reference_of(response)->0@,
                reference,
            )
        },
{
    let GlobalpayPaymentsResponse { status: _, id, payment_method, reference, amount: _, currency: _ } =
        response;
    let (brand_reference, message) = match payment_method {
        Some(pm) => (
            match pm.card {
                Some(card) => card.brand_reference,
                None => None,
            },
            pm.message,
        ),
        None => (None, None),
    };
    let mandate_reference = match brand_reference {
        Some(id) => Some(mandate_reference_from_id(id.expose())),
        None => None,
    };
    match status {
        AttemptStatus::Failure => {
            let mut error = ErrorResponse::default();
            error.message = match message {
                Some(message) => message,
                None => String::from_str("No error message"),
            };
            Err(error)
        },
        _ => Ok(
            PaymentsResponseData::TransactionResponse {
                resource_id: ResponseId::ConnectorTransactionId(id),
                redirection_data,
                mandate_reference,
                connector_metadata: None,
                network_txn_id: None,
                connector_response_reference_id: reference,
                incremental_authorization_allowed: None,
            },
        ),
    }
}

/// The redirect address of an answer: that of its alternative payment
/// method, unless it is empty.
pub open spec fn redirect_url_of(response: GlobalpayPaymentsResponse) -> Option<String> {
    match response.payment_method {
        Some(method) => match method.apm {
            Some(apm) => match apm.redirect_url {
                Some(url) => if url@.len() == 0 {
                    None
                } else {
                    Some(url)
                },
                None => None,
            },
            None => None,
        },
        None => None,
    }
}

/// Whether the redirect address of an answer, if it has one, is a URL.
pub open spec fn redirect_url_usable(response: GlobalpayPaymentsResponse) -> bool {
    redirect_url_of(response) matches Some(url) ==> url_normal_form(url@) is Some
}

/// Translates the answer of Global Payments about a payment. The state of
/// the attempt is what the state of the transaction stands for; a redirect
/// is followed with a GET request and takes priority over a reported
/// success; a redirect address that is no URL is refused.
pub fn parse_payments_response<Req>(
    item: ResponseRouterData<GlobalpayPaymentsResponse, Req, PaymentsResponseData>,
) -> (r: Result<RouterData<Req, PaymentsResponseData>, ConnectorError>)
    ensures
        !redirect_url_usable(item.response) ==> (r matches Err(e) && e@
            == ConnectorErrorView::FailedToObtainIntegrationUrl),
        redirect_url_usable(item.response) ==> {
            &&& r matches Ok(data)
            &&& data.carries_rest_of(item.data)
            &&& data.status == with_redirect_priority(
                globalpay_attempt_status(item.response.status),
                redirect_url_of(item.response) is Some,
            )
            &&& data.response is Err <==> data.status == AttemptStatus::Failure
            &&& data.response matches Err(error) ==> is_failure_response(error, item.response)
            &&& data.response matches Ok(response) ==> {
                &&& response matches PaymentsResponseData::TransactionResponse {
                    resource_id,
                    redirection_data,
                    mandate_reference,
                    connector_metadata,
                    network_txn_id,
                    connector_response_reference_id,
                    incremental_authorization_allowed,
                }
                &&& resource_id == ResponseId::ConnectorTransactionId(item.response.id)
                &&& connector_response_reference_id == item.response.reference
                &&& redirection_data is Some <==> redirect_url_of(item.response) is Some
                &&& redirection_data matches Some(form) ==> form.is_get_redirect(
                    url_normal_form(redirect_url_of(item.response)->0@)->0,
                )
                &&& mandate_reference is Some <==> brand_reference_of(item.response) is Some
                &&& mandate_reference matches Some(reference) ==> mandate_reference_of(
                    brand_reference_of(item.response)->0@,
                    reference,
                )
            }
        },
{
    let ResponseRouterData { response, data, http_code: _ } = item;
    let status = response.status.into_attempt_status();
    let redirect_url = match &response.payment_method {
        Some(payment_method) => match &payment_method.apm {
            Some(apm) => match &apm.redirect_url {
                Some(url) => if url.as_str().unicode_len() == 0 {
                    None
                } else {
                    Some(url)
                },
                None => None,
            },
            None => None,
        },
        None => None,
    };
    let redirection_data = match redirect_url {
        Some(url) => match redirect_form_from_url(url.as_str(), Method::Get) {
            Some(form) => Some(form),
            None => {
                return Err(ConnectorError::FailedToObtainIntegrationUrl);
            },
        },
        None => None,
    };
    let status = apply_redirect_priority(status, redirection_data.is_some());
    let result = get_payment_response(status, response, redirection_data);
    Ok(data.with_response(status, result))
}

impl<Req> TryFrom<ResponseRouterData<GlobalpayPaymentsResponse, Req, PaymentsResponseData>> for RouterData<Req, PaymentsResponseData> {
    type Error = ConnectorError;

    /// Translates the answer of Global Payments about a payment, as
    /// `parse_payments_response` does.
    fn try_from(item: ResponseRouterData<GlobalpayPaymentsResponse, Req, PaymentsResponseData>) -> (r: Result<Self, Self::Error>)
        ensures
            !redirect_url_usable(item.response) ==> (r matches Err(e) && e@
                == ConnectorErrorView::FailedToObtainIntegrationUrl),
            redirect_url_usable(item.response) ==> {
                &&& r matches Ok(data)
                &&& data.carries_rest_of(item.data)
                &&& data.status == with_redirect_priority(
                    globalpay_attempt_status(item.response.status),
                    redirect_url_of(item.response) is Some,
                )
                &&& data.response is Err <==> data.status == AttemptStatus::Failure
                &&& data.response matches Err(error) ==> is_failure_response(error, item.response)
                &&& data.response matches Ok(response) ==> {
                    &&& response matches PaymentsResponseData::TransactionResponse {
                        resource_id,
                        redirection_data,
                        mandate_reference,
                        connector_metadata,
                        network_txn_id,
                        connector_response_reference_id,
                        incremental_authorization_allowed,
                    }
                    &&& resource_id == ResponseId::ConnectorTransactionId(item.response.id)
                    &&& connector_response_reference_id == item.response.reference
                    &&& redirection_data is Some <==> redirect_url_of(item.response) is Some
                    &&& redirection_data matches Some(form) ==> form.is_get_redirect(
                        url_normal_form(redirect_url_of(item.response)->0@)->0,
                    )
                    &&& mandate_reference is Some <==> brand_reference_of(item.response) is Some
                    &&& mandate_reference matches Some(reference) ==> mandate_reference_of(
                        brand_reference_of(item.response)->0@,
                        reference,
                    )
                }
            },
    {
        parse_payments_response(item)
    }
}

/// What `try_from` returns is stated by its own clauses, over the texts that
/// the result holds, and not as one value.
impl<Req> vstd::std_specs::convert::TryFromSpecImpl<ResponseRouterData<GlobalpayPaymentsResponse, Req, PaymentsResponseData>> for RouterData<Req, PaymentsResponseData> {
    open spec fn obeys_try_from_spec() -> bool {
        false
    }

    open spec fn try_from_spec(item: ResponseRouterData<GlobalpayPaymentsResponse, Req, PaymentsResponseData>) -> Result<Self, Self::Error> {
        arbitrary()
    }
}

/// What an answer about one capture among several tells.
pub trait MultipleCaptureSyncResponse {
    /// What the amount of the answer denotes, if it has one.
    spec fn amount_captured_spec(&self) -> Option<Result<i64, ParsingError>>;

    /// The capture by the identifier of the connector.
    fn get_connector_capture_id(&self) -> String;

    /// The state of the attempt that the capture stands for.
    fn get_capture_attempt_status(&self) -> AttemptStatus;

    /// Whether the answer is about a capture.
    fn is_capture_response(&self) -> bool;

    /// The amount that was captured.
    fn get_amount_captured(&self) -> (r: Result<Option<MinorUnit>, ParsingError>)
        ensures
            match self.amount_captured_spec() {
                None => r == Ok::<Option<MinorUnit>, ParsingError>(None),
                Some(Ok(amount)) => r matches Ok(Some(found)) && found@ == amount,
                Some(Err(error)) => r == Err::<Option<MinorUnit>, ParsingError>(error),
            },
    ;

    /// The reference of the capture at the connector.
    fn get_connector_reference_id(&self) -> Option<String>;
}

impl MultipleCaptureSyncResponse for GlobalpayPaymentsResponse {
    open spec fn amount_captured_spec(&self) -> Option<Result<i64, ParsingError>> {
        match self.amount {
            Some(amount) => Some(read_amount_text(amount@, 0)),
            None => None,
        }
    }

    fn get_connector_capture_id(&self) -> (r: String)
        ensures
            r == self.id,
    {
        self.id.clone()
    }

    fn get_capture_attempt_status(&self) -> (r: AttemptStatus)
        ensures
            r == globalpay_attempt_status(self.status),
    {
        self.status.into_attempt_status()
    }

    fn is_capture_response(&self) -> (r: bool)
        ensures
            r,
    {
        true
    }

    fn get_amount_captured(&self) -> (r: Result<Option<MinorUnit>, ParsingError>) {
        match &self.amount {
            Some(amount) => match amount.to_minor_unit() {
                Ok(minor_amount) => Ok(Some(minor_amount)),
                Err(error) => Err(error),
            },
            None => Ok(None),
        }
    }

    fn get_connector_reference_id(&self) -> (r: Option<String>)
        ensures
            r == self.reference,
    {
        clone_optional_string(&self.reference)
    }
}

/// The state of the capture that an answer tells; an amount that cannot be
/// read is refused.
pub fn capture_sync_response(response: &GlobalpayPaymentsResponse) -> (r: Result<
    CaptureSyncResponse,
    ConnectorError,
>)
    ensures
        match response.amount_captured_spec() {
            Some(Err(_)) => r matches Err(e) && e@ == ConnectorErrorView::AmountConversionFailed,
            amount => {
                &&& r matches Ok(capture)
                &&& capture.resource_id == ResponseId::ConnectorTransactionId(response.id)
                &&& capture.status == globalpay_attempt_status(response.status)
                &&& capture.connector_response_reference_id == response.reference
                &&& capture.amount == match amount {
                    Some(Ok(minor)) => Some(minor),
                    _ => None,
                }
            },
        },
{
    let amount = match response.get_amount_captured() {
        Ok(Some(minor)) => Some(minor.get_amount_as_i64()),
        Ok(None) => None,
        Err(_) => {
            return Err(ConnectorError::AmountConversionFailed);
        },
    };
    Ok(
        CaptureSyncResponse {
            resource_id: ResponseId::ConnectorTransactionId(response.get_connector_capture_id()),
            status: response.get_capture_attempt_status(),
            connector_response_reference_id: response.get_connector_reference_id(),
            amount,
        },
    )
}

/// Translates the answer of Global Payments to a request for the state of
/// one capture among several: the response lists the capture that the
/// answer tells, and the attempt stays in its state.
pub fn parse_multiple_capture_sync_response(
    value: ResponseRouterData<GlobalpayPaymentsResponse, PaymentsSyncData, PaymentsResponseData>,
) -> (r: Result<PaymentsSyncRouterData, ConnectorError>)
    ensures
        match value.response.amount_captured_spec() {
            Some(Err(_)) => r matches Err(e) && e@ == ConnectorErrorView::AmountConversionFailed,
            amount => {
                &&& r matches Ok(data)
                &&& data.carries_rest_of(value.data)
                &&& data.status == value.data.status
                &&& data.response matches Ok(
                    PaymentsResponseData::MultipleCaptureResponse { capture_sync_response_list },
                )
                &&& capture_sync_response_list@.len() == 1
                &&& capture_sync_response_list@[0].resource_id == ResponseId::ConnectorTransactionId(
                    value.response.id,
                )
                &&& capture_sync_response_list@[0].status == globalpay_attempt_status(
                    value.response.status,
                )
                &&& capture_sync_response_list@[0].connector_response_reference_id
                    == value.response.reference
                &&& capture_sync_response_list@[0].amount == match amount {
                    Some(Ok(minor)) => Some(minor),
                    _ => None,
                }
            },
        },
{
    let ResponseRouterData { response, data, http_code: _ } = value;
    let capture = capture_sync_response(&response)?;
    let mut capture_sync_response_list: Vec<CaptureSyncResponse> = Vec::new();
    capture_sync_response_list.push(capture);
    let status = data.status;
    Ok(
        data.with_response(
            status,
            Ok(PaymentsResponseData::MultipleCaptureResponse { capture_sync_response_list }),
        ),
    )
}

/// Translates the answer of Global Payments to a request for the state of a
/// payment: as the state of one capture among several when
/// `is_multiple_capture_sync` says so, and as the state of the payment
/// otherwise.
pub fn parse_sync_response(
    value: ResponseRouterData<GlobalpayPaymentsResponse, PaymentsSyncData, PaymentsResponseData>,
    is_multiple_capture_sync: bool,
) -> (r: Result<PaymentsSyncRouterData, ConnectorError>)
    ensures
        if is_multiple_capture_sync {
            match value.response.amount_captured_spec() {
                Some(Err(_)) => r matches Err(e) && e@ == ConnectorErrorView::AmountConversionFailed,
                amount => {
                    &&& r matches Ok(data)
                    &&& data.carries_rest_of(value.data)
                    &&& data.status == value.data.status
                    &&& data.response matches Ok(
                        PaymentsResponseData::MultipleCaptureResponse { capture_sync_response_list },
                    )
                    &&& capture_sync_response_list@.len() == 1
                    &&& capture_sync_response_list@[0].resource_id == ResponseId::ConnectorTransactionId(
                        value.response.id,
                    )
                    &&& capture_sync_response_list@[0].status == globalpay_attempt_status(
                        value.response.status,
                    )
                    &&& capture_sync_response_list@[0].connector_response_reference_id
                        == value.response.reference
                    &&& capture_sync_response_list@[0].amount == match amount {
                        Some(Ok(minor)) => Some(minor),
                        _ => None,
                    }
                },
            }
        } else {
            &&& !redirect_url_usable(value.response) ==> (r matches Err(e) && e@
            == ConnectorErrorView::FailedToObtainIntegrationUrl)
            &&& redirect_url_usable(value.response) ==> {
                &&& r matches Ok(data)
                &&& data.carries_rest_of(value.data)
                &&& data.status == with_redirect_priority(
                    globalpay_attempt_status(value.response.status),
                    redirect_url_of(value.response) is Some,
                )
                &&& data.response is Err <==> data.status == AttemptStatus::Failure
                &&& data.response matches Err(error) ==> is_failure_response(error, value.response)
                &&& data.response matches Ok(response) ==> {
                    &&& response matches PaymentsResponseData::TransactionResponse {
                        resource_id,
                        redirection_data,
                        mandate_reference,
                        connector_metadata,
                        network_txn_id,
                        connector_response_reference_id,
                        incremental_authorization_allowed,
                    }
                    &&& resource_id == ResponseId::ConnectorTransactionId(value.response.id)
                    &&& connector_response_reference_id == value.response.reference
                    &&& redirection_data is Some <==> redirect_url_of(value.response) is Some
                    &&& redirection_data matches Some(form) ==> form.is_get_redirect(
                        url_normal_form(redirect_url_of(value.response)->0@)->0,
                    )
                    &&& mandate_reference is Some <==> brand_reference_of(value.response) is Some
                    &&& mandate_reference matches Some(reference) ==> mandate_reference_of(
                        brand_reference_of(value.response)->0@,
                        reference,
                    )
                }
            }
        },
{
    if is_multiple_capture_sync {
        parse_multiple_capture_sync_response(value)
    } else {
        parse_payments_response(value)
    }
}

/// Translates the answer of Global Payments to a request for an access token.
pub fn parse_refresh_token_response<Req>(
    item: ResponseRouterData<GlobalpayRefreshTokenResponse, Req, AccessToken>,
) -> (r: Result<RouterData<Req, AccessToken>, ParsingError>)
    ensures
        r matches Ok(data) && {
            &&& data.carries_rest_of(item.data)
            &&& data.status == item.data.status
            &&& data.response matches Ok(token)
            &&& token.token == item.response.token
            &&& token.expires == item.response.seconds_to_expire
        },
{
    let ResponseRouterData { response, data, http_code: _ } = item;
    let status = data.status;
    Ok(
        data.with_response(
            status,
            Ok(AccessToken { token: response.token, expires: response.seconds_to_expire }),
        ),
    )
}

impl<Req> TryFrom<ResponseRouterData<GlobalpayRefreshTokenResponse, Req, AccessToken>> for RouterData<Req, AccessToken> {
    type Error = ParsingError;

    /// Translates the answer of Global Payments to a request for an access
    /// token, as `parse_refresh_token_response` does.
    fn try_from(item: ResponseRouterData<GlobalpayRefreshTokenResponse, Req, AccessToken>) -> (r: Result<Self, Self::Error>)
        ensures
            r matches Ok(data) && {
                &&& data.carries_rest_of(item.data)
                &&& data.status == item.data.status
                &&& data.response matches Ok(token)
                &&& token.token == item.response.token
                &&& token.expires == item.response.seconds_to_expire
            },
    {
        parse_refresh_token_response(item)
    }
}

/// What `try_from` returns is stated by its own clauses, over the texts that
/// the result holds, and not as one value.
impl<Req> vstd::std_specs::convert::TryFromSpecImpl<ResponseRouterData<GlobalpayRefreshTokenResponse, Req, AccessToken>> for RouterData<Req, AccessToken> {
    open spec fn obeys_try_from_spec() -> bool {
        false
    }

    open spec fn try_from_spec(item: ResponseRouterData<GlobalpayRefreshTokenResponse, Req, AccessToken>) -> Result<Self, Self::Error> {
        arbitrary()
    }
}

/// Translates the answer of Global Payments about a refund, whether it
/// answers the refund request or a request for the state of the refund.
pub fn parse_refund_response(
    item: ResponseRouterData<GlobalpayPaymentsResponse, RefundsData, RefundsResponseData>,
) -> (r: Result<RefundsRouterData, ConnectorError>)
    ensures
        r matches Ok(data) && {
            &&& data.carries_rest_of(item.data)
            &&& data.status == item.data.status
            &&& data.response == Ok::<RefundsResponseData, ErrorResponse>(
                RefundsResponseData {
                    connector_refund_id: item.response.id,
                    refund_status: globalpay_refund_status(item.response.status),
                },
            )
        },
{
    let ResponseRouterData { response, data, http_code: _ } = item;
    let status = data.status;
    Ok(
        data.with_response(
            status,
            Ok(
                RefundsResponseData {
                    connector_refund_id: response.id,
                    refund_status: response.status.into_refund_status(),
                },
            ),
        ),
    )
}

impl TryFrom<ResponseRouterData<GlobalpayPaymentsResponse, RefundsData, RefundsResponseData>> for RouterData<RefundsData, RefundsResponseData> {
    type Error = ConnectorError;

    /// Translates the answer of Global Payments about a refund, as
    /// `parse_refund_response` does.
    fn try_from(item: ResponseRouterData<GlobalpayPaymentsResponse, RefundsData, RefundsResponseData>) -> (r: Result<Self, Self::Error>)
        ensures
            r matches Ok(data) && {
                &&& data.carries_rest_of(item.data)
                &&& data.status == item.data.status
                &&& data.response == Ok::<RefundsResponseData, ErrorResponse>(
                    RefundsResponseData {
                        connector_refund_id: item.response.id,
                        refund_status: globalpay_refund_status(item.response.status),
                    },
                )
            },
    {
        parse_refund_response(item)
    }
}

/// What `try_from` returns is stated by its own clauses, over the texts that
/// the result holds, and not as one value.
impl vstd::std_specs::convert::TryFromSpecImpl<ResponseRouterData<GlobalpayPaymentsResponse, RefundsData, RefundsResponseData>> for RouterData<RefundsData, RefundsResponseData> {
    open spec fn obeys_try_from_spec() -> bool {
        false
    }

    open spec fn try_from_spec(item: ResponseRouterData<GlobalpayPaymentsResponse, RefundsData, RefundsResponseData>) -> Result<Self, Self::Error> {
        arbitrary()
    }
}

} // verus!
