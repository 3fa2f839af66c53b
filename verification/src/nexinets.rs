//! The Nexinets connector: orders with a product and optional payment
//! details, and states that mean different things for different kinds of
//! transaction.

use vstd::prelude::*;
use crate::encoding::{base64_encode, base64_encoding_of};
use crate::enums::{apply_redirect_priority, with_redirect_priority, AttemptStatus, BankNames, Currency, Method, PaymentMethod, RefundStatus as RouterRefundStatus};
use crate::errors::{
    get_unimplemented_payment_method_error_message, missing_field, not_implemented,
    unimplemented_payment_method_message, ConnectorError, ConnectorErrorView,
};
use crate::json::{json_object_text, json_object_text_of, json_string_member, json_string_member_of};
use crate::payment_method_data::{
    two_digit_year, wallet_token_json, ApplePayWalletData, BankRedirectData, Card, CardNumber,
    PaymentMethodData, WalletData,
};
use crate::redirect::{
    pairs_view, redirect_form_from_url, url_normal_form, RedirectForm,
};
use crate::router_data::{
    mandate_reference_from_id, mandate_reference_of, ConnectorAuthType, ErrorResponse,
    PaymentsAuthorizeRouterData, PaymentsCancelRouterData, PaymentsCaptureRouterData,
    PaymentsResponseData, RefundsData, RefundsResponseData, RefundsRouterData, ResponseId,
    ResponseRouterData, RouterData,
};
use crate::secret::Secret;
use crate::text::clone_optional_string;

verus! {

/// The channel of an order.
#[derive(Clone, Copy, Debug, PartialEq, Eq, Structural)]
pub enum NexinetsChannel {
    Ecom,
}

/// The product that pays an order.
#[derive(Clone, Copy, Debug, PartialEq, Eq, Structural)]
pub enum NexinetsProduct {
    Creditcard,
    Paypal,
    Giropay,
    Sofort,
    Eps,
    Ideal,
    Applepay,
}

/// A card as Nexinets takes it.
#[derive(Clone, PartialEq, Eq)]
pub struct CardDetails {
    pub card_number: CardNumber,
    pub expiry_month: Secret,
    pub expiry_year: Secret,
    pub verification: Secret,
}

/// A stored payment instrument.
#[derive(Clone, PartialEq, Eq)]
pub struct PaymentInstrument {
    pub payment_instrument_id: Option<Secret>,
}

/// A card, or the instrument that stands for it.
#[derive(Clone, PartialEq, Eq)]
pub enum CardDataDetails {
    CardDetails(Box<CardDetails>),
    PaymentInstrument(Box<PaymentInstrument>),
}

/// How card-on-file payments recur.
#[derive(Clone, Copy, Debug, PartialEq, Eq, Structural)]
pub enum RecurringType {
    Unscheduled,
}

/// The contract under which a card is kept on file.
#[derive(Clone, Copy, Debug, PartialEq, Eq, Structural)]
pub struct CofContract {
    pub recurring_type: RecurringType,
}

/// The card of a payment, with its card-on-file contract.
#[derive(Clone, PartialEq, Eq)]
pub struct NexiCardDetails {
    pub card_data: CardDataDetails,
    pub cof_contract: Option<CofContract>,
}

/// The banks that Nexinets reaches through iDEAL, by their identifier codes.
#[derive(Clone, Copy, Debug, PartialEq, Eq, Structural)]
pub enum NexinetsBIC {
    AbnAmro,
    AsnBank,
    Bunq,
    Ing,
    Knab,
    Rabobank,
    Regiobank,
    SnsBank,
    TriodosBank,
    VanLanschot,
}

/// The bank of a bank redirect.
#[derive(Clone, Copy, Debug, PartialEq, Eq, Structural)]
pub struct NexinetsBankRedirects {
    pub bic: Option<NexinetsBIC>,
}

/// Where the customer returns to.
#[derive(Clone, Debug, PartialEq, Eq)]
pub struct NexinetsAsyncDetails {
    pub success_url: Option<String>,
    pub cancel_url: Option<String>,
    pub failure_url: Option<String>,
}

/// How Apple Pay describes the card behind a token.
#[derive(Clone, Debug, PartialEq, Eq)]
pub struct ApplepayPaymentMethod {
    pub display_name: String,
    pub network: String,
    pub token_type: String,
}

/// An Apple Pay payment; the token is JSON text.
#[derive(Clone, Debug, PartialEq, Eq)]
pub struct ApplePayDetails {
    pub payment_data: String,
    pub payment_method: ApplepayPaymentMethod,
    pub transaction_identifier: String,
}

/// A wallet payment.
#[derive(Clone, Debug, PartialEq, Eq)]
pub enum NexinetsWalletDetails {
    ApplePayToken(Box<ApplePayDetails>),
}

/// What the customer pays with, in Nexinets' terms.
#[derive(Clone, PartialEq, Eq)]
pub enum NexinetsPaymentDetails {
    Card(Box<NexiCardDetails>),
    Wallet(Box<NexinetsWalletDetails>),
    BankRedirects(Box<NexinetsBankRedirects>),
}

/// The request to authorize or debit a payment.
#[derive(Clone, PartialEq, Eq)]
pub struct NexinetsPaymentsRequest {
    pub initial_amount: i64,
    pub currency: Currency,
    pub channel: NexinetsChannel,
    pub product: NexinetsProduct,
    pub payment: Option<NexinetsPaymentDetails>,
    pub nexinets_async: NexinetsAsyncDetails,
    pub merchant_order_id: Option<String>,
}

/// The credentials that Nexinets takes: the header of HTTP basic authentication.
pub struct NexinetsAuthType {
    pub api_key: Secret,
}

/// The header of HTTP basic authentication for a merchant and a key.
pub open spec fn basic_auth_header(key1: Seq<char>, api_key: Seq<char>) -> Seq<char> {
    "Basic "@ + base64_encoding_of(key1 + seq![':'] + api_key)
}

impl NexinetsAuthType {
    /// Makes the authentication header from a body key; no other shape is accepted.
    pub fn try_from(auth_type: &ConnectorAuthType) -> (r: Result<Self, ConnectorError>)
        ensures
            auth_type is BodyKey ==> (r matches Ok(auth) && auth.api_key@ == basic_auth_header(
                auth_type->BodyKey_key1@,
                auth_type->BodyKey_api_key@,
            )),
            !(auth_type is BodyKey) ==> (r matches Err(e) && e@
                == ConnectorErrorView::FailedToObtainAuthType),
    {
        match auth_type {
            ConnectorAuthType::BodyKey { api_key, key1 } => {
                let mut auth_key = key1.peek().clone();
                auth_key.append(":");
                auth_key.append(api_key.peek().as_str());
                proof {
                    reveal_strlit(":");
                    assert(":"@ =~= seq![':']);
                }
                let mut auth_header = String::from_str("Basic ");
                let encoded = base64_encode(auth_key.as_str());
                auth_header.append(encoded.as_str());
                Ok(NexinetsAuthType { api_key: Secret::new(auth_header) })
            },
            _ => Err(ConnectorError::FailedToObtainAuthType),
        }
    }
}

/// What Nexinets reports of a transaction.
#[derive(Clone, Copy, Debug, PartialEq, Eq, Structural)]
pub enum NexinetsPaymentStatus {
    Success,
    Pending,
    /// The state that Nexinets calls `OK`.
    Okay,
    Failure,
    Declined,
    InProgress,
    Expired,
    Aborted,
}

/// The kinds of transaction.
#[derive(Clone, Copy, Debug, PartialEq, Eq, Structural)]
pub enum NexinetsTransactionType {
    Preauth,
    Debit,
    Capture,
    Cancel,
}

/// The state of an attempt that a state of Nexinets stands for. What a
/// success or a failure means depends on the kind of transaction: an
/// authorization, a charge or a void has succeeded or failed.
pub open spec fn nexinets_attempt_status(
    status: NexinetsPaymentStatus,
    method: NexinetsTransactionType,
) -> AttemptStatus {
    match status {
        NexinetsPaymentStatus::Success => match method {
            NexinetsTransactionType::Preauth => AttemptStatus::Authorized,
            NexinetsTransactionType::Debit | NexinetsTransactionType::Capture =>
                AttemptStatus::Charged,
            NexinetsTransactionType::Cancel => AttemptStatus::Voided,
        },
        NexinetsPaymentStatus::Declined
        | NexinetsPaymentStatus::Failure
        | NexinetsPaymentStatus::Expired
        | NexinetsPaymentStatus::Aborted => match method {
            NexinetsTransactionType::Preauth => AttemptStatus::AuthorizationFailed,
            NexinetsTransactionType::Debit | NexinetsTransactionType::Capture =>
                AttemptStatus::CaptureFailed,
            NexinetsTransactionType::Cancel => AttemptStatus::VoidFailed,
        },
        NexinetsPaymentStatus::Okay => match method {
            NexinetsTransactionType::Preauth => AttemptStatus::Authorized,
            _ => AttemptStatus::Pending,
        },
        NexinetsPaymentStatus::Pending => AttemptStatus::AuthenticationPending,
        NexinetsPaymentStatus::InProgress => AttemptStatus::Pending,
    }
}

/// The state of an attempt that a state of Nexinets stands for.
pub fn get_status(status: NexinetsPaymentStatus, method: NexinetsTransactionType) -> (r:
    AttemptStatus)
    ensures
        r == nexinets_attempt_status(status, method),
{
    match status {
        NexinetsPaymentStatus::Success => match method {
            NexinetsTransactionType::Preauth => AttemptStatus::Authorized,
            NexinetsTransactionType::Debit | NexinetsTransactionType::Capture => {
                AttemptStatus::Charged
            },
            NexinetsTransactionType::Cancel => AttemptStatus::Voided,
        },
        NexinetsPaymentStatus::Declined
        | NexinetsPaymentStatus::Failure
        | NexinetsPaymentStatus::Expired
        | NexinetsPaymentStatus::Aborted => match method {
            NexinetsTransactionType::Preauth => AttemptStatus::AuthorizationFailed,
            NexinetsTransactionType::Debit | NexinetsTransactionType::Capture => {
                AttemptStatus::CaptureFailed
            },
            NexinetsTransactionType::Cancel => AttemptStatus::VoidFailed,
        },
        NexinetsPaymentStatus::Okay => match method {
            NexinetsTransactionType::Preauth => AttemptStatus::Authorized,
            _ => AttemptStatus::Pending,
        },
        NexinetsPaymentStatus::Pending => AttemptStatus::AuthenticationPending,
        NexinetsPaymentStatus::InProgress => AttemptStatus::Pending,
    }
}

/// Every state of Nexinets stands, for every kind of transaction, for a
/// state of the machine that all connectors share: the mapping has no gap.
pub proof fn lemma_nexinets_status_mapping_total(
    status: NexinetsPaymentStatus,
    method: NexinetsTransactionType,
)
    ensures
        nexinets_attempt_status(status, method).is_shared_state(),
{
}

/// The identifier code of a bank that Nexinets reaches through iDEAL.
pub open spec fn bank_bic(bank: BankNames) -> Option<NexinetsBIC> {
    match bank {
        BankNames::AbnAmro => Some(NexinetsBIC::AbnAmro),
        BankNames::AsnBank => Some(NexinetsBIC::AsnBank),
        BankNames::Bunq => Some(NexinetsBIC::Bunq),
        BankNames::Ing => Some(NexinetsBIC::Ing),
        BankNames::Knab => Some(NexinetsBIC::Knab),
        BankNames::Rabobank => Some(NexinetsBIC::Rabobank),
        BankNames::Regiobank => Some(NexinetsBIC::Regiobank),
        BankNames::SnsBank => Some(NexinetsBIC::SnsBank),
        BankNames::TriodosBank => Some(NexinetsBIC::TriodosBank),
        BankNames::VanLanschot => Some(NexinetsBIC::VanLanschot),
        _ => None,
    }
}

/// The error that says that Nexinets does not reach the bank `bank`.
pub open spec fn bank_not_supported(bank: BankNames) -> ConnectorErrorView {
    ConnectorErrorView::FlowNotSupported { flow: bank.name_spec(), connector: "Nexinets"@ }
}

impl NexinetsBIC {
    /// The identifier code of `bank`; a bank that Nexinets does not reach is refused.
    pub fn try_from(bank: &BankNames) -> (r: Result<Self, ConnectorError>)
        ensures
            match bank_bic(*bank) {
                Some(bic) => r matches Ok(found) && found == bic,
                None => r matches Err(e) && e@ == bank_not_supported(*bank),
            },
    {
        match bank {
            BankNames::AbnAmro => Ok(NexinetsBIC::AbnAmro),
            BankNames::AsnBank => Ok(NexinetsBIC::AsnBank),
            BankNames::Bunq => Ok(NexinetsBIC::Bunq),
            BankNames::Ing => Ok(NexinetsBIC::Ing),
            BankNames::Knab => Ok(NexinetsBIC::Knab),
            BankNames::Rabobank => Ok(NexinetsBIC::Rabobank),
            BankNames::Regiobank => Ok(NexinetsBIC::Regiobank),
            BankNames::SnsBank => Ok(NexinetsBIC::SnsBank),
            BankNames::TriodosBank => Ok(NexinetsBIC::TriodosBank),
            BankNames::VanLanschot => Ok(NexinetsBIC::VanLanschot),
            _ => Err(
                ConnectorError::FlowNotSupported {
                    flow: bank.to_string(),
                    connector: String::from_str("Nexinets"),
                },
            ),
        }
    }
}

/// The card of `req_card` with a year of two digits.
pub fn get_card_details(req_card: &Card) -> (r: Result<CardDetails, ConnectorError>)
    ensures
        req_card.card_exp_year@.len() < 2 ==> (r matches Err(e) && e@
            == ConnectorErrorView::RequestEncodingFailed),
        req_card.card_exp_year@.len() >= 2 ==> (r matches Ok(details) && is_card_details_of(
            details,
            *req_card,
        )),
{
    Ok(
        CardDetails {
            card_number: req_card.card_number.clone(),
            expiry_month: req_card.card_exp_month.clone(),
            expiry_year: req_card.get_card_expiry_year_2_digit()?,
            verification: req_card.card_cvc.clone(),
        },
    )
}

/// Whether `details` are the card `card` with a year of two digits.
pub open spec fn is_card_details_of(details: CardDetails, card: Card) -> bool {
    &&& details.card_number == card.card_number
    &&& details.expiry_month == card.card_exp_month
    &&& details.expiry_year@ == two_digit_year(card.card_exp_year@)
    &&& details.verification == card.card_cvc
}

/// Whether the payment is made with a stored instrument in place of the
/// card: a mandate payment without the customer in the session.
pub open spec fn pays_with_instrument(data: PaymentsAuthorizeRouterData) -> bool {
    data.request.is_mandate_payment_spec() && data.request.off_session == Some(true)
}

/// Whether `details` are what Nexinets is told of the card `card` in the
/// context `data`. A mandate payment comes with a card-on-file contract, and
/// without the customer in the session it names the stored instrument in
/// place of the card.
pub open spec fn is_card_data_of(
    details: NexiCardDetails,
    card: Card,
    data: PaymentsAuthorizeRouterData,
) -> bool {
    &&& details.cof_contract == if data.request.is_mandate_payment_spec() {
        Some(CofContract { recurring_type: RecurringType::Unscheduled })
    } else {
        None
    }
    &&& if pays_with_instrument(data) {
        &&& details.card_data matches CardDataDetails::PaymentInstrument(instrument)
        &&& instrument.payment_instrument_id is Some
            <==> data.request.connector_mandate_id_spec() is Some
        &&& instrument.payment_instrument_id matches Some(id) ==> id@
            == data.request.connector_mandate_id_spec()->0@
    } else {
        &&& details.card_data matches CardDataDetails::CardDetails(sent)
        &&& is_card_details_of(*sent, card)
    }
}

/// What Nexinets is told of a card payment.
pub fn get_card_data(item: &PaymentsAuthorizeRouterData, card: &Card) -> (r: Result<
    NexinetsPaymentDetails,
    ConnectorError,
>)
    ensures
        !pays_with_instrument(*item) && card.card_exp_year@.len() < 2 ==> (r matches Err(e) && e@
            == ConnectorErrorView::RequestEncodingFailed),
        pays_with_instrument(*item) || card.card_exp_year@.len() >= 2 ==> (r matches Ok(
            NexinetsPaymentDetails::Card(details),
        ) && is_card_data_of(*details, *card, *item)),
{
    let (card_data, cof_contract) = match item.request.is_mandate_payment() {
        true => {
            let card_data = match item.request.off_session {
                Some(true) => CardDataDetails::PaymentInstrument(
                    Box::new(
                        PaymentInstrument {
                            payment_instrument_id: match item.request.connector_mandate_id() {
                                Some(id) => Some(Secret::new(id)),
                                None => None,
                            },
                        },
                    ),
                ),
                _ => CardDataDetails::CardDetails(Box::new(get_card_details(card)?)),
            };
            let cof_contract = Some(CofContract { recurring_type: RecurringType::Unscheduled });
            (card_data, cof_contract)
        },
        false => (CardDataDetails::CardDetails(Box::new(get_card_details(card)?)), None),
    };
    Ok(NexinetsPaymentDetails::Card(Box::new(NexiCardDetails { card_data, cof_contract })))
}

/// Whether `details` are the Apple Pay payment `applepay_data` with the token `token`.
pub open spec fn is_applepay_details_of(
    details: ApplePayDetails,
    applepay_data: ApplePayWalletData,
    token: Seq<char>,
) -> bool {
    &&& details.payment_data@ == token
    &&& details.payment_method.display_name == applepay_data.payment_method.display_name
    &&& details.payment_method.network == applepay_data.payment_method.network
    &&& details.payment_method.token_type == applepay_data.payment_method.pm_type
    &&& details.transaction_identifier == applepay_data.transaction_identifier
}

/// What Nexinets is told of an Apple Pay payment: the token as JSON, and
/// what Apple Pay says of the card.
pub fn get_applepay_details(wallet_data: &WalletData, applepay_data: &ApplePayWalletData) -> (r:
    Result<ApplePayDetails, ConnectorError>)
    ensures
        match wallet_token_json(*wallet_data, "Apple Pay"@) {
            Ok(token) => r matches Ok(details) && is_applepay_details_of(
                details,
                *applepay_data,
                token,
            ),
            Err(error) => r matches Err(e) && e@ == error,
        },
{
    let payment_data = wallet_data.get_wallet_token_as_json(String::from_str("Apple Pay"))?;
    Ok(
        ApplePayDetails {
            payment_data,
            payment_method: ApplepayPaymentMethod {
                display_name: applepay_data.payment_method.display_name.clone(),
                network: applepay_data.payment_method.network.clone(),
                token_type: applepay_data.payment_method.pm_type.clone(),
            },
            transaction_identifier: applepay_data.transaction_identifier.clone(),
        },
    )
}

/// The error that says that Nexinets does not implement a payment method.
pub open spec fn nexinets_not_implemented() -> ConnectorErrorView {
    not_implemented(unimplemented_payment_method_message("nexinets"@))
}

/// The wallets that Nexinets takes.
pub open spec fn nexinets_supports_wallet(wallet: WalletData) -> bool {
    wallet is PaypalRedirect || wallet is ApplePay
}

/// Why no wallet details can be built, if they cannot.
pub open spec fn wallet_details_error(wallet: WalletData) -> Option<ConnectorErrorView> {
    match wallet {
        WalletData::PaypalRedirect => None,
        WalletData::ApplePay(_) => match wallet_token_json(wallet, "Apple Pay"@) {
            Ok(_) => None,
            Err(error) => Some(error),
        },
        _ => Some(nexinets_not_implemented()),
    }
}

/// What Nexinets is told of a wallet payment, and the product that pays it.
/// Nexinets takes PayPal and Apple Pay; every other wallet is not implemented.
pub fn get_wallet_details(wallet: &WalletData) -> (r: Result<
    (Option<NexinetsPaymentDetails>, NexinetsProduct),
    ConnectorError,
>)
    ensures
        match wallet_details_error(*wallet) {
            Some(error) => r matches Err(e) && e@ == error,
            None => r matches Ok(pair) && match *wallet {
                WalletData::ApplePay(applepay_data) => {
                    &&& pair.1 == NexinetsProduct::Applepay
                    &&& pair.0 matches Some(NexinetsPaymentDetails::Wallet(details))
                    &&& *details matches NexinetsWalletDetails::ApplePayToken(token)
                    &&& is_applepay_details_of(
                        *token,
                        applepay_data,
                        wallet_token_json(*wallet, "Apple Pay"@)->Ok_0,
                    )
                },
                _ => pair.1 == NexinetsProduct::Paypal && pair.0 is None,
            },
        },
{
    match wallet {
        WalletData::PaypalRedirect => Ok((None, NexinetsProduct::Paypal)),
        WalletData::ApplePay(applepay_data) => Ok(
            (
                Some(
                    NexinetsPaymentDetails::Wallet(
                        Box::new(
                            NexinetsWalletDetails::ApplePayToken(
                                Box::new(get_applepay_details(wallet, applepay_data)?),
                            ),
                        ),
                    ),
                ),
                NexinetsProduct::Applepay,
            ),
        ),
        WalletData::AliPayQr
        | WalletData::AliPayRedirect
        | WalletData::AliPayHkRedirect
        | WalletData::AmazonPayRedirect
        | WalletData::Paysera
        | WalletData::Skrill
        | WalletData::BluecodeRedirect
        | WalletData::MomoRedirect
        | WalletData::KakaoPayRedirect
        | WalletData::GoPayRedirect
        | WalletData::GcashRedirect
        | WalletData::ApplePayRedirect
        | WalletData::ApplePayThirdPartySdk
        | WalletData::DanaRedirect
        | WalletData::GooglePay(_)
        | WalletData::GooglePayRedirect
        | WalletData::GooglePayThirdPartySdk
        | WalletData::MbWayRedirect
        | WalletData::MobilePayRedirect
        | WalletData::PaypalSdk
        | WalletData::Paze
        | WalletData::SamsungPay
        | WalletData::TwintRedirect
        | WalletData::VippsRedirect
        | WalletData::TouchNGoRedirect
        | WalletData::WeChatPayRedirect
        | WalletData::WeChatPayQr
        | WalletData::CashappQr
        | WalletData::SwishQr
        | WalletData::Mifinity
        | WalletData::RevolutPay => Err(
            ConnectorError::NotImplemented(
                get_unimplemented_payment_method_error_message("nexinets"),
            ),
        ),
    }
}

/// The product that pays with `method`, for the payment methods that
/// Nexinets takes.
pub open spec fn product_of(method: PaymentMethodData) -> Option<NexinetsProduct> {
    match method {
        PaymentMethodData::Card(_) => Some(NexinetsProduct::Creditcard),
        PaymentMethodData::Wallet(WalletData::PaypalRedirect) => Some(NexinetsProduct::Paypal),
        PaymentMethodData::Wallet(WalletData::ApplePay(_)) => Some(NexinetsProduct::Applepay),
        PaymentMethodData::BankRedirect(BankRedirectData::Eps) => Some(NexinetsProduct::Eps),
        PaymentMethodData::BankRedirect(BankRedirectData::Giropay { .. }) => Some(
            NexinetsProduct::Giropay,
        ),
        PaymentMethodData::BankRedirect(BankRedirectData::Ideal { .. }) => Some(
            NexinetsProduct::Ideal,
        ),
        PaymentMethodData::BankRedirect(BankRedirectData::Sofort) => Some(NexinetsProduct::Sofort),
        _ => None,
    }
}

/// The bank that the customer chose for iDEAL.
pub open spec fn chosen_bank(method: PaymentMethodData) -> Option<BankNames> {
    match method {
        PaymentMethodData::BankRedirect(BankRedirectData::Ideal { bank_name }) => bank_name,
        _ => None,
    }
}

/// Why no payment details can be built, if they cannot.
pub open spec fn payment_details_error(data: PaymentsAuthorizeRouterData) -> Option<
    ConnectorErrorView,
> {
    let method = data.request.payment_method_data;
    if product_of(method) is None {
        Some(nexinets_not_implemented())
    } else {
        match method {
            PaymentMethodData::Card(card) => if !pays_with_instrument(data)
                && card.card_exp_year@.len() < 2 {
                Some(ConnectorErrorView::RequestEncodingFailed)
            } else {
                None
            },
            PaymentMethodData::Wallet(wallet) => wallet_details_error(wallet),
            _ => match chosen_bank(method) {
                Some(bank) => if bank_bic(bank) is None {
                    Some(bank_not_supported(bank))
                } else {
                    None
                },
                None => None,
            },
        }
    }
}

/// Whether `payment` is what Nexinets is told of the payment method of `data`.
pub open spec fn is_payment_details_of(
    payment: Option<NexinetsPaymentDetails>,
    data: PaymentsAuthorizeRouterData,
) -> bool {
    match data.request.payment_method_data {
        PaymentMethodData::Card(card) => {
            &&& payment matches Some(NexinetsPaymentDetails::Card(details))
            &&& is_card_data_of(*details, card, data)
        },
        PaymentMethodData::Wallet(WalletData::ApplePay(applepay_data)) => {
            &&& payment matches Some(NexinetsPaymentDetails::Wallet(details))
            &&& *details matches NexinetsWalletDetails::ApplePayToken(token)
            &&& is_applepay_details_of(
                *token,
                applepay_data,
                wallet_token_json(WalletData::ApplePay(applepay_data), "Apple Pay"@)->Ok_0,
            )
        },
        PaymentMethodData::BankRedirect(BankRedirectData::Ideal { bank_name }) => {
            &&& payment matches Some(NexinetsPaymentDetails::BankRedirects(redirect))
            &&& redirect.bic == match bank_name {
                Some(bank) => bank_bic(bank),
                None => None,
            }
        },
        _ => payment is None,
    }
}

/// What Nexinets is told of the payment method, and the product that pays.
/// Nexinets takes cards, PayPal, Apple Pay, EPS, giropay, iDEAL and Sofort;
/// for everything else the request is refused as not implemented.
pub fn get_payment_details_and_product(item: &PaymentsAuthorizeRouterData) -> (r: Result<
    (Option<NexinetsPaymentDetails>, NexinetsProduct),
    ConnectorError,
>)
    ensures
        match payment_details_error(*item) {
            Some(error) => r matches Err(e) && e@ == error,
            None => r matches Ok(pair) && Some(pair.1) == product_of(
                item.request.payment_method_data,
            ) && is_payment_details_of(pair.0, *item),
        },
{
    match &item.request.payment_method_data {
        PaymentMethodData::Card(card) => Ok(
            (Some(get_card_data(item, card)?), NexinetsProduct::Creditcard),
        ),
        PaymentMethodData::Wallet(wallet) => Ok(get_wallet_details(wallet)?),
        PaymentMethodData::BankRedirect(bank_redirect) => match bank_redirect {
            BankRedirectData::Eps => Ok((None, NexinetsProduct::Eps)),
            BankRedirectData::Giropay { .. } => Ok((None, NexinetsProduct::Giropay)),
            BankRedirectData::Ideal { bank_name } => {
                let bic = match bank_name {
                    Some(bank) => Some(NexinetsBIC::try_from(bank)?),
                    None => None,
                };
                Ok(
                    (
                        Some(
                            NexinetsPaymentDetails::BankRedirects(
                                Box::new(NexinetsBankRedirects { bic }),
                            ),
                        ),
                        NexinetsProduct::Ideal,
                    ),
                )
            },
            BankRedirectData::Sofort => Ok((None, NexinetsProduct::Sofort)),
            BankRedirectData::BancontactCard
            | BankRedirectData::Blik
            | BankRedirectData::Bizum
            | BankRedirectData::Eft
            | BankRedirectData::Interac
            | BankRedirectData::OnlineBankingCzechRepublic
            | BankRedirectData::OnlineBankingFinland
            | BankRedirectData::OnlineBankingPoland
            | BankRedirectData::OnlineBankingSlovakia
            | BankRedirectData::OpenBankingUk
            | BankRedirectData::Przelewy24
            | BankRedirectData::Trustly
            | BankRedirectData::OnlineBankingFpx
            | BankRedirectData::OnlineBankingThailand
            | BankRedirectData::LocalBankRedirect => Err(
                ConnectorError::NotImplemented(
                    get_unimplemented_payment_method_error_message("nexinets"),
                ),
            ),
        },
        PaymentMethodData::CardRedirect
        | PaymentMethodData::PayLater(_)
        | PaymentMethodData::BankDebit
        | PaymentMethodData::BankTransfer
        | PaymentMethodData::Crypto
        | PaymentMethodData::MandatePayment
        | PaymentMethodData::Reward
        | PaymentMethodData::RealTimePayment
        | PaymentMethodData::MobilePayment
        | PaymentMethodData::Upi
        | PaymentMethodData::Voucher
        | PaymentMethodData::GiftCard
        | PaymentMethodData::OpenBanking
        | PaymentMethodData::CardToken
        | PaymentMethodData::NetworkToken(_)
        | PaymentMethodData::CardDetailsForNetworkTransactionId => Err(
            ConnectorError::NotImplemented(
                get_unimplemented_payment_method_error_message("nexinets"),
            ),
        ),
    }
}

impl NexinetsPaymentsRequest {
    /// Builds the payment request. The customer returns to the same address
    /// whatever the outcome, and only a card payment names the order of the
    /// merchant.
    pub fn try_from(item: &PaymentsAuthorizeRouterData) -> (r: Result<Self, ConnectorError>)
        ensures
            match payment_details_error(*item) {
                Some(error) => r matches Err(e) && e@ == error,
                None => {
                    &&& r matches Ok(request)
                    &&& request.initial_amount == item.request.amount
                    &&& request.currency == item.request.currency
                    &&& request.channel == NexinetsChannel::Ecom
                    &&& Some(request.product) == product_of(item.request.payment_method_data)
                    &&& is_payment_details_of(request.payment, *item)
                    &&& request.nexinets_async.success_url == item.request.router_return_url
                    &&& request.nexinets_async.cancel_url == item.request.router_return_url
                    &&& request.nexinets_async.failure_url == item.request.router_return_url
                    &&& request.merchant_order_id == if item.payment_method == PaymentMethod::Card {
                        Some(item.connector_request_reference_id)
                    } else {
                        None
                    }
                },
            },
    {
        let nexinets_async = NexinetsAsyncDetails {
            success_url: clone_optional_string(&item.request.router_return_url),
            cancel_url: clone_optional_string(&item.request.router_return_url),
            failure_url: clone_optional_string(&item.request.router_return_url),
        };
        let (payment, product) = get_payment_details_and_product(item)?;
        let merchant_order_id = match item.payment_method {
            // Merchant order id is sent only in case of card payment
            PaymentMethod::Card => Some(item.connector_request_reference_id.clone()),
            _ => None,
        };
        Ok(
            NexinetsPaymentsRequest {
                initial_amount: item.request.amount,
                currency: item.request.currency,
                channel: NexinetsChannel::Ecom,
                product,
                payment,
                nexinets_async,
                merchant_order_id,
            },
        )
    }
}

/// Whatever the customer pays with, the request is built or it is refused as
/// not implemented: a payment method that Nexinets takes is never refused as
/// not implemented, and one that it does not take is never encoded. Left out
/// are only the requests that are refused for another reason: a card year
/// that cannot be encoded, a wallet token that cannot be read, or a bank
/// that Nexinets does not reach.
pub proof fn lemma_nexinets_payment_method_coverage(data: PaymentsAuthorizeRouterData)
    requires
        payment_details_error(data) != Some(ConnectorErrorView::RequestEncodingFailed),
        !(payment_details_error(data) matches Some(
            ConnectorErrorView::InvalidWalletToken { .. },
        )),
        !(payment_details_error(data) matches Some(ConnectorErrorView::FlowNotSupported { .. })),
    ensures
        product_of(data.request.payment_method_data) is Some ==> payment_details_error(data)
            is None,
        product_of(data.request.payment_method_data) is None ==> payment_details_error(data)
            matches Some(ConnectorErrorView::NotImplemented(_)),
{
}

/// One transaction of an order.
#[derive(Clone, Debug, PartialEq, Eq)]
pub struct NexinetsTransaction {
    pub transaction_id: String,
    pub transaction_type: NexinetsTransactionType,
    pub currency: Currency,
    pub status: NexinetsPaymentStatus,
}

/// Nexinets' answer to a request to authorize or debit a payment.
#[derive(Clone, PartialEq, Eq)]
pub struct NexinetsPreAuthOrDebitResponse {
    pub order_id: String,
    pub transaction_type: NexinetsTransactionType,
    pub transactions: Vec<NexinetsTransaction>,
    pub payment_instrument: PaymentInstrument,
    pub redirect_url: Option<String>,
}

/// What is kept about a payment between two calls.
#[derive(Clone, Debug, PartialEq, Eq)]
pub struct NexinetsPaymentsMetadata {
    pub transaction_id: Option<String>,
    pub order_id: Option<String>,
    pub psync_flow: NexinetsTransactionType,
}

/// The name of a kind of transaction on the wire.
pub open spec fn transaction_type_name(kind: NexinetsTransactionType) -> Seq<char> {
    match kind {
        NexinetsTransactionType::Preauth => "PREAUTH"@,
        NexinetsTransactionType::Debit => "DEBIT"@,
        NexinetsTransactionType::Capture => "CAPTURE"@,
        NexinetsTransactionType::Cancel => "CANCEL"@,
    }
}

/// The JSON text of the metadata of a payment that is known by a
/// transaction and an order.
pub open spec fn metadata_text(
    transaction_id: Seq<char>,
    order_id: Seq<char>,
    psync_flow: NexinetsTransactionType,
) -> Seq<char> {
    json_object_text_of(
        seq![
            ("transaction_id"@, transaction_id),
            ("order_id"@, order_id),
            ("psync_flow"@, transaction_type_name(psync_flow)),
        ],
    )
}

impl NexinetsTransactionType {
    /// The name of the kind of transaction on the wire.
    pub fn name(self) -> (r: &'static str)
        ensures
            r@ == transaction_type_name(self),
    {
        match self {
            NexinetsTransactionType::Preauth => "PREAUTH",
            NexinetsTransactionType::Debit => "DEBIT",
            NexinetsTransactionType::Capture => "CAPTURE",
            NexinetsTransactionType::Cancel => "CANCEL",
        }
    }
}

/// The JSON text of the metadata of a payment.
pub fn metadata_json(transaction_id: &String, order_id: &String, psync_flow: NexinetsTransactionType) -> (r:
    String)
    ensures
        r@ == metadata_text(transaction_id@, order_id@, psync_flow),
{
    let mut members: Vec<(String, String)> = Vec::new();
    members.push((String::from_str("transaction_id"), transaction_id.clone()));
    members.push((String::from_str("order_id"), order_id.clone()));
    members.push((String::from_str("psync_flow"), String::from_str(psync_flow.name())));
    proof {
        assert(pairs_view(members@) =~= seq![
            ("transaction_id"@, transaction_id@),
            ("order_id"@, order_id@),
            ("psync_flow"@, transaction_type_name(psync_flow)),
        ]);
    }
    json_object_text(&members)
}

/// Whether an answer to a request to authorize or debit can be handled: it
/// has a transaction, it answers an authorization or a debit, and its
/// redirect, if it has one, is a URL.
pub open spec fn preauth_or_debit_handled(response: NexinetsPreAuthOrDebitResponse) -> bool {
    &&& response.transactions@.len() > 0
    &&& response.transaction_type == NexinetsTransactionType::Preauth || response.transaction_type
        == NexinetsTransactionType::Debit
    &&& response.redirect_url matches Some(url) ==> url_normal_form(url@) is Some
}

/// Translates Nexinets' answer to a request to authorize or debit. The first
/// transaction tells the state. A debit is known by its transaction; an
/// authorization is not known by any identifier yet. A redirect is followed
/// with a GET request, and takes priority over a reported success.
pub fn parse_preauth_or_debit_response<Req>(
    item: ResponseRouterData<NexinetsPreAuthOrDebitResponse, Req, PaymentsResponseData>,
) -> (r: Result<RouterData<Req, PaymentsResponseData>, ConnectorError>)
    ensures
        !preauth_or_debit_handled(item.response) ==> (r matches Err(e) && e@
            == ConnectorErrorView::ResponseHandlingFailed),
        preauth_or_debit_handled(item.response) ==> {
            &&& r matches Ok(data)
            &&& data.carries_rest_of(item.data)
            &&& data.status == with_redirect_priority(
                nexinets_attempt_status(
                    item.response.transactions@[0].status,
                    item.response.transaction_type,
                ),
                item.response.redirect_url is Some,
            )
            &&& data.response matches Ok(
                PaymentsResponseData::TransactionResponse {
                    resource_id,
                    redirection_data,
                    mandate_reference,
                    connector_metadata,
                    network_txn_id,
                    connector_response_reference_id,
                    incremental_authorization_allowed,
                },
            )
            &&& resource_id == if item.response.transaction_type
                == NexinetsTransactionType::Preauth {
                ResponseId::NoResponseId
            } else {
                ResponseId::ConnectorTransactionId(item.response.transactions@[0].transaction_id)
            }
            &&& connector_response_reference_id == Some(item.response.order_id)
            &&& connector_metadata matches Some(metadata)
            &&& metadata@ == metadata_text(
                item.response.transactions@[0].transaction_id@,
                item.response.order_id@,
                item.response.transaction_type,
            )
            &&& network_txn_id is None
            &&& incremental_authorization_allowed is None
            &&& redirection_data is Some <==> item.response.redirect_url is Some
            &&& redirection_data matches Some(form) ==> form.is_get_redirect(
                url_normal_form(item.response.redirect_url->0@)->0,
            )
            &&& mandate_reference is Some
                <==> item.response.payment_instrument.payment_instrument_id is Some
            &&& mandate_reference matches Some(reference) ==> mandate_reference_of(
                item.response.payment_instrument.payment_instrument_id->0@,
                reference,
            )
        },
{
    let ResponseRouterData { response, data, http_code: _ } = item;
    if response.transactions.len() == 0 {
        return Err(ConnectorError::ResponseHandlingFailed);
    }
    let transaction = &response.transactions[0];
    let connector_metadata = metadata_json(
        &transaction.transaction_id,
        &response.order_id,
        response.transaction_type,
    );
    let redirection_data = match &response.redirect_url {
        Some(url) => match redirect_form_from_url(url.as_str(), Method::Get) {
            Some(form) => Some(form),
            None => {
                return Err(ConnectorError::ResponseHandlingFailed);
            },
        },
        None => None,
    };
    let resource_id = match response.transaction_type {
        NexinetsTransactionType::Preauth => ResponseId::NoResponseId,
        NexinetsTransactionType::Debit => ResponseId::ConnectorTransactionId(
            transaction.transaction_id.clone(),
        ),
        _ => {
            return Err(ConnectorError::ResponseHandlingFailed);
        },
    };
    let status = apply_redirect_priority(
        get_status(transaction.status, response.transaction_type),
        redirection_data.is_some(),
    );
    let mandate_reference = match response.payment_instrument.payment_instrument_id {
        Some(id) => Some(mandate_reference_from_id(id.expose())),
        None => None,
    };
    Ok(
        data.with_response(
            status,
            Ok(
                PaymentsResponseData::TransactionResponse {
                    resource_id,
                    redirection_data,
                    mandate_reference,
                    connector_metadata: Some(connector_metadata),
                    network_txn_id: None,
                    connector_response_reference_id: Some(response.order_id),
                    incremental_authorization_allowed: None,
                },
            ),
        ),
    )
}

impl<Req> TryFrom<ResponseRouterData<NexinetsPreAuthOrDebitResponse, Req, PaymentsResponseData>> for RouterData<Req, PaymentsResponseData> {
    type Error = ConnectorError;

    /// Translates Nexinets' answer to a request to authorize or debit, as
    /// `parse_preauth_or_debit_response` does.
    fn try_from(item: ResponseRouterData<NexinetsPreAuthOrDebitResponse, Req, PaymentsResponseData>) -> (r: Result<Self, Self::Error>)
        ensures
            !preauth_or_debit_handled(item.response) ==> (r matches Err(e) && e@
                == ConnectorErrorView::ResponseHandlingFailed),
            preauth_or_debit_handled(item.response) ==> {
                &&& r matches Ok(data)
                &&& data.carries_rest_of(item.data)
                &&& data.status == with_redirect_priority(
                    nexinets_attempt_status(
                        item.response.transactions@[0].status,
                        item.response.transaction_type,
                    ),
                    item.response.redirect_url is Some,
                )
                &&& data.response matches Ok(
                    PaymentsResponseData::TransactionResponse {
                        resource_id,
                        redirection_data,
                        mandate_reference,
                        connector_metadata,
                        network_txn_id,
                        connector_response_reference_id,
                        incremental_authorization_allowed,
                    },
                )
                &&& resource_id == if item.response.transaction_type
                    == NexinetsTransactionType::Preauth {
                    ResponseId::NoResponseId
                } else {
                    ResponseId::ConnectorTransactionId(item.response.transactions@[0].transaction_id)
                }
                &&& connector_response_reference_id == Some(item.response.order_id)
                &&& connector_metadata matches Some(metadata)
                &&& metadata@ == metadata_text(
                    item.response.transactions@[0].transaction_id@,
                    item.response.order_id@,
                    item.response.transaction_type,
                )
                &&& network_txn_id is None
                &&& incremental_authorization_allowed is None
                &&& redirection_data is Some <==> item.response.redirect_url is Some
                &&& redirection_data matches Some(form) ==> form.is_get_redirect(
                    url_normal_form(item.response.redirect_url->0@)->0,
                )
                &&& mandate_reference is Some
                    <==> item.response.payment_instrument.payment_instrument_id is Some
                &&& mandate_reference matches Some(reference) ==> mandate_reference_of(
                    item.response.payment_instrument.payment_instrument_id->0@,
                    reference,
                )
            },
    {
        parse_preauth_or_debit_response(item)
    }
}

/// What `try_from` returns is stated by its own clauses, over the texts that
/// the result holds, and not as one value.
impl<Req> vstd::std_specs::convert::TryFromSpecImpl<ResponseRouterData<NexinetsPreAuthOrDebitResponse, Req, PaymentsResponseData>> for RouterData<Req, PaymentsResponseData> {
    open spec fn obeys_try_from_spec() -> bool {
        false
    }

    open spec fn try_from_spec(item: ResponseRouterData<NexinetsPreAuthOrDebitResponse, Req, PaymentsResponseData>) -> Result<Self, Self::Error> {
        arbitrary()
    }
}

/// The request to capture or to void an authorized payment.
#[derive(Clone, Copy, Debug, PartialEq, Eq, Structural)]
pub struct NexinetsCaptureOrVoidRequest {
    pub initial_amount: i64,
    pub currency: Currency,
}

impl NexinetsCaptureOrVoidRequest {
    /// The request to capture the amount of `item`.
    pub fn try_from(item: &PaymentsCaptureRouterData) -> (r: Result<Self, ConnectorError>)
        ensures
            r matches Ok(request) && request.initial_amount == item.request.amount_to_capture
                && request.currency == item.request.currency,
    {
        Ok(
            NexinetsCaptureOrVoidRequest {
                initial_amount: item.request.amount_to_capture,
                currency: item.request.currency,
            },
        )
    }

    /// The request to void the payment of `item`; the amount is asked for
    /// before the currency.
    pub fn try_from_cancel(item: &PaymentsCancelRouterData) -> (r: Result<Self, ConnectorError>)
        ensures
            match (item.request.amount, item.request.currency) {
                (None, _) => r matches Err(e) && e@ == missing_field("amount"@),
                (Some(_), None) => r matches Err(e) && e@ == missing_field("currency"@),
                (Some(amount), Some(currency)) => r matches Ok(request) && request.initial_amount
                    == amount && request.currency == currency,
            },
    {
        Ok(
            NexinetsCaptureOrVoidRequest {
                initial_amount: item.request.get_amount()?,
                currency: item.request.get_currency()?,
            },
        )
    }
}

/// The order of a transaction.
#[derive(Clone, Debug, PartialEq, Eq)]
pub struct NexinetsOrder {
    pub order_id: String,
}

/// Nexinets' answer to a request to capture or void a payment, or for its state.
#[derive(Clone, Debug, PartialEq, Eq)]
pub struct NexinetsPaymentResponse {
    pub transaction_id: String,
    pub status: NexinetsPaymentStatus,
    pub order: NexinetsOrder,
    pub transaction_type: NexinetsTransactionType,
}

/// Translates Nexinets' answer about one transaction. A debit and a capture
/// are known by their transaction; an authorization and a void are not.
pub fn parse_payment_response<Req>(
    item: ResponseRouterData<NexinetsPaymentResponse, Req, PaymentsResponseData>,
) -> (r: Result<RouterData<Req, PaymentsResponseData>, ConnectorError>)
    ensures
        r matches Ok(data) && {
            &&& data.carries_rest_of(item.data)
            &&& data.status == nexinets_attempt_status(
                item.response.status,
                item.response.transaction_type,
            )
            &&& data.response matches Ok(
                PaymentsResponseData::TransactionResponse {
                    resource_id,
                    redirection_data,
                    mandate_reference,
                    connector_metadata,
                    network_txn_id,
                    connector_response_reference_id,
                    incremental_authorization_allowed,
                },
            )
            &&& resource_id == if item.response.transaction_type == NexinetsTransactionType::Debit
                || item.response.transaction_type == NexinetsTransactionType::Capture {
                ResponseId::ConnectorTransactionId(item.response.transaction_id)
            } else {
                ResponseId::NoResponseId
            }
            &&& connector_response_reference_id == Some(item.response.order.order_id)
            &&& connector_metadata matches Some(metadata)
            &&& metadata@ == metadata_text(
                item.response.transaction_id@,
                item.response.order.order_id@,
                item.response.transaction_type,
            )
            &&& redirection_data is None
            &&& mandate_reference is None
            &&& network_txn_id is None
            &&& incremental_authorization_allowed is None
        },
{
    let ResponseRouterData { response, data, http_code: _ } = item;
    let connector_metadata = metadata_json(
        &response.transaction_id,
        &response.order.order_id,
        response.transaction_type,
    );
    let status = get_status(response.status, response.transaction_type);
    let resource_id = match response.transaction_type {
        NexinetsTransactionType::Debit | NexinetsTransactionType::Capture => {
            ResponseId::ConnectorTransactionId(response.transaction_id)
        },
        _ => ResponseId::NoResponseId,
    };
    Ok(
        data.with_response(
            status,
            Ok(
                PaymentsResponseData::TransactionResponse {
                    resource_id,
                    redirection_data: None,
                    mandate_reference: None,
                    connector_metadata: Some(connector_metadata),
                    network_txn_id: None,
                    connector_response_reference_id: Some(response.order.order_id),
                    incremental_authorization_allowed: None,
                },
            ),
        ),
    )
}

impl<Req> TryFrom<ResponseRouterData<NexinetsPaymentResponse, Req, PaymentsResponseData>> for RouterData<Req, PaymentsResponseData> {
    type Error = ConnectorError;

    /// Translates Nexinets' answer about one transaction, as
    /// `parse_payment_response` does.
    fn try_from(item: ResponseRouterData<NexinetsPaymentResponse, Req, PaymentsResponseData>) -> (r: Result<Self, Self::Error>)
        ensures
            r matches Ok(data) && {
                &&& data.carries_rest_of(item.data)
                &&& data.status == nexinets_attempt_status(
                    item.response.status,
                    item.response.transaction_type,
                )
                &&& data.response matches Ok(
                    PaymentsResponseData::TransactionResponse {
                        resource_id,
                        redirection_data,
                        mandate_reference,
                        connector_metadata,
                        network_txn_id,
                        connector_response_reference_id,
                        incremental_authorization_allowed,
                    },
                )
                &&& resource_id == if item.response.transaction_type == NexinetsTransactionType::Debit
                    || item.response.transaction_type == NexinetsTransactionType::Capture {
                    ResponseId::ConnectorTransactionId(item.response.transaction_id)
                } else {
                    ResponseId::NoResponseId
                }
                &&& connector_response_reference_id == Some(item.response.order.order_id)
                &&& connector_metadata matches Some(metadata)
                &&& metadata@ == metadata_text(
                    item.response.transaction_id@,
                    item.response.order.order_id@,
                    item.response.transaction_type,
                )
                &&& redirection_data is None
                &&& mandate_reference is None
                &&& network_txn_id is None
                &&& incremental_authorization_allowed is None
            },
    {
        parse_payment_response(item)
    }
}

/// What `try_from` returns is stated by its own clauses, over the texts that
/// the result holds, and not as one value.
impl<Req> vstd::std_specs::convert::TryFromSpecImpl<ResponseRouterData<NexinetsPaymentResponse, Req, PaymentsResponseData>> for RouterData<Req, PaymentsResponseData> {
    open spec fn obeys_try_from_spec() -> bool {
        false
    }

    open spec fn try_from_spec(item: ResponseRouterData<NexinetsPaymentResponse, Req, PaymentsResponseData>) -> Result<Self, Self::Error> {
        arbitrary()
    }
}

/// The request to refund a payment.
#[derive(Clone, Copy, Debug, PartialEq, Eq, Structural)]
pub struct NexinetsRefundRequest {
    pub initial_amount: i64,
    pub currency: Currency,
}

impl NexinetsRefundRequest {
    /// The request to refund the amount of `item`.
    pub fn try_from(item: &RefundsRouterData) -> (r: Result<Self, ConnectorError>)
        ensures
            r matches Ok(request) && request.initial_amount == item.request.refund_amount
                && request.currency == item.request.currency,
    {
        Ok(
            NexinetsRefundRequest {
                initial_amount: item.request.refund_amount,
                currency: item.request.currency,
            },
        )
    }
}

/// What Nexinets reports of a refund.
#[derive(Clone, Copy, Debug, PartialEq, Eq, Structural)]
pub enum RefundStatus {
    Success,
    /// The state that Nexinets calls `OK`.
    Okay,
    Failure,
    Declined,
    InProgress,
}

/// The kinds of refund transaction.
#[derive(Clone, Copy, Debug, PartialEq, Eq, Structural)]
pub enum RefundType {
    Refund,
}

/// The state of a refund that a state of Nexinets stands for.
pub open spec fn nexinets_refund_status(item: RefundStatus) -> RouterRefundStatus {
    match item {
        RefundStatus::Success => RouterRefundStatus::Success,
        RefundStatus::Failure | RefundStatus::Declined => RouterRefundStatus::Failure,
        RefundStatus::InProgress | RefundStatus::Okay => RouterRefundStatus::Pending,
    }
}

/// Every refund state of Nexinets stands for a state of the refund machine
/// that all connectors share.
pub proof fn lemma_nexinets_refund_status_mapping_total(item: RefundStatus)
    ensures
        nexinets_refund_status(item).is_shared_state(),
{
}

impl RefundStatus {
    /// The state of the refund that this state stands for.
    pub fn into_refund_status(self) -> (r: RouterRefundStatus)
        ensures
            r == nexinets_refund_status(self),
    {
        match self {
            RefundStatus::Success => RouterRefundStatus::Success,
            RefundStatus::Failure | RefundStatus::Declined => RouterRefundStatus::Failure,
            RefundStatus::InProgress | RefundStatus::Okay => RouterRefundStatus::Pending,
        }
    }
}

impl From<RefundStatus> for RouterRefundStatus {
    /// The state of the refund that a state of Nexinets stands for.
    fn from(item: RefundStatus) -> (r: Self) {
        item.into_refund_status()
    }
}

impl vstd::std_specs::convert::FromSpecImpl<RefundStatus> for RouterRefundStatus {
    open spec fn obeys_from_spec() -> bool {
        true
    }

    open spec fn from_spec(item: RefundStatus) -> Self {
        nexinets_refund_status(item)
    }
}

/// Nexinets' answer to a refund request or to a request for the state of a refund.
#[derive(Clone, Debug, PartialEq, Eq)]
pub struct NexinetsRefundResponse {
    pub transaction_id: String,
    pub status: RefundStatus,
    pub order: NexinetsOrder,
    pub transaction_type: RefundType,
}

/// Translates Nexinets' answer about a refund, whether it answers the refund
/// request or a request for the state of the refund.
pub fn parse_refund_response(
    item: ResponseRouterData<NexinetsRefundResponse, RefundsData, RefundsResponseData>,
) -> (r: Result<RefundsRouterData, ConnectorError>)
    ensures
        r matches Ok(data) && {
            &&& data.carries_rest_of(item.data)
            &&& data.status == item.data.status
            &&& data.response == Ok::<RefundsResponseData, ErrorResponse>(
                RefundsResponseData {
                    connector_refund_id: item.response.transaction_id,
                    refund_status: nexinets_refund_status(item.response.status),
                },
            )
        },
{
    let ResponseRouterData { response, data, http_code: _ } = item;
    let status = data.status;
    Ok(
        data.with_response(
            status,
            Ok(
                RefundsResponseData {
                    connector_refund_id: response.transaction_id,
                    refund_status: response.status.into_refund_status(),
                },
            ),
        ),
    )
}

impl TryFrom<ResponseRouterData<NexinetsRefundResponse, RefundsData, RefundsResponseData>> for RouterData<RefundsData, RefundsResponseData> {
    type Error = ConnectorError;

    /// Translates Nexinets' answer about a refund, as `parse_refund_response` does.
    fn try_from(item: ResponseRouterData<NexinetsRefundResponse, RefundsData, RefundsResponseData>) -> (r: Result<Self, Self::Error>)
        ensures
            r matches Ok(data) && {
                &&& data.carries_rest_of(item.data)
                &&& data.status == item.data.status
                &&& data.response == Ok::<RefundsResponseData, ErrorResponse>(
                    RefundsResponseData {
                        connector_refund_id: item.response.transaction_id,
                        refund_status: nexinets_refund_status(item.response.status),
                    },
                )
            },
    {
        parse_refund_response(item)
    }
}

/// What `try_from` returns is stated by its own clauses, over the texts that
/// the result holds, and not as one value.
impl vstd::std_specs::convert::TryFromSpecImpl<ResponseRouterData<NexinetsRefundResponse, RefundsData, RefundsResponseData>> for RouterData<RefundsData, RefundsResponseData> {
    open spec fn obeys_try_from_spec() -> bool {
        false
    }

    open spec fn try_from_spec(item: ResponseRouterData<NexinetsRefundResponse, RefundsData, RefundsResponseData>) -> Result<Self, Self::Error> {
        arbitrary()
    }
}

/// One fault that Nexinets found in an order.
#[derive(Clone, Debug, PartialEq, Eq)]
pub struct OrderErrorDetails {
    pub code: u16,
    pub message: String,
    pub field: Option<String>,
}

/// Nexinets' answer when it refuses a request.
#[derive(Clone, Debug, PartialEq, Eq)]
pub struct NexinetsErrorResponse {
    pub status: u16,
    pub code: u16,
    pub message: String,
    pub errors: Vec<OrderErrorDetails>,
}

/// The error that says that the metadata lack the reference `id`.
pub open spec fn missing_reference(id: Seq<char>) -> ConnectorErrorView {
    ConnectorErrorView::MissingConnectorRelatedTransactionID { id }
}

/// The order that the metadata of a payment name.
pub fn get_order_id(meta: &NexinetsPaymentsMetadata) -> (r: Result<String, ConnectorError>)
    ensures
        match meta.order_id {
            Some(id) => r == Ok::<String, ConnectorError>(id),
            None => r matches Err(e) && e@ == missing_reference("order_id"@),
        },
{
    match &meta.order_id {
        Some(id) => Ok(id.clone()),
        None => Err(
            ConnectorError::MissingConnectorRelatedTransactionID {
                id: String::from_str("order_id"),
            },
        ),
    }
}

/// The transaction that the metadata of a payment name.
pub fn get_transaction_id(meta: &NexinetsPaymentsMetadata) -> (r: Result<String, ConnectorError>)
    ensures
        match meta.transaction_id {
            Some(id) => r == Ok::<String, ConnectorError>(id),
            None => r matches Err(e) && e@ == missing_reference("transaction_id"@),
        },
{
    match &meta.transaction_id {
        Some(id) => Ok(id.clone()),
        None => Err(
            ConnectorError::MissingConnectorRelatedTransactionID {
                id: String::from_str("transaction_id"),
            },
        ),
    }
}

} // verus!
