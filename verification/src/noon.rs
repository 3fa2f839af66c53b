//! The Noon connector: orders with a short name and numbered metadata,
//! subscriptions for mandates, and states of which one keeps the attempt as
//! it was.

use vstd::prelude::*;
use crate::amount::StringMajorUnit;
use crate::enums::{
    apply_redirect_priority, is_refund_failure, with_redirect_priority, AttemptStatus, CountryAlpha2, Currency, MandateStatus, Method,
    RefundStatus as RouterRefundStatus,
};
use crate::errors::{
    get_unimplemented_payment_method_error_message, missing_field, not_implemented,
    unimplemented_payment_method_message, ConnectorError, ConnectorErrorView,
};
use crate::json::{
    get_value_as_string, is_json_object, json_member, json_member_of, json_object_members_of,
    json_string_member,
    json_string_member_of, object_members, value_as_text, JsonValue,
};
use crate::payment_method_data::{
    four_digit_year, wallet_token, ApplePayWalletData, CardNumber, GooglePayWalletData,
    PaymentMethodData, WalletData,
};
use crate::redirect::{normalize_url, url_normal_form, FormFields, RedirectForm};
use crate::router_data::{
    mandate_reference_from_id, mandate_reference_of, ConnectorAuthType, ErrorResponse,
    MandateRevokeRequestData, MandateRevokeResponseData, MandateRevokeRouterData,
    PaymentsAuthorizeRouterData, PaymentsCancelRouterData, PaymentsCaptureRouterData,
    PaymentsResponseData, RefundsData, RefundsResponseData, RefundsRouterData, ResponseId,
    ResponseRouterData, RouterData,
};
use crate::secret::{clone_optional_secret, Secret};
use crate::text::{
    chars_of, clone_optional_string, collapse_pairs_of_spaces, decimal_digits, first_chars,
    pairs_of_spaces_collapsed, string_of, take_chars, trim_chars, trimmed, u64_to_string,
};

verus! {

/// The minor version of the Google Pay interface that Noon is told.
pub const GOOGLEPAY_API_VERSION_MINOR: u8 = 0;

/// The version of the Google Pay interface that Noon is told.
pub const GOOGLEPAY_API_VERSION: u8 = 2;

/// A request context together with its amount in Noon's notation, and the
/// largest amount of a mandate if one is set up.
pub struct NoonRouterData<T> {
    pub amount: StringMajorUnit,
    pub router_data: T,
    pub mandate_amount: Option<StringMajorUnit>,
}

impl<T> NoonRouterData<T> {
    /// Puts an amount, a request context and a mandate amount together.
    pub fn from(triple: (StringMajorUnit, T, Option<StringMajorUnit>)) -> (r: Self)
        ensures
            r.amount == triple.0,
            r.router_data == triple.1,
            r.mandate_amount == triple.2,
    {
        NoonRouterData { amount: triple.0, router_data: triple.1, mandate_amount: triple.2 }
    }
}

/// The channel of an order.
#[derive(Clone, Copy, Debug, PartialEq, Eq, Structural)]
pub enum NoonChannels {
    Web,
}

/// How the payments of a subscription recur.
#[derive(Clone, Copy, Debug, PartialEq, Eq, Structural)]
pub enum NoonSubscriptionType {
    Unscheduled,
}

/// The subscription that a payment sets up.
#[derive(Clone, Debug, PartialEq, Eq)]
pub struct NoonSubscriptionData {
    pub subscription_type: NoonSubscriptionType,
    pub name: String,
    pub max_amount: StringMajorUnit,
}

/// The address of the payer.
#[derive(Clone, PartialEq, Eq)]
pub struct NoonBillingAddress {
    pub street: Option<Secret>,
    pub street2: Option<Secret>,
    pub city: Option<String>,
    pub state_province: Option<Secret>,
    pub country: Option<CountryAlpha2>,
    pub postal_code: Option<Secret>,
}

/// Who is billed.
#[derive(Clone, PartialEq, Eq)]
pub struct NoonBilling {
    pub address: NoonBillingAddress,
}

/// The metadata of an order as numbered pairs: each value is a name, an
/// equals sign and a text, and the numbers count from one.
#[derive(Clone, PartialEq, Eq)]
pub struct NoonOrderNvp {
    pub inner: Vec<(String, Secret)>,
}

/// The numbered pair that stands for the member at position `index`.
pub open spec fn nvp_entry(index: int, name: Seq<char>, value: JsonValue) -> (Seq<char>, Seq<char>) {
    (decimal_digits((index + 1) as nat), name + seq!['='] + value_as_text(value))
}

/// The numbered pairs that stand for the members `members`, in order.
pub open spec fn nvp_entries(members: Seq<(String, JsonValue)>) -> Seq<(Seq<char>, Seq<char>)> {
    Seq::new(members.len(), |i: int| nvp_entry(i, members[i].0@, members[i].1))
}

impl NoonOrderNvp {
    /// The numbered pairs, by their texts.
    pub open spec fn view(&self) -> Seq<(Seq<char>, Seq<char>)> {
        Seq::new(self.inner@.len(), |i: int| (self.inner@[i].0@, self.inner@[i].1@))
    }

    /// The metadata `metadata`, which are JSON text, as numbered pairs. The
    /// members come in the order of their names; a string stands for itself
    /// without quotes; metadata that are no JSON object give no pairs.
    pub fn new(metadata: &str) -> (r: Self)
        ensures
            r@ == nvp_entries(json_object_members_of(metadata@)),
            !is_json_object(metadata@) ==> r@.len() == 0 && r.inner@.len() == 0,
    {
        let members = object_members(metadata);
        let mut inner: Vec<(String, Secret)> = Vec::new();
        let mut index: usize = 0;
        while index < members.len()
            invariant
                index <= members.len(),
                inner@.len() == index,
                forall|j: int|
                    0 <= j < index ==> (#[trigger] inner@[j].0@, inner@[j].1@) == nvp_entry(
                        j,
                        members@[j].0@,
                        members@[j].1,
                    ),
            decreases members.len() - index,
        {
            let noon_key = u64_to_string(index as u64 + 1);
            let mut noon_value = members[index].0.clone();
            noon_value.append("=");
            let text = get_value_as_string(&members[index].1);
            noon_value.append(text.as_str());
            proof {
                reveal_strlit("=");
                assert("="@ =~= seq!['=']);
            }
            inner.push((noon_key, Secret::new(noon_value)));
            index += 1;
        }
        let r = NoonOrderNvp { inner };
        proof {
            assert(r@ =~= nvp_entries(members@));
        }
        r
    }
}

/// An order.
#[derive(Clone, PartialEq, Eq)]
pub struct NoonOrder {
    pub amount: StringMajorUnit,
    pub currency: Option<Currency>,
    pub channel: NoonChannels,
    pub category: Option<String>,
    pub reference: String,
    pub name: String,
    pub nvp: Option<NoonOrderNvp>,
    pub ip_address: Option<Secret>,
}

/// Whether a payment is only authorized or charged at once.
#[derive(Clone, Copy, Debug, PartialEq, Eq, Structural)]
pub enum NoonPaymentActions {
    Authorize,
    Sale,
}

/// How a payment is to be processed.
#[derive(Clone, Debug, PartialEq, Eq)]
pub struct NoonConfiguration {
    pub tokenize_c_c: Option<bool>,
    pub payment_action: NoonPaymentActions,
    pub return_url: Option<String>,
}

/// The subscription that pays.
#[derive(Clone, PartialEq, Eq)]
pub struct NoonSubscription {
    pub subscription_identifier: Secret,
}

/// A card as Noon takes it.
#[derive(Clone, PartialEq, Eq)]
pub struct NoonCard {
    pub name_on_card: Option<Secret>,
    pub number_plain: CardNumber,
    pub expiry_month: Secret,
    pub expiry_year: Secret,
    pub cvv: Secret,
}

/// How Apple Pay describes the card behind a token.
#[derive(Clone, Debug, PartialEq, Eq)]
pub struct NoonApplePayPaymentMethod {
    pub display_name: String,
    pub network: String,
    pub pm_type: String,
}

/// The header of an Apple Pay token.
#[derive(Clone, PartialEq, Eq)]
pub struct NoonApplePayHeader {
    pub ephemeral_public_key: Secret,
    pub public_key_hash: Secret,
    pub transaction_id: Secret,
}

/// An Apple Pay token.
#[derive(Clone, PartialEq, Eq)]
pub struct NoonApplePaymentData {
    pub version: Secret,
    pub data: Secret,
    pub signature: Secret,
    pub header: NoonApplePayHeader,
}

/// An Apple Pay payment.
#[derive(Clone, PartialEq, Eq)]
pub struct NoonApplePayData {
    pub payment_data: NoonApplePaymentData,
    pub payment_method: NoonApplePayPaymentMethod,
    pub transaction_identifier: Secret,
}

/// The token of an Apple Pay payment, as Noon names it.
#[derive(Clone, PartialEq, Eq)]
pub struct NoonApplePayTokenData {
    pub token: NoonApplePayData,
}

/// An Apple Pay payment as Noon takes it; on the wire the payment
/// information is one field of JSON text.
#[derive(Clone, PartialEq, Eq)]
pub struct NoonApplePay {
    pub payment_info: NoonApplePayTokenData,
}

/// A Google Pay payment as Noon takes it.
#[derive(Clone, Debug, PartialEq, Eq)]
pub struct NoonGooglePay {
    pub api_version_minor: u8,
    pub api_version: u8,
    pub payment_method_data: GooglePayWalletData,
}

/// A PayPal payment as Noon takes it.
#[derive(Clone, Debug, PartialEq, Eq)]
pub struct NoonPayPal {
    pub return_url: String,
}

/// What the customer pays with, in Noon's terms.
#[derive(Clone, PartialEq, Eq)]
pub enum NoonPaymentData {
    Card(NoonCard),
    Subscription(NoonSubscription),
    ApplePay(NoonApplePay),
    GooglePay(NoonGooglePay),
    PayPal(NoonPayPal),
}

/// The operations of Noon.
#[derive(Clone, Copy, Debug, PartialEq, Eq, Structural)]
pub enum NoonApiOperations {
    Initiate,
    Capture,
    Reverse,
    Refund,
    CancelSubscription,
}

/// The request to authorize or charge a payment.
#[derive(Clone, PartialEq, Eq)]
pub struct NoonPaymentsRequest {
    pub api_operation: NoonApiOperations,
    pub order: NoonOrder,
    pub configuration: NoonConfiguration,
    pub payment_data: NoonPaymentData,
    pub subscription: Option<NoonSubscriptionData>,
    pub billing: Option<NoonBilling>,
}

/// The name of an order: its description without the white space around it,
/// with pairs of spaces collapsed, and cut after fifty characters.
pub open spec fn order_name(description: Seq<char>) -> Seq<char> {
    first_chars(pairs_of_spaces_collapsed(trimmed(description)), 50)
}

/// The name of the order that `description` describes.
pub fn order_name_of(description: &str) -> (r: String)
    ensures
        r@ == order_name(description@),
{
    let chars = chars_of(description);
    let trimmed_chars = trim_chars(&chars);
    let collapsed = collapse_pairs_of_spaces(&trimmed_chars);
    let cut = take_chars(&collapsed, 50);
    string_of(&cut)
}

/// The header of the Apple Pay token `token`, as JSON text.
pub open spec fn apple_pay_header(token: Seq<char>) -> Option<Seq<char>> {
    json_member_of(token, "header"@)
}

/// Whether the Apple Pay token `token` has all its parts: a version, data,
/// a signature, and a header with an ephemeral public key, the hash of a
/// public key and a transaction.
pub open spec fn apple_pay_token_readable(token: Seq<char>) -> bool {
    &&& json_string_member_of(token, "version"@) is Some
    &&& json_string_member_of(token, "data"@) is Some
    &&& json_string_member_of(token, "signature"@) is Some
    &&& apple_pay_header(token) matches Some(header)
    &&& json_string_member_of(header, "ephemeralPublicKey"@) is Some
    &&& json_string_member_of(header, "publicKeyHash"@) is Some
    &&& json_string_member_of(header, "transactionId"@) is Some
}

/// Whether `data` are the parts of the Apple Pay token `token`.
pub open spec fn is_apple_payment_data(data: NoonApplePaymentData, token: Seq<char>) -> bool {
    &&& data.version@ == json_string_member_of(token, "version"@)->0
    &&& data.data@ == json_string_member_of(token, "data"@)->0
    &&& data.signature@ == json_string_member_of(token, "signature"@)->0
    &&& data.header.ephemeral_public_key@ == json_string_member_of(
        apple_pay_header(token)->0,
        "ephemeralPublicKey"@,
    )->0
    &&& data.header.public_key_hash@ == json_string_member_of(
        apple_pay_header(token)->0,
        "publicKeyHash"@,
    )->0
    &&& data.header.transaction_id@ == json_string_member_of(
        apple_pay_header(token)->0,
        "transactionId"@,
    )->0
}

/// The error that says that the token of Apple Pay cannot be read.
pub open spec fn invalid_apple_pay_token() -> ConnectorErrorView {
    ConnectorErrorView::InvalidWalletToken { wallet_name: "Apple Pay"@ }
}

/// Reads the parts of an Apple Pay token.
pub fn read_apple_payment_data(token: &str) -> (r: Option<NoonApplePaymentData>)
    ensures
        r is Some <==> apple_pay_token_readable(token@),
        r matches Some(data) ==> is_apple_payment_data(data, token@),
{
    let version = json_string_member(token, "version")?;
    let data = json_string_member(token, "data")?;
    let signature = json_string_member(token, "signature")?;
    let header = json_member(token, "header")?;
    let ephemeral_public_key = json_string_member(header.as_str(), "ephemeralPublicKey")?;
    let public_key_hash = json_string_member(header.as_str(), "publicKeyHash")?;
    let transaction_id = json_string_member(header.as_str(), "transactionId")?;
    Some(
        NoonApplePaymentData {
            version: Secret::new(version),
            data: Secret::new(data),
            signature: Secret::new(signature),
            header: NoonApplePayHeader {
                ephemeral_public_key: Secret::new(ephemeral_public_key),
                public_key_hash: Secret::new(public_key_hash),
                transaction_id: Secret::new(transaction_id),
            },
        },
    )
}

/// The payment methods that Noon takes.
pub open spec fn noon_supports(method: PaymentMethodData) -> bool {
    method is Card || (method matches PaymentMethodData::Wallet(wallet) && (wallet is GooglePay
        || wallet is ApplePay || wallet is PaypalRedirect))
}

/// The error that says that Noon does not implement a payment method.
pub open spec fn noon_not_implemented() -> ConnectorErrorView {
    not_implemented(unimplemented_payment_method_message("Noon"@))
}

/// Why the payment method cannot be encoded, if it cannot.
pub open spec fn payment_data_error(data: PaymentsAuthorizeRouterData) -> Option<
    ConnectorErrorView,
> {
    let method = data.request.payment_method_data;
    if !noon_supports(method) {
        Some(noon_not_implemented())
    } else {
        match method {
            PaymentMethodData::Wallet(WalletData::ApplePay(apple_pay)) => match wallet_token(
                WalletData::ApplePay(apple_pay),
            ) {
                Err(error) => Some(error),
                Ok(token) => if apple_pay_token_readable(token) {
                    None
                } else {
                    Some(invalid_apple_pay_token())
                },
            },
            PaymentMethodData::Wallet(WalletData::PaypalRedirect) => if data.request.router_return_url
                is None {
                Some(missing_field("return_url"@))
            } else {
                None
            },
            _ => None,
        }
    }
}

/// Whether `payment` is what Noon is told of the payment method of `data`.
pub open spec fn is_payment_data_of(
    payment: NoonPaymentData,
    data: PaymentsAuthorizeRouterData,
) -> bool {
    match data.request.payment_method_data {
        PaymentMethodData::Card(card) => {
            &&& payment matches NoonPaymentData::Card(sent)
            &&& sent.number_plain == card.card_number
            &&& sent.expiry_month == card.card_exp_month
            &&& sent.expiry_year@ == four_digit_year(card.card_exp_year@)
            &&& sent.cvv == card.card_cvc
            &&& sent.name_on_card is Some <==> data.billing_full_name() is Some
            &&& sent.name_on_card matches Some(name) ==> name@ == data.billing_full_name()->0
        },
        PaymentMethodData::Wallet(WalletData::GooglePay(google_pay)) => {
            &&& payment matches NoonPaymentData::GooglePay(sent)
            &&& sent.api_version_minor == 0
            &&& sent.api_version == 2
            &&& sent.payment_method_data == google_pay
        },
        PaymentMethodData::Wallet(WalletData::ApplePay(apple_pay)) => {
            &&& payment matches NoonPaymentData::ApplePay(sent)
            &&& is_apple_payment_data(
                sent.payment_info.token.payment_data,
                wallet_token(WalletData::ApplePay(apple_pay))->Ok_0,
            )
            &&& sent.payment_info.token.payment_method.display_name
                == apple_pay.payment_method.display_name
            &&& sent.payment_info.token.payment_method.network == apple_pay.payment_method.network
            &&& sent.payment_info.token.payment_method.pm_type == apple_pay.payment_method.pm_type
            &&& sent.payment_info.token.transaction_identifier@ == apple_pay.transaction_identifier@
        },
        PaymentMethodData::Wallet(WalletData::PaypalRedirect) => {
            &&& payment matches NoonPaymentData::PayPal(sent)
            &&& Some(sent.return_url) == data.request.router_return_url
        },
        _ => false,
    }
}

/// What Noon is told of the payment method of `item`. Noon takes cards,
/// Google Pay, Apple Pay and PayPal; for everything else the request is
/// refused as not implemented.
pub fn get_payment_data(item: &PaymentsAuthorizeRouterData) -> (r: Result<
    NoonPaymentData,
    ConnectorError,
>)
    ensures
        match payment_data_error(*item) {
            Some(error) => r matches Err(e) && e@ == error,
            None => r matches Ok(payment) && is_payment_data_of(payment, *item),
        },
{
    match &item.request.payment_method_data {
        PaymentMethodData::Card(req_card) => Ok(
            NoonPaymentData::Card(
                NoonCard {
                    name_on_card: item.get_optional_billing_full_name(),
                    number_plain: req_card.card_number.clone(),
                    expiry_month: req_card.card_exp_month.clone(),
                    expiry_year: req_card.get_expiry_year_4_digit(),
                    cvv: req_card.card_cvc.clone(),
                },
            ),
        ),
        PaymentMethodData::Wallet(wallet_data) => match wallet_data {
            WalletData::GooglePay(google_pay_data) => Ok(
                NoonPaymentData::GooglePay(
                    NoonGooglePay {
                        api_version_minor: GOOGLEPAY_API_VERSION_MINOR,
                        api_version: GOOGLEPAY_API_VERSION,
                        payment_method_data: google_pay_data.clone(),
                    },
                ),
            ),
            WalletData::ApplePay(apple_pay_data) => {
                let token = wallet_data.get_wallet_token()?;
                let payment_data = match read_apple_payment_data(token.peek().as_str()) {
                    Some(data) => data,
                    None => {
                        return Err(
                            ConnectorError::InvalidWalletToken {
                                wallet_name: String::from_str("Apple Pay"),
                            },
                        );
                    },
                };
                let payment_token_data = NoonApplePayTokenData {
                    token: NoonApplePayData {
                        payment_data,
                        payment_method: NoonApplePayPaymentMethod {
                            display_name: apple_pay_data.payment_method.display_name.clone(),
                            network: apple_pay_data.payment_method.network.clone(),
                            pm_type: apple_pay_data.payment_method.pm_type.clone(),
                        },
                        transaction_identifier: Secret::new(
                            apple_pay_data.transaction_identifier.clone(),
                        ),
                    },
                };
                Ok(NoonPaymentData::ApplePay(NoonApplePay { payment_info: payment_token_data }))
            },
            WalletData::PaypalRedirect => Ok(
                NoonPaymentData::PayPal(
                    NoonPayPal { return_url: item.request.get_router_return_url()? },
                ),
            ),
            WalletData::AliPayQr
            | WalletData::AliPayRedirect
            | WalletData::AliPayHkRedirect
            | WalletData::AmazonPayRedirect
            | WalletData::Paysera
            | WalletData::Skrill
            | WalletData::BluecodeRedirect
            | WalletData::MomoRedirect
            | WalletData::KakaoPayRedirect
            | WalletData::GoPayRedirect
            | WalletData::GcashRedirect
            | WalletData::ApplePayRedirect
            | WalletData::ApplePayThirdPartySdk
            | WalletData::DanaRedirect
            | WalletData::GooglePayRedirect
            | WalletData::GooglePayThirdPartySdk
            | WalletData::MbWayRedirect
            | WalletData::MobilePayRedirect
            | WalletData::PaypalSdk
            | WalletData::Paze
            | WalletData::SamsungPay
            | WalletData::TwintRedirect
            | WalletData::VippsRedirect
            | WalletData::TouchNGoRedirect
            | WalletData::WeChatPayRedirect
            | WalletData::WeChatPayQr
            | WalletData::CashappQr
            | WalletData::SwishQr
            | WalletData::Mifinity
            | WalletData::RevolutPay => Err(
                ConnectorError::NotImplemented(
                    get_unimplemented_payment_method_error_message("Noon"),
                ),
            ),
        },
        PaymentMethodData::CardRedirect
        | PaymentMethodData::PayLater(_)
        | PaymentMethodData::BankRedirect(_)
        | PaymentMethodData::BankDebit
        | PaymentMethodData::BankTransfer
        | PaymentMethodData::Crypto
        | PaymentMethodData::MandatePayment
        | PaymentMethodData::Reward
        | PaymentMethodData::RealTimePayment
        | PaymentMethodData::MobilePayment
        | PaymentMethodData::Upi
        | PaymentMethodData::Voucher
        | PaymentMethodData::GiftCard
        | PaymentMethodData::OpenBanking
        | PaymentMethodData::CardToken
        | PaymentMethodData::NetworkToken(_)
        | PaymentMethodData::CardDetailsForNetworkTransactionId => Err(
            ConnectorError::NotImplemented(get_unimplemented_payment_method_error_message("Noon")),
        ),
    }
}

/// Whether the payment is made under a mandate that the connector knows.
pub open spec fn pays_by_mandate(data: PaymentsAuthorizeRouterData) -> bool {
    data.request.connector_mandate_id_spec() is Some
}

/// Why no payment request can be built, if none can. Without a mandate, the
/// payment method is encoded first and the category of the order is asked
/// for next; then the description is asked for, and last the capture method
/// is looked at.
pub open spec fn payments_request_error(data: PaymentsAuthorizeRouterData) -> Option<
    ConnectorErrorView,
> {
    if !pays_by_mandate(data) && payment_data_error(data) is Some {
        payment_data_error(data)
    } else if !pays_by_mandate(data) && data.request.order_category is None {
        Some(missing_field("order_category"@))
    } else if data.description is None {
        Some(missing_field("description"@))
    } else if data.request.is_auto_capture_spec() is Err {
        Some(ConnectorErrorView::CaptureMethodNotSupported)
    } else {
        None
    }
}

/// Whether `billing` is the address of the payer of `data`.
pub open spec fn is_billing_of(
    billing: Option<NoonBilling>,
    data: PaymentsAuthorizeRouterData,
) -> bool {
    match data.billing_address() {
        Some(address) => {
            &&& billing matches Some(sent)
            &&& sent.address.street == address.line1
            &&& sent.address.street2 == address.line2
            &&& sent.address.city == address.city
            &&& sent.address.state_province == address.state
            &&& sent.address.country == address.country
            &&& sent.address.postal_code == address.zip
        },
        None => billing is None,
    }
}

/// Whether `order` is the order of `data` with the amount `amount`.
pub open spec fn is_order_of(
    order: NoonOrder,
    amount: StringMajorUnit,
    data: PaymentsAuthorizeRouterData,
) -> bool {
    &&& order.amount == amount
    &&& order.currency == if pays_by_mandate(data) {
        None
    } else {
        Some(data.request.currency)
    }
    &&& order.channel == NoonChannels::Web
    &&& order.category == if pays_by_mandate(data) {
        None
    } else {
        data.request.order_category
    }
    &&& order.reference == data.connector_request_reference_id
    &&& order.name@ == order_name(data.description->0@)
    &&& order.nvp is Some <==> data.request.metadata is Some
    &&& order.nvp matches Some(nvp) ==> nvp@ == nvp_entries(
        json_object_members_of(data.request.metadata->0@),
    )
    &&& order.ip_address == data.request.ip_address
}

/// Whether `request` is the payment request of `data` with the amount
/// `amount` and the mandate amount `mandate_amount`.
pub open spec fn is_payments_request_of(
    request: NoonPaymentsRequest,
    amount: StringMajorUnit,
    mandate_amount: Option<StringMajorUnit>,
    data: PaymentsAuthorizeRouterData,
) -> bool {
    &&& request.api_operation == NoonApiOperations::Initiate
    &&& is_order_of(request.order, amount, data)
    &&& is_billing_of(request.billing, data)
    &&& request.configuration.payment_action == if data.request.is_auto_capture_spec() == Ok::<
        bool,
        ConnectorError,
    >(true) {
        NoonPaymentActions::Sale
    } else {
        NoonPaymentActions::Authorize
    }
    &&& request.configuration.return_url == data.request.router_return_url
    &&& request.configuration.tokenize_c_c == if mandate_amount is Some {
        Some(true)
    } else {
        None
    }
    &&& request.subscription is Some <==> mandate_amount is Some
    &&& request.subscription matches Some(subscription) ==> {
        &&& subscription.subscription_type == NoonSubscriptionType::Unscheduled
        &&& subscription.name@ == order_name(data.description->0@)
        &&& Some(subscription.max_amount) == mandate_amount
    }
    &&& if pays_by_mandate(data) {
        &&& request.payment_data matches NoonPaymentData::Subscription(subscription)
        &&& subscription.subscription_identifier@ == data.request.connector_mandate_id_spec()->0@
    } else {
        is_payment_data_of(request.payment_data, data)
    }
}

impl NoonPaymentsRequest {
    /// Builds the payment request. A payment under a mandate that the
    /// connector knows is paid by the subscription, and names neither a
    /// currency nor a category; any other is paid by what the customer
    /// presents. A mandate amount sets up a subscription and asks for the
    /// card to be tokenized.
    pub fn try_from(data: &NoonRouterData<&PaymentsAuthorizeRouterData>) -> (r: Result<
        Self,
        ConnectorError,
    >)
        ensures
            match payments_request_error(*data.router_data) {
                Some(error) => r matches Err(e) && e@ == error,
                None => r matches Ok(request) && is_payments_request_of(
                    request,
                    data.amount,
                    data.mandate_amount,
                    *data.router_data,
                ),
            },
    {
        let item = data.router_data;
        let (payment_data, currency, category) = match item.request.connector_mandate_id() {
            Some(mandate_id) => (
                NoonPaymentData::Subscription(
                    NoonSubscription { subscription_identifier: Secret::new(mandate_id) },
                ),
                None,
                None,
            ),
            _ => {
                let payment_data = get_payment_data(item)?;
                let category = match &item.request.order_category {
                    Some(category) => category.clone(),
                    None => {
                        return Err(
                            ConnectorError::MissingRequiredField { field_name: "order_category" },
                        );
                    },
                };
                (payment_data, Some(item.request.currency), Some(category))
            },
        };
        let ip_address = clone_optional_secret(&item.request.ip_address);
        let channel = NoonChannels::Web;
        let billing = match &item.billing {
            Some(billing_address) => match &billing_address.address {
                Some(address) => Some(
                    NoonBilling {
                        address: NoonBillingAddress {
                            street: clone_optional_secret(&address.line1),
                            street2: clone_optional_secret(&address.line2),
                            city: clone_optional_string(&address.city),
                            // If state is passed in request, country becomes mandatory, keep a check while debugging failed payments
                            state_province: clone_optional_secret(&address.state),
                            country: address.country,
                            postal_code: clone_optional_secret(&address.zip),
                        },
                    },
                ),
                None => None,
            },
            None => None,
        };
        // The description should not have leading or trailing whitespaces, also it should not have double whitespaces and a max 50 chars according to Noon's Docs
        let description = item.get_description()?;
        let name = order_name_of(description.as_str());
        let subscription = match &data.mandate_amount {
            Some(mandate_max_amount) => Some(
                NoonSubscriptionData {
                    subscription_type: NoonSubscriptionType::Unscheduled,
                    name: name.clone(),
                    max_amount: mandate_max_amount.clone(),
                },
            ),
            None => None,
        };
        let tokenize_c_c = if subscription.is_some() {
            Some(true)
        } else {
            None
        };
        let order = NoonOrder {
            amount: data.amount.clone(),
            currency,
            channel,
            category,
            reference: item.connector_request_reference_id.clone(),
            name,
            nvp: match &item.request.metadata {
                Some(metadata) => Some(NoonOrderNvp::new(metadata.as_str())),
                None => None,
            },
            ip_address,
        };
        let payment_action = if item.request.is_auto_capture()? {
            NoonPaymentActions::Sale
        } else {
            NoonPaymentActions::Authorize
        };
        Ok(
            NoonPaymentsRequest {
                api_operation: NoonApiOperations::Initiate,
                order,
                billing,
                configuration: NoonConfiguration {
                    payment_action,
                    return_url: clone_optional_string(&item.request.router_return_url),
                    tokenize_c_c,
                },
                payment_data,
                subscription,
            },
        )
    }
}

/// Whatever the customer pays with, the request is built or it is refused as
/// not implemented: a payment method that Noon takes is never refused as not
/// implemented, and one that it does not take is never encoded, unless a
/// mandate pays in its place. Left out are only the requests that are
/// refused for another reason: a field that is missing, a wallet token that
/// cannot be read, or a capture method that Noon does not support.
pub proof fn lemma_noon_payment_method_coverage(data: PaymentsAuthorizeRouterData)
    requires
        !(payments_request_error(data) matches Some(
            ConnectorErrorView::MissingRequiredField { .. },
        )),
        !(payments_request_error(data) matches Some(
            ConnectorErrorView::InvalidWalletToken { .. },
        )),
        payments_request_error(data) != Some(ConnectorErrorView::CaptureMethodNotSupported),
    ensures
        pays_by_mandate(data) || noon_supports(data.request.payment_method_data)
            ==> payments_request_error(data) is None,
        !pays_by_mandate(data) && !noon_supports(data.request.payment_method_data)
            ==> payments_request_error(data) matches Some(ConnectorErrorView::NotImplemented(_)),
{
}

/// The credentials that Noon takes.
pub struct NoonAuthType {
    pub api_key: Secret,
    pub application_identifier: Secret,
    pub business_identifier: Secret,
}

impl NoonAuthType {
    /// Reads the credentials from a signature key: the secret names the
    /// application and the first key the business. No other shape is accepted.
    pub fn try_from(auth_type: &ConnectorAuthType) -> (r: Result<Self, ConnectorError>)
        ensures
            auth_type is SignatureKey ==> (r matches Ok(auth) && auth.api_key
                == auth_type->SignatureKey_api_key && auth.application_identifier
                == auth_type->SignatureKey_api_secret && auth.business_identifier
                == auth_type->SignatureKey_key1),
            !(auth_type is SignatureKey) ==> (r matches Err(e) && e@
                == ConnectorErrorView::FailedToObtainAuthType),
    {
        match auth_type {
            ConnectorAuthType::SignatureKey { api_key, key1, api_secret } => Ok(
                NoonAuthType {
                    api_key: api_key.clone(),
                    application_identifier: api_secret.clone(),
                    business_identifier: key1.clone(),
                },
            ),
            _ => Err(ConnectorError::FailedToObtainAuthType),
        }
    }
}

/// What Noon reports of an order.
#[derive(Clone, Copy, Debug, PartialEq, Eq, Structural)]
pub enum NoonPaymentStatus {
    Initiated,
    Authorized,
    Captured,
    PartiallyCaptured,
    PartiallyRefunded,
    PaymentInfoAdded,
    ThreeDsEnrollInitiated,
    ThreeDsEnrollChecked,
    ThreeDsResultVerified,
    MarkedForReview,
    Authenticated,
    PartiallyReversed,
    Pending,
    Cancelled,
    Failed,
    Refunded,
    Expired,
    Reversed,
    Rejected,
    Locked,
}

/// The state of an attempt that a state of Noon stands for. A locked order
/// tells nothing: the attempt stays in the state `current_status`.
pub open spec fn noon_attempt_status(
    item: NoonPaymentStatus,
    current_status: AttemptStatus,
) -> AttemptStatus {
    match item {
        NoonPaymentStatus::Authorized => AttemptStatus::Authorized,
        NoonPaymentStatus::Captured
        | NoonPaymentStatus::PartiallyCaptured
        | NoonPaymentStatus::PartiallyRefunded
        | NoonPaymentStatus::Refunded => AttemptStatus::Charged,
        NoonPaymentStatus::Reversed | NoonPaymentStatus::PartiallyReversed => AttemptStatus::Voided,
        NoonPaymentStatus::Cancelled | NoonPaymentStatus::Expired =>
            AttemptStatus::AuthenticationFailed,
        NoonPaymentStatus::ThreeDsEnrollInitiated | NoonPaymentStatus::ThreeDsEnrollChecked =>
            AttemptStatus::AuthenticationPending,
        NoonPaymentStatus::ThreeDsResultVerified => AttemptStatus::AuthenticationSuccessful,
        NoonPaymentStatus::Failed | NoonPaymentStatus::Rejected => AttemptStatus::Failure,
        NoonPaymentStatus::Pending | NoonPaymentStatus::MarkedForReview => AttemptStatus::Pending,
        NoonPaymentStatus::Initiated
        | NoonPaymentStatus::PaymentInfoAdded
        | NoonPaymentStatus::Authenticated => AttemptStatus::Started,
        NoonPaymentStatus::Locked => current_status,
    }
}

/// The state of an attempt that a state of Noon stands for.
pub fn get_payment_status(data: (NoonPaymentStatus, AttemptStatus)) -> (r: AttemptStatus)
    ensures
        r == noon_attempt_status(data.0, data.1),
{
    let (item, current_status) = data;
    match item {
        NoonPaymentStatus::Authorized => AttemptStatus::Authorized,
        NoonPaymentStatus::Captured
        | NoonPaymentStatus::PartiallyCaptured
        | NoonPaymentStatus::PartiallyRefunded
        | NoonPaymentStatus::Refunded => AttemptStatus::Charged,
        NoonPaymentStatus::Reversed | NoonPaymentStatus::PartiallyReversed => AttemptStatus::Voided,
        NoonPaymentStatus::Cancelled | NoonPaymentStatus::Expired => {
            AttemptStatus::AuthenticationFailed
        },
        NoonPaymentStatus::ThreeDsEnrollInitiated | NoonPaymentStatus::ThreeDsEnrollChecked => {
            AttemptStatus::AuthenticationPending
        },
        NoonPaymentStatus::ThreeDsResultVerified => AttemptStatus::AuthenticationSuccessful,
        NoonPaymentStatus::Failed | NoonPaymentStatus::Rejected => AttemptStatus::Failure,
        NoonPaymentStatus::Pending | NoonPaymentStatus::MarkedForReview => AttemptStatus::Pending,
        NoonPaymentStatus::Initiated
        | NoonPaymentStatus::PaymentInfoAdded
        | NoonPaymentStatus::Authenticated => AttemptStatus::Started,
        NoonPaymentStatus::Locked => current_status,
    }
}

/// Every state of Noon stands for a state of the machine that all
/// connectors share, as long as the attempt was in one: the mapping has no gap.
pub proof fn lemma_noon_status_mapping_total(item: NoonPaymentStatus, before: AttemptStatus)
    requires
        before.is_shared_state(),
    ensures
        noon_attempt_status(item, before).is_shared_state(),
{
}

/// Every refund state of Noon stands for a state of the refund machine that
/// all connectors share.
pub proof fn lemma_noon_refund_status_mapping_total(item: RefundStatus)
    ensures
        noon_refund_status(item).is_shared_state(),
{
}

/// A locked order leaves the attempt as it was, and every other state of
/// Noon decides the state of the attempt without regard to what it was.
pub proof fn lemma_noon_status_keeps_or_decides(
    item: NoonPaymentStatus,
    before: AttemptStatus,
    other: AttemptStatus,
)
    ensures
        item == NoonPaymentStatus::Locked ==> noon_attempt_status(item, before) == before,
        item != NoonPaymentStatus::Locked ==> noon_attempt_status(item, before)
            == noon_attempt_status(item, other),
{
}

/// The subscription of a payment.
#[derive(Clone, PartialEq, Eq)]
pub struct NoonSubscriptionObject {
    pub identifier: Secret,
}

/// What Noon says of an order.
#[derive(Clone, Debug, PartialEq, Eq)]
pub struct NoonPaymentsOrderResponse {
    pub status: NoonPaymentStatus,
    pub id: u64,
    pub error_code: u64,
    pub error_message: Option<String>,
    pub reference: Option<String>,
}

/// Where the customer completes the payment.
#[derive(Clone, Debug, PartialEq, Eq)]
pub struct NoonCheckoutData {
    pub post_url: String,
}

/// The result of a payment request.
#[derive(Clone, PartialEq, Eq)]
pub struct NoonPaymentsResponseResult {
    pub order: NoonPaymentsOrderResponse,
    pub checkout_data: Option<NoonCheckoutData>,
    pub subscription: Option<NoonSubscriptionObject>,
}

/// Noon's answer to a payment request or to a request for the state of a payment.
#[derive(Clone, PartialEq, Eq)]
pub struct NoonPaymentsResponse {
    pub result: NoonPaymentsResponseResult,
}

/// Whether `error` is the failure that the order `order` reports, seen with
/// the HTTP status `http_code` while the attempt is in the state `status`.
pub open spec fn is_order_error(
    error: ErrorResponse,
    order: NoonPaymentsOrderResponse,
    http_code: u16,
    status: AttemptStatus,
) -> bool {
    &&& error.code@ == decimal_digits(order.error_code as nat)
    &&& Some(error.message) == order.error_message
    &&& error.reason == order.error_message
    &&& error.status_code == http_code
    &&& error.attempt_status == Some(status)
    &&& error.connector_transaction_id matches Some(id)
    &&& id@ == decimal_digits(order.id as nat)
    &&& error.network_advice_code is None
    &&& error.network_decline_code is None
    &&& error.network_error_message is None
}

/// Translates Noon's answer about a payment. The state of the order tells
/// the state of the attempt, but a checkout to which the customer is sent
/// takes priority over a reported success. An order that carries an error
/// message gives an error response and nothing else; an order without one
/// gives a transaction response, which names the order, carries the form to
/// post when Noon sends the customer to its checkout, and carries the
/// subscription as a mandate. An answer whose checkout address is not a URL
/// cannot be handled.
pub fn parse_payments_response<Req>(
    item: ResponseRouterData<NoonPaymentsResponse, Req, PaymentsResponseData>,
) -> (r: Result<RouterData<Req, PaymentsResponseData>, ConnectorError>)
    ensures
        item.response.result.checkout_data matches Some(checkout) && url_normal_form(
            checkout.post_url@,
        ) is None ==> (r matches Err(e) && e@ == ConnectorErrorView::ResponseHandlingFailed),
        !(item.response.result.checkout_data matches Some(checkout) && url_normal_form(
            checkout.post_url@,
        ) is None) ==> {
            let order = item.response.result.order;
            &&& r matches Ok(data)
            &&& data.carries_rest_of(item.data)
            &&& data.status == with_redirect_priority(
                noon_attempt_status(order.status, item.data.status),
                item.response.result.checkout_data is Some,
            )
            &&& data.response is Err <==> order.error_message is Some
            &&& data.response matches Err(error) ==> is_order_error(
                error,
                order,
                item.http_code,
                data.status,
            )
            &&& data.response matches Ok(response) ==> {
                &&& response matches PaymentsResponseData::TransactionResponse {
                    resource_id,
                    redirection_data,
                    mandate_reference,
                    connector_metadata,
                    network_txn_id,
                    connector_response_reference_id,
                    incremental_authorization_allowed,
                }
                &&& resource_id matches ResponseId::ConnectorTransactionId(id)
                &&& id@ == decimal_digits(order.id as nat)
                &&& connector_response_reference_id matches Some(reference)
                &&& reference@ == match order.reference {
                    Some(given) => given@,
                    None => decimal_digits(order.id as nat),
                }
                &&& connector_metadata is None
                &&& network_txn_id is None
                &&& incremental_authorization_allowed is None
                &&& redirection_data is Some <==> item.response.result.checkout_data is Some
                &&& redirection_data matches Some(form) ==> form.is_form(
                    url_normal_form(item.response.result.checkout_data->0.post_url@)->0,
                    Method::Post,
                    Seq::<(Seq<char>, Seq<char>)>::empty(),
                )
                &&& mandate_reference is Some <==> item.response.result.subscription is Some
                &&& mandate_reference matches Some(reference) ==> mandate_reference_of(
                    item.response.result.subscription->0.identifier@,
                    reference,
                )
            }
        },
{
    let ResponseRouterData { response, data, http_code } = item;
    let order = response.result.order;
    let status = apply_redirect_priority(
        get_payment_status((order.status, data.status)),
        response.result.checkout_data.is_some(),
    );
    let redirection_data = match response.result.checkout_data {
        Some(redirection_data) => match normalize_url(redirection_data.post_url.as_str()) {
            Some(endpoint) => Some(
                RedirectForm::Form { endpoint, method: Method::Post, form_fields: FormFields::new() },
            ),
            None => {
                return Err(ConnectorError::ResponseHandlingFailed);
            },
        },
        None => None,
    };
    let mandate_reference = match response.result.subscription {
        Some(subscription_data) => Some(
            mandate_reference_from_id(subscription_data.identifier.expose()),
        ),
        None => None,
    };
    let result = match order.error_message {
        Some(error_message) => Err(
            ErrorResponse {
                code: u64_to_string(order.error_code),
                message: error_message.clone(),
                reason: Some(error_message),
                status_code: http_code,
                attempt_status: Some(status),
                connector_transaction_id: Some(u64_to_string(order.id)),
                network_advice_code: None,
                network_decline_code: None,
                network_error_message: None,
            },
        ),
        _ => {
            let connector_response_reference_id = match order.reference {
                Some(reference) => Some(reference),
                None => Some(u64_to_string(order.id)),
            };
            Ok(
                PaymentsResponseData::TransactionResponse {
                    resource_id: ResponseId::ConnectorTransactionId(u64_to_string(order.id)),
                    redirection_data,
                    mandate_reference,
                    connector_metadata: None,
                    network_txn_id: None,
                    connector_response_reference_id,
                    incremental_authorization_allowed: None,
                },
            )
        },
    };
    Ok(data.with_response(status, result))
}

impl<Req> TryFrom<ResponseRouterData<NoonPaymentsResponse, Req, PaymentsResponseData>> for RouterData<Req, PaymentsResponseData> {
    type Error = ConnectorError;

    /// Translates Noon's answer about a payment, as `parse_payments_response` does.
    fn try_from(item: ResponseRouterData<NoonPaymentsResponse, Req, PaymentsResponseData>) -> (r: Result<Self, Self::Error>)
        ensures
            item.response.result.checkout_data matches Some(checkout) && url_normal_form(
                checkout.post_url@,
            ) is None ==> (r matches Err(e) && e@ == ConnectorErrorView::ResponseHandlingFailed),
            !(item.response.result.checkout_data matches Some(checkout) && url_normal_form(
                checkout.post_url@,
            ) is None) ==> {
                let order = item.response.result.order;
                &&& r matches Ok(data)
                &&& data.carries_rest_of(item.data)
                &&& data.status == with_redirect_priority(
                    noon_attempt_status(order.status, item.data.status),
                    item.response.result.checkout_data is Some,
                )
                &&& data.response is Err <==> order.error_message is Some
                &&& data.response matches Err(error) ==> is_order_error(
                    error,
                    order,
                    item.http_code,
                    data.status,
                )
                &&& data.response matches Ok(response) ==> {
                    &&& response matches PaymentsResponseData::TransactionResponse {
                        resource_id,
                        redirection_data,
                        mandate_reference,
                        connector_metadata,
                        network_txn_id,
                        connector_response_reference_id,
                        incremental_authorization_allowed,
                    }
                    &&& resource_id matches ResponseId::ConnectorTransactionId(id)
                    &&& id@ == decimal_digits(order.id as nat)
                    &&& connector_response_reference_id matches Some(reference)
                    &&& reference@ == match order.reference {
                        Some(given) => given@,
                        None => decimal_digits(order.id as nat),
                    }
                    &&& connector_metadata is None
                    &&& network_txn_id is None
                    &&& incremental_authorization_allowed is None
                    &&& redirection_data is Some <==> item.response.result.checkout_data is Some
                    &&& redirection_data matches Some(form) ==> form.is_form(
                        url_normal_form(item.response.result.checkout_data->0.post_url@)->0,
                        Method::Post,
                        Seq::<(Seq<char>, Seq<char>)>::empty(),
                    )
                    &&& mandate_reference is Some <==> item.response.result.subscription is Some
                    &&& mandate_reference matches Some(reference) ==> mandate_reference_of(
                        item.response.result.subscription->0.identifier@,
                        reference,
                    )
                }
            },
    {
        parse_payments_response(item)
    }
}

/// What `try_from` returns is stated by its own clauses, over the texts that
/// the result holds, and not as one value.
impl<Req> vstd::std_specs::convert::TryFromSpecImpl<ResponseRouterData<NoonPaymentsResponse, Req, PaymentsResponseData>> for RouterData<Req, PaymentsResponseData> {
    open spec fn obeys_try_from_spec() -> bool {
        false
    }

    open spec fn try_from_spec(item: ResponseRouterData<NoonPaymentsResponse, Req, PaymentsResponseData>) -> Result<Self, Self::Error> {
        arbitrary()
    }
}

/// The amount of an action on an order.
#[derive(Clone, Debug, PartialEq, Eq)]
pub struct NoonActionTransaction {
    pub amount: StringMajorUnit,
    pub currency: Currency,
    pub transaction_reference: Option<String>,
}

/// The order that an action is taken on.
#[derive(Clone, Debug, PartialEq, Eq)]
pub struct NoonActionOrder {
    pub id: String,
}

/// The request to capture or to refund.
#[derive(Clone, Debug, PartialEq, Eq)]
pub struct NoonPaymentsActionRequest {
    pub api_operation: NoonApiOperations,
    pub order: NoonActionOrder,
    pub transaction: NoonActionTransaction,
}

impl NoonPaymentsActionRequest {
    /// The request to capture the amount of `data`.
    pub fn try_from(data: &NoonRouterData<&PaymentsCaptureRouterData>) -> (r: Result<
        Self,
        ConnectorError,
    >)
        ensures
            r matches Ok(request) && {
                &&& request.api_operation == NoonApiOperations::Capture
                &&& request.order.id == data.router_data.request.connector_transaction_id
                &&& request.transaction.amount == data.amount
                &&& request.transaction.currency == data.router_data.request.currency
                &&& request.transaction.transaction_reference is None
            },
    {
        let item = data.router_data;
        let order = NoonActionOrder { id: item.request.connector_transaction_id.clone() };
        let transaction = NoonActionTransaction {
            amount: data.amount.clone(),
            currency: item.request.currency,
            transaction_reference: None,
        };
        Ok(
            NoonPaymentsActionRequest {
                api_operation: NoonApiOperations::Capture,
                order,
                transaction,
            },
        )
    }

    /// The request to refund the amount of `data`; the refund is known to
    /// Noon by the identifier that the switch gave it.
    pub fn try_from_refund(data: &NoonRouterData<&RefundsRouterData>) -> (r: Result<
        Self,
        ConnectorError,
    >)
        ensures
            r matches Ok(request) && {
                &&& request.api_operation == NoonApiOperations::Refund
                &&& request.order.id == data.router_data.request.connector_transaction_id
                &&& request.transaction.amount == data.amount
                &&& request.transaction.currency == data.router_data.request.currency
                &&& request.transaction.transaction_reference == Some(
                    data.router_data.request.refund_id,
                )
            },
    {
        let item = data.router_data;
        let order = NoonActionOrder { id: item.request.connector_transaction_id.clone() };
        let transaction = NoonActionTransaction {
            amount: data.amount.clone(),
            currency: item.request.currency,
            transaction_reference: Some(item.request.refund_id.clone()),
        };
        Ok(
            NoonPaymentsActionRequest { api_operation: NoonApiOperations::Refund, order, transaction },
        )
    }
}

/// The request to cancel an authorized payment.
#[derive(Clone, Debug, PartialEq, Eq)]
pub struct NoonPaymentsCancelRequest {
    pub api_operation: NoonApiOperations,
    pub order: NoonActionOrder,
}

impl NoonPaymentsCancelRequest {
    /// The request to reverse the payment of `item`.
    pub fn try_from(item: &PaymentsCancelRouterData) -> (r: Result<Self, ConnectorError>)
        ensures
            r matches Ok(request) && request.api_operation == NoonApiOperations::Reverse
                && request.order.id == item.request.connector_transaction_id,
    {
        let order = NoonActionOrder { id: item.request.connector_transaction_id.clone() };
        Ok(NoonPaymentsCancelRequest { api_operation: NoonApiOperations::Reverse, order })
    }
}

/// The request to revoke a mandate.
#[derive(Clone, PartialEq, Eq)]
pub struct NoonRevokeMandateRequest {
    pub api_operation: NoonApiOperations,
    pub subscription: NoonSubscriptionObject,
}

impl NoonRevokeMandateRequest {
    /// The request to cancel the subscription that stands for the mandate of `item`.
    pub fn try_from(item: &MandateRevokeRouterData) -> (r: Result<Self, ConnectorError>)
        ensures
            match item.request.connector_mandate_id {
                Some(id) => r matches Ok(request) && request.api_operation
                    == NoonApiOperations::CancelSubscription && request.subscription.identifier@
                    == id@,
                None => r matches Err(e) && e@ == missing_field("connector_mandate_id"@),
            },
    {
        Ok(
            NoonRevokeMandateRequest {
                api_operation: NoonApiOperations::CancelSubscription,
                subscription: NoonSubscriptionObject {
                    identifier: Secret::new(item.request.get_connector_mandate_id()?),
                },
            },
        )
    }
}

/// What Noon reports of a subscription that was to be cancelled.
#[derive(Clone, Copy, Debug, PartialEq, Eq, Structural)]
pub enum NoonRevokeStatus {
    Cancelled,
}

/// The subscription of an answer to a revocation.
#[derive(Clone, Copy, Debug, PartialEq, Eq, Structural)]
pub struct NoonCancelSubscriptionObject {
    pub status: NoonRevokeStatus,
}

/// The result of a revocation.
#[derive(Clone, Copy, Debug, PartialEq, Eq, Structural)]
pub struct NoonRevokeMandateResult {
    pub subscription: NoonCancelSubscriptionObject,
}

/// Noon's answer to the revocation of a mandate.
#[derive(Clone, Copy, Debug, PartialEq, Eq, Structural)]
pub struct NoonRevokeMandateResponse {
    pub result: NoonRevokeMandateResult,
}

/// Translates Noon's answer to the revocation of a mandate: a cancelled
/// subscription is a revoked mandate.
pub fn parse_revoke_mandate_response(
    item: ResponseRouterData<
        NoonRevokeMandateResponse,
        MandateRevokeRequestData,
        MandateRevokeResponseData,
    >,
) -> (r: Result<MandateRevokeRouterData, ConnectorError>)
    ensures
        r matches Ok(data) && {
            &&& data.carries_rest_of(item.data)
            &&& data.status == item.data.status
            &&& data.response == Ok::<MandateRevokeResponseData, ErrorResponse>(
                MandateRevokeResponseData { mandate_status: MandateStatus::Revoked },
            )
        },
{
    let ResponseRouterData { response, data, http_code: _ } = item;
    let status = data.status;
    match response.result.subscription.status {
        NoonRevokeStatus::Cancelled => Ok(
            data.with_response(
                status,
                Ok(MandateRevokeResponseData { mandate_status: MandateStatus::Revoked }),
            ),
        ),
    }
}

impl TryFrom<ResponseRouterData<NoonRevokeMandateResponse, MandateRevokeRequestData, MandateRevokeResponseData>> for RouterData<MandateRevokeRequestData, MandateRevokeResponseData> {
    type Error = ConnectorError;

    /// Translates Noon's answer to the revocation of a mandate, as
    /// `parse_revoke_mandate_response` does.
    fn try_from(item: ResponseRouterData<NoonRevokeMandateResponse, MandateRevokeRequestData, MandateRevokeResponseData>) -> (r: Result<Self, Self::Error>)
        ensures
            r matches Ok(data) && {
                &&& data.carries_rest_of(item.data)
                &&& data.status == item.data.status
                &&& data.response == Ok::<MandateRevokeResponseData, ErrorResponse>(
                    MandateRevokeResponseData { mandate_status: MandateStatus::Revoked },
                )
            },
    {
        parse_revoke_mandate_response(item)
    }
}

/// What `try_from` returns is stated by its own clauses, over the texts that
/// the result holds, and not as one value.
impl vstd::std_specs::convert::TryFromSpecImpl<ResponseRouterData<NoonRevokeMandateResponse, MandateRevokeRequestData, MandateRevokeResponseData>> for RouterData<MandateRevokeRequestData, MandateRevokeResponseData> {
    open spec fn obeys_try_from_spec() -> bool {
        false
    }

    open spec fn try_from_spec(item: ResponseRouterData<NoonRevokeMandateResponse, MandateRevokeRequestData, MandateRevokeResponseData>) -> Result<Self, Self::Error> {
        arbitrary()
    }
}

/// What Noon reports of a refund.
#[derive(Clone, Copy, Debug, PartialEq, Eq, Structural)]
pub enum RefundStatus {
    Success,
    Failed,
    Pending,
}

/// The state of a refund that a state of Noon stands for.
pub open spec fn noon_refund_status(item: RefundStatus) -> RouterRefundStatus {
    match item {
        RefundStatus::Success => RouterRefundStatus::Success,
        RefundStatus::Failed => RouterRefundStatus::Failure,
        RefundStatus::Pending => RouterRefundStatus::Pending,
    }
}

impl RefundStatus {
    /// The state of the refund that this state stands for.
    pub fn into_refund_status(self) -> (r: RouterRefundStatus)
        ensures
            r == noon_refund_status(self),
    {
        match self {
            RefundStatus::Success => RouterRefundStatus::Success,
            RefundStatus::Failed => RouterRefundStatus::Failure,
            RefundStatus::Pending => RouterRefundStatus::Pending,
        }
    }
}

impl From<RefundStatus> for RouterRefundStatus {
    /// The state of the refund that a state of Noon stands for.
    fn from(item: RefundStatus) -> (r: Self) {
        item.into_refund_status()
    }
}

impl vstd::std_specs::convert::FromSpecImpl<RefundStatus> for RouterRefundStatus {
    open spec fn obeys_from_spec() -> bool {
        true
    }

    open spec fn from_spec(item: RefundStatus) -> Self {
        noon_refund_status(item)
    }
}

/// The transaction of a refund.
#[derive(Clone, Debug, PartialEq, Eq)]
pub struct NoonPaymentsTransactionResponse {
    pub id: String,
    pub status: RefundStatus,
}

/// The result of a refund request.
#[derive(Clone, Debug, PartialEq, Eq)]
pub struct NoonRefundResponseResult {
    pub transaction: NoonPaymentsTransactionResponse,
}

/// Noon's answer to a refund request.
#[derive(Clone, Debug, PartialEq, Eq)]
pub struct RefundResponse {
    pub result: NoonRefundResponseResult,
    pub result_code: u32,
    pub class_description: String,
    pub message: String,
}

/// Whether `error` is the failure of the refund transaction `transaction_id`
/// that an answer with the given code, class and message reports.
pub open spec fn is_refund_error(
    error: ErrorResponse,
    http_code: u16,
    result_code: u32,
    class_description: String,
    message: String,
    transaction_id: String,
) -> bool {
    &&& error.status_code == http_code
    &&& error.code@ == decimal_digits(result_code as nat)
    &&& error.message == class_description
    &&& error.reason == Some(message)
    &&& error.attempt_status is None
    &&& error.connector_transaction_id == Some(transaction_id)
    &&& error.network_advice_code is None
    &&& error.network_decline_code is None
    &&& error.network_error_message is None
}

/// The response that a refund transaction in the state `status` gives: an
/// error when the refund failed, and the state of the refund otherwise.
fn refund_response(
    status: RefundStatus,
    transaction_id: String,
    http_code: u16,
    result_code: u32,
    class_description: &String,
    message: &String,
) -> (r: Result<RefundsResponseData, ErrorResponse>)
    ensures
        r is Err <==> status == RefundStatus::Failed,
        r matches Err(error) ==> is_refund_error(
            error,
            http_code,
            result_code,
            *class_description,
            *message,
            transaction_id,
        ),
        r matches Ok(refund) ==> refund.connector_refund_id == transaction_id
            && refund.refund_status == noon_refund_status(status),
{
    let refund_status = status.into_refund_status();
    if is_refund_failure(refund_status) {
        Err(
            ErrorResponse {
                status_code: http_code,
                code: u64_to_string(result_code as u64),
                message: class_description.clone(),
                reason: Some(message.clone()),
                attempt_status: None,
                connector_transaction_id: Some(transaction_id),
                network_advice_code: None,
                network_decline_code: None,
                network_error_message: None,
            },
        )
    } else {
        Ok(RefundsResponseData { connector_refund_id: transaction_id, refund_status })
    }
}

/// Translates Noon's answer to a refund request. A failed refund gives an
/// error response with the code, the class and the message of the answer;
/// any other gives the state of the refund.
pub fn parse_refund_response(
    item: ResponseRouterData<RefundResponse, RefundsData, RefundsResponseData>,
) -> (r: Result<RefundsRouterData, ConnectorError>)
    ensures
        r matches Ok(data) && {
            let transaction = item.response.result.transaction;
            &&& data.carries_rest_of(item.data)
            &&& data.status == item.data.status
            &&& data.response is Err <==> transaction.status == RefundStatus::Failed
            &&& data.response matches Err(error) ==> is_refund_error(
                error,
                item.http_code,
                item.response.result_code,
                item.response.class_description,
                item.response.message,
                transaction.id,
            )
            &&& data.response matches Ok(refund) ==> refund.connector_refund_id == transaction.id
                && refund.refund_status == noon_refund_status(transaction.status)
        },
{
    let ResponseRouterData { response, data, http_code } = item;
    let result = refund_response(
        response.result.transaction.status,
        response.result.transaction.id,
        http_code,
        response.result_code,
        &response.class_description,
        &response.message,
    );
    let status = data.status;
    Ok(data.with_response(status, result))
}

impl TryFrom<ResponseRouterData<RefundResponse, RefundsData, RefundsResponseData>> for RouterData<RefundsData, RefundsResponseData> {
    type Error = ConnectorError;

    /// Translates Noon's answer to a refund request, as `parse_refund_response` does.
    fn try_from(item: ResponseRouterData<RefundResponse, RefundsData, RefundsResponseData>) -> (r: Result<Self, Self::Error>)
        ensures
            r matches Ok(data) && {
                let transaction = item.response.result.transaction;
                &&& data.carries_rest_of(item.data)
                &&& data.status == item.data.status
                &&& data.response is Err <==> transaction.status == RefundStatus::Failed
                &&& data.response matches Err(error) ==> is_refund_error(
                    error,
                    item.http_code,
                    item.response.result_code,
                    item.response.class_description,
                    item.response.message,
                    transaction.id,
                )
                &&& data.response matches Ok(refund) ==> refund.connector_refund_id == transaction.id
                    && refund.refund_status == noon_refund_status(transaction.status)
            },
    {
        parse_refund_response(item)
    }
}

/// What `try_from` returns is stated by its own clauses, over the texts that
/// the result holds, and not as one value.
impl vstd::std_specs::convert::TryFromSpecImpl<ResponseRouterData<RefundResponse, RefundsData, RefundsResponseData>> for RouterData<RefundsData, RefundsResponseData> {
    open spec fn obeys_try_from_spec() -> bool {
        false
    }

    open spec fn try_from_spec(item: ResponseRouterData<RefundResponse, RefundsData, RefundsResponseData>) -> Result<Self, Self::Error> {
        arbitrary()
    }
}

/// One refund transaction of an order.
#[derive(Clone, Debug, PartialEq, Eq)]
pub struct NoonRefundResponseTransactions {
    pub id: String,
    pub status: RefundStatus,
    pub transaction_reference: Option<String>,
}

/// The result of a request for the state of a refund.
#[derive(Clone, Debug, PartialEq, Eq)]
pub struct NoonRefundSyncResponseResult {
    pub transactions: Vec<NoonRefundResponseTransactions>,
}

/// Noon's answer to a request for the state of a refund.
#[derive(Clone, Debug, PartialEq, Eq)]
pub struct RefundSyncResponse {
    pub result: NoonRefundSyncResponseResult,
    pub result_code: u32,
    pub class_description: String,
    pub message: String,
}

/// Whether the transaction refers to the refund `refund_id`.
pub open spec fn refers_to(transaction: NoonRefundResponseTransactions, refund_id: Seq<char>) -> bool {
    transaction.transaction_reference matches Some(reference) && reference@ == refund_id
}

/// Whether `index` is the position of the first transaction that refers to
/// the refund `refund_id`.
pub open spec fn is_first_reference(
    transactions: Seq<NoonRefundResponseTransactions>,
    refund_id: Seq<char>,
    index: int,
) -> bool {
    &&& 0 <= index < transactions.len()
    &&& refers_to(transactions[index], refund_id)
    &&& forall|j: int| 0 <= j < index ==> !refers_to(#[trigger] transactions[j], refund_id)
}

/// Whether some transaction refers to the refund `refund_id`.
pub open spec fn has_reference(
    transactions: Seq<NoonRefundResponseTransactions>,
    refund_id: Seq<char>,
) -> bool {
    exists|j: int| 0 <= j < transactions.len() && refers_to(#[trigger] transactions[j], refund_id)
}

/// The position of the first transaction that refers to the refund
/// `refund_id`, if there is one.
pub fn find_refund_transaction(
    transactions: &Vec<NoonRefundResponseTransactions>,
    refund_id: &String,
) -> (r: Option<usize>)
    ensures
        r is Some <==> has_reference(transactions@, refund_id@),
        r matches Some(index) ==> is_first_reference(transactions@, refund_id@, index as int),
{
    let mut i: usize = 0;
    while i < transactions.len()
        invariant
            i <= transactions.len(),
            forall|j: int| 0 <= j < i ==> !refers_to(#[trigger] transactions@[j], refund_id@),
        decreases transactions.len() - i,
    {
        let matches_refund = match &transactions[i].transaction_reference {
            Some(reference) => *reference == *refund_id,
            None => false,
        };
        if matches_refund {
            return Some(i);
        }
        i += 1;
    }
    None
}

/// Translates Noon's answer to a request for the state of a refund. The
/// first transaction that refers to the refund tells its state; an answer in
/// which no transaction refers to it cannot be handled.
pub fn parse_refund_sync_response(
    item: ResponseRouterData<RefundSyncResponse, RefundsData, RefundsResponseData>,
) -> (r: Result<RefundsRouterData, ConnectorError>)
    ensures
        !has_reference(item.response.result.transactions@, item.data.request.refund_id@) ==> (
        r matches Err(e) && e@ == ConnectorErrorView::ResponseHandlingFailed),
        has_reference(item.response.result.transactions@, item.data.request.refund_id@) ==> {
            &&& r matches Ok(data)
            &&& data.carries_rest_of(item.data)
            &&& data.status == item.data.status
            &&& exists|index: int|
                {
                    let transaction = item.response.result.transactions@[index];
                    &&& #[trigger] is_first_reference(
                        item.response.result.transactions@,
                        item.data.request.refund_id@,
                        index,
                    )
                    &&& data.response is Err <==> transaction.status == RefundStatus::Failed
                    &&& data.response matches Err(error) ==> is_refund_error(
                        error,
                        item.http_code,
                        item.response.result_code,
                        item.response.class_description,
                        item.response.message,
                        transaction.id,
                    )
                    &&& data.response matches Ok(refund) ==> refund.connector_refund_id
                        == transaction.id && refund.refund_status == noon_refund_status(
                        transaction.status,
                    )
                }
        },
{
    let ResponseRouterData { response, data, http_code } = item;
    let index = match find_refund_transaction(&response.result.transactions, &data.request.refund_id) {
        Some(index) => index,
        None => {
            return Err(ConnectorError::ResponseHandlingFailed);
        },
    };
    let noon_transaction = &response.result.transactions[index];
    let result = refund_response(
        noon_transaction.status,
        noon_transaction.id.clone(),
        http_code,
        response.result_code,
        &response.class_description,
        &response.message,
    );
    let status = data.status;
    let updated = data.with_response(status, result);
    proof {
        assert(is_first_reference(
            item.response.result.transactions@,
            item.data.request.refund_id@,
            index as int,
        ));
    }
    Ok(updated)
}

impl TryFrom<ResponseRouterData<RefundSyncResponse, RefundsData, RefundsResponseData>> for RouterData<RefundsData, RefundsResponseData> {
    type Error = ConnectorError;

    /// Translates Noon's answer to a request for the state of a refund, as
    /// `parse_refund_sync_response` does.
    fn try_from(item: ResponseRouterData<RefundSyncResponse, RefundsData, RefundsResponseData>) -> (r: Result<Self, Self::Error>)
        ensures
            !has_reference(item.response.result.transactions@, item.data.request.refund_id@) ==> (
            r matches Err(e) && e@ == ConnectorErrorView::ResponseHandlingFailed),
            has_reference(item.response.result.transactions@, item.data.request.refund_id@) ==> {
                &&& r matches Ok(data)
                &&& data.carries_rest_of(item.data)
                &&& data.status == item.data.status
                &&& exists|index: int|
                    {
                        let transaction = item.response.result.transactions@[index];
                        &&& #[trigger] is_first_reference(
                            item.response.result.transactions@,
                            item.data.request.refund_id@,
                            index,
                        )
                        &&& data.response is Err <==> transaction.status == RefundStatus::Failed
                        &&& data.response matches Err(error) ==> is_refund_error(
                            error,
                            item.http_code,
                            item.response.result_code,
                            item.response.class_description,
                            item.response.message,
                            transaction.id,
                        )
                        &&& data.response matches Ok(refund) ==> refund.connector_refund_id
                            == transaction.id && refund.refund_status == noon_refund_status(
                            transaction.status,
                        )
                    }
            },
    {
        parse_refund_sync_response(item)
    }
}

/// What `try_from` returns is stated by its own clauses, over the texts that
/// the result holds, and not as one value.
impl vstd::std_specs::convert::TryFromSpecImpl<ResponseRouterData<RefundSyncResponse, RefundsData, RefundsResponseData>> for RouterData<RefundsData, RefundsResponseData> {
    open spec fn obeys_try_from_spec() -> bool {
        false
    }

    open spec fn try_from_spec(item: ResponseRouterData<RefundSyncResponse, RefundsData, RefundsResponseData>) -> Result<Self, Self::Error> {
        arbitrary()
    }
}

/// What a webhook of Noon is about.
#[derive(Clone, Copy, Debug, PartialEq, Eq, Structural)]
pub enum NoonWebhookEventTypes {
    Authenticate,
    Authorize,
    Capture,
    Fail,
    Refund,
    Sale,
    Unknown,
}

/// The body of a webhook.
#[derive(Clone, Debug, PartialEq, Eq)]
pub struct NoonWebhookBody {
    pub order_id: u64,
    pub order_status: NoonPaymentStatus,
    pub event_type: NoonWebhookEventTypes,
    pub event_id: String,
    pub time_stamp: String,
}

/// The signature of a webhook.
#[derive(Clone, Debug, PartialEq, Eq)]
pub struct NoonWebhookSignature {
    pub signature: String,
}

/// The order of a webhook.
#[derive(Clone, Copy, Debug, PartialEq, Eq, Structural)]
pub struct NoonWebhookOrderId {
    pub order_id: u64,
}

/// The event of a webhook.
#[derive(Clone, Copy, Debug, PartialEq, Eq, Structural)]
pub struct NoonWebhookEvent {
    pub order_status: NoonPaymentStatus,
    pub event_type: NoonWebhookEventTypes,
}

/// What a webhook says of an order.
#[derive(Clone, Copy, Debug, PartialEq, Eq, Structural)]
pub struct NoonWebhookObject {
    pub order_status: NoonPaymentStatus,
    pub order_id: u64,
}

impl NoonPaymentsResponse {
    /// The payment response that says what a webhook says, so that a
    /// notification is translated exactly as an answer to a request for the
    /// state of the payment is: the order in its state, without an error,
    /// a checkout or a subscription.
    pub fn from(value: NoonWebhookObject) -> (r: Self)
        ensures
            r.result.order == (NoonPaymentsOrderResponse {
                status: value.order_status,
                id: value.order_id,
                error_code: 0,
                error_message: None,
                reference: None,
            }),
            r.result.checkout_data is None,
            r.result.subscription is None,
    {
        NoonPaymentsResponse {
            result: NoonPaymentsResponseResult {
                order: NoonPaymentsOrderResponse {
                    status: value.order_status,
                    id: value.order_id,
                    //For successful payments Noon Always populates error_code as 0.
                    error_code: 0,
                    error_message: None,
                    reference: None,
                },
                checkout_data: None,
                subscription: None,
            },
        }
    }
}

/// Noon's answer when it refuses a request.
#[derive(Clone, Debug, PartialEq, Eq)]
pub struct NoonErrorResponse {
    pub result_code: u32,
    pub message: String,
    pub class_description: String,
}

} // verus!
