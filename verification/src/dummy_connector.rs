//! The dummy connectors: stand-ins for real processors, for trying out an
//! integration.

use vstd::prelude::*;
use crate::enums::Currency;
use crate::payment_method_data::CardNumber;
use crate::secret::Secret;
use crate::text::concatenate;

verus! {

/// `time::PrimitiveDateTime`, a date and a time of day; it is carried
/// through and never looked into.
#[verifier::external_type_specification]
#[verifier::external_body]
pub struct ExPrimitiveDateTime(time::PrimitiveDateTime);

/// The operations of a dummy connector.
#[derive(Clone, Copy, Debug, PartialEq, Eq, Structural)]
pub enum Flow {
    DummyPaymentCreate,
    DummyPaymentRetrieve,
    DummyPaymentAuthorize,
    DummyPaymentComplete,
    DummyRefundCreate,
    DummyRefundRetrieve,
}

/// Why a dummy connector refuses a request.
#[derive(Clone, Copy, Debug, PartialEq, Eq, Structural)]
pub enum DummyConnectorErrors {
    PaymentNotFound,
    RefundAmountExceedsPaymentAmount,
    CardNotSupported,
    RefundNotFound,
    PaymentNotSuccessful,
    PaymentStoringError,
    PaymentDeclined,
    InternalServerError,
}

/// The dummy connectors.
#[derive(Clone, Copy, Debug, PartialEq, Eq, Structural)]
pub enum DummyConnectors {
    PhonyPay,
    FauxPay,
    PretendPay,
    StripeTest,
    AdyenTest,
    CheckoutTest,
    PaypalTest,
}

impl DummyConnectors {
    /// The file with the image of the connector; a connector without an image
    /// of its own shows that of PhonyPay.
    pub open spec fn image_name(self) -> Seq<char> {
        match self {
            DummyConnectors::PhonyPay => "PHONYPAY.svg"@,
            DummyConnectors::FauxPay => "FAUXPAY.svg"@,
            DummyConnectors::PretendPay => "PRETENDPAY.svg"@,
            DummyConnectors::StripeTest => "STRIPE_TEST.svg"@,
            DummyConnectors::PaypalTest => "PAYPAL_TEST.svg"@,
            _ => "PHONYPAY.svg"@,
        }
    }

    /// The address of the image of the connector below `base_url`.
    pub fn get_connector_image_link(self, base_url: &str) -> (r: String)
        ensures
            r@ == base_url@ + self.image_name(),
    {
        let image_name = match self {
            DummyConnectors::PhonyPay => "PHONYPAY.svg",
            DummyConnectors::FauxPay => "FAUXPAY.svg",
            DummyConnectors::PretendPay => "PRETENDPAY.svg",
            DummyConnectors::StripeTest => "STRIPE_TEST.svg",
            DummyConnectors::PaypalTest => "PAYPAL_TEST.svg",
            _ => "PHONYPAY.svg",
        };
        concatenate(base_url, image_name)
    }
}

/// The state of a payment or a refund at a dummy connector.
#[derive(Clone, Copy, Debug, PartialEq, Eq, Structural)]
pub enum DummyConnectorStatus {
    Succeeded,
    Processing,
    Failed,
}

/// What is shown of a payment method: its name and its image.
pub trait GetPaymentMethodDetails {
    /// The name of the payment method.
    spec fn name_spec(&self) -> Seq<char>;

    /// The file with the image of the payment method.
    spec fn image_name_spec(&self) -> Seq<char>;

    /// The name of the payment method.
    fn get_name(&self) -> (r: &'static str)
        ensures
            r@ == self.name_spec(),
    ;

    /// The address of the image of the payment method below `base_url`.
    fn get_image_link(&self, base_url: &str) -> (r: String)
        ensures
            r@ == base_url@ + self.image_name_spec(),
    ;
}

/// The wallets of a dummy connector.
#[derive(Clone, Copy, Debug, PartialEq, Eq, Structural)]
pub enum DummyConnectorWallet {
    GooglePay,
    Paypal,
    WeChatPay,
    MbWay,
    AliPay,
    AliPayHK,
}

/// The kinds of UPI payment of a dummy connector.
#[derive(Clone, Copy, Debug, PartialEq, Eq, Structural)]
pub enum DummyConnectorUpiType {
    UpiCollect,
}

/// The pay-later providers of a dummy connector.
#[derive(Clone, Copy, Debug, PartialEq, Eq, Structural)]
pub enum DummyConnectorPayLater {
    Klarna,
    Affirm,
    AfterPayClearPay,
}

impl GetPaymentMethodDetails for DummyConnectorUpiType {
    open spec fn name_spec(&self) -> Seq<char> {
        "UPI Collect"@
    }

    open spec fn image_name_spec(&self) -> Seq<char> {
        "UPI_COLLECT.svg"@
    }

    fn get_name(&self) -> (r: &'static str) {
        match self {
            DummyConnectorUpiType::UpiCollect => "UPI Collect",
        }
    }

    fn get_image_link(&self, base_url: &str) -> (r: String) {
        let image_name = match self {
            DummyConnectorUpiType::UpiCollect => "UPI_COLLECT.svg",
        };
        concatenate(base_url, image_name)
    }
}

impl GetPaymentMethodDetails for DummyConnectorWallet {
    open spec fn name_spec(&self) -> Seq<char> {
        match self {
            DummyConnectorWallet::GooglePay => "Google Pay"@,
            DummyConnectorWallet::Paypal => "PayPal"@,
            DummyConnectorWallet::WeChatPay => "WeChat Pay"@,
            DummyConnectorWallet::MbWay => "Mb Way"@,
            DummyConnectorWallet::AliPay => "Alipay"@,
            DummyConnectorWallet::AliPayHK => "Alipay HK"@,
        }
    }

    open spec fn image_name_spec(&self) -> Seq<char> {
        match self {
            DummyConnectorWallet::GooglePay => "GOOGLE_PAY.svg"@,
            DummyConnectorWallet::Paypal => "PAYPAL.svg"@,
            DummyConnectorWallet::WeChatPay => "WECHAT_PAY.svg"@,
            DummyConnectorWallet::MbWay => "MBWAY.svg"@,
            DummyConnectorWallet::AliPay => "ALIPAY.svg"@,
            DummyConnectorWallet::AliPayHK => "ALIPAY.svg"@,
        }
    }

    fn get_name(&self) -> (r: &'static str) {
        match self {
            DummyConnectorWallet::GooglePay => "Google Pay",
            DummyConnectorWallet::Paypal => "PayPal",
            DummyConnectorWallet::WeChatPay => "WeChat Pay",
            DummyConnectorWallet::MbWay => "Mb Way",
            DummyConnectorWallet::AliPay => "Alipay",
            DummyConnectorWallet::AliPayHK => "Alipay HK",
        }
    }

    fn get_image_link(&self, base_url: &str) -> (r: String) {
        let image_name = match self {
            DummyConnectorWallet::GooglePay => "GOOGLE_PAY.svg",
            DummyConnectorWallet::Paypal => "PAYPAL.svg",
            DummyConnectorWallet::WeChatPay => "WECHAT_PAY.svg",
            DummyConnectorWallet::MbWay => "MBWAY.svg",
            DummyConnectorWallet::AliPay => "ALIPAY.svg",
            DummyConnectorWallet::AliPayHK => "ALIPAY.svg",
        };
        concatenate(base_url, image_name)
    }
}

impl GetPaymentMethodDetails for DummyConnectorPayLater {
    open spec fn name_spec(&self) -> Seq<char> {
        match self {
            DummyConnectorPayLater::Klarna => "Klarna"@,
            DummyConnectorPayLater::Affirm => "Affirm"@,
            DummyConnectorPayLater::AfterPayClearPay => "Afterpay Clearpay"@,
        }
    }

    open spec fn image_name_spec(&self) -> Seq<char> {
        match self {
            DummyConnectorPayLater::Klarna => "KLARNA.svg"@,
            DummyConnectorPayLater::Affirm => "AFFIRM.svg"@,
            DummyConnectorPayLater::AfterPayClearPay => "AFTERPAY.svg"@,
        }
    }

    fn get_name(&self) -> (r: &'static str) {
        match self {
            DummyConnectorPayLater::Klarna => "Klarna",
            DummyConnectorPayLater::Affirm => "Affirm",
            DummyConnectorPayLater::AfterPayClearPay => "Afterpay Clearpay",
        }
    }

    fn get_image_link(&self, base_url: &str) -> (r: String) {
        let image_name = match self {
            DummyConnectorPayLater::Klarna => "KLARNA.svg",
            DummyConnectorPayLater::Affirm => "AFFIRM.svg",
            DummyConnectorPayLater::AfterPayClearPay => "AFTERPAY.svg",
        };
        concatenate(base_url, image_name)
    }
}

/// A card presented to a dummy connector.
#[derive(Clone, PartialEq, Eq)]
pub struct DummyConnectorCard {
    pub name: Secret,
    pub number: CardNumber,
    pub expiry_month: Secret,
    pub expiry_year: Secret,
    pub cvc: Secret,
}

/// A UPI collect request.
#[derive(Clone, PartialEq, Eq)]
pub struct DummyConnectorUpiCollect {
    pub vpa_id: Secret,
}

/// A UPI payment presented to a dummy connector.
#[derive(Clone, PartialEq, Eq)]
pub enum DummyConnectorUpi {
    UpiCollect(DummyConnectorUpiCollect),
}

/// What the customer pays with at a dummy connector.
#[derive(Clone, PartialEq, Eq)]
pub enum DummyConnectorPaymentMethodData {
    Card(DummyConnectorCard),
    Upi(DummyConnectorUpi),
    Wallet(DummyConnectorWallet),
    PayLater(DummyConnectorPayLater),
}

/// The kind of payment method, without its data.
#[derive(Clone, Copy, Debug, PartialEq, Eq, Structural)]
pub enum DummyConnectorPaymentMethodType {
    Card,
    Upi(DummyConnectorUpiType),
    Wallet(DummyConnectorWallet),
    PayLater(DummyConnectorPayLater),
}

/// The kind of the payment method `value`.
pub open spec fn payment_method_type_of(
    value: DummyConnectorPaymentMethodData,
) -> DummyConnectorPaymentMethodType {
    match value {
        DummyConnectorPaymentMethodData::Card(_) => DummyConnectorPaymentMethodType::Card,
        DummyConnectorPaymentMethodData::Upi(_) => DummyConnectorPaymentMethodType::Upi(
            DummyConnectorUpiType::UpiCollect,
        ),
        DummyConnectorPaymentMethodData::Wallet(wallet) => DummyConnectorPaymentMethodType::Wallet(
            wallet,
        ),
        DummyConnectorPaymentMethodData::PayLater(pay_later) =>
            DummyConnectorPaymentMethodType::PayLater(pay_later),
    }
}

impl DummyConnectorPaymentMethodType {
    /// The kind of the payment method `value`.
    pub fn from(value: DummyConnectorPaymentMethodData) -> (r: Self)
        ensures
            r == payment_method_type_of(value),
    {
        match value {
            DummyConnectorPaymentMethodData::Card(_) => DummyConnectorPaymentMethodType::Card,
            DummyConnectorPaymentMethodData::Upi(upi_data) => match upi_data {
                DummyConnectorUpi::UpiCollect(_) => DummyConnectorPaymentMethodType::Upi(
                    DummyConnectorUpiType::UpiCollect,
                ),
            },
            DummyConnectorPaymentMethodData::Wallet(wallet) =>
                DummyConnectorPaymentMethodType::Wallet(wallet),
            DummyConnectorPaymentMethodData::PayLater(pay_later) =>
                DummyConnectorPaymentMethodType::PayLater(pay_later),
        }
    }
}

impl GetPaymentMethodDetails for DummyConnectorPaymentMethodType {
    open spec fn name_spec(&self) -> Seq<char> {
        match self {
            DummyConnectorPaymentMethodType::Card => "3D Secure"@,
            DummyConnectorPaymentMethodType::Upi(upi_type) => upi_type.name_spec(),
            DummyConnectorPaymentMethodType::Wallet(wallet) => wallet.name_spec(),
            DummyConnectorPaymentMethodType::PayLater(pay_later) => pay_later.name_spec(),
        }
    }

    open spec fn image_name_spec(&self) -> Seq<char> {
        match self {
            DummyConnectorPaymentMethodType::Card => "CARD.svg"@,
            DummyConnectorPaymentMethodType::Upi(upi_type) => upi_type.image_name_spec(),
            DummyConnectorPaymentMethodType::Wallet(wallet) => wallet.image_name_spec(),
            DummyConnectorPaymentMethodType::PayLater(pay_later) => pay_later.image_name_spec(),
        }
    }

    fn get_name(&self) -> (r: &'static str) {
        match self {
            DummyConnectorPaymentMethodType::Card => "3D Secure",
            DummyConnectorPaymentMethodType::Upi(upi_type) => upi_type.get_name(),
            DummyConnectorPaymentMethodType::Wallet(wallet) => wallet.get_name(),
            DummyConnectorPaymentMethodType::PayLater(pay_later) => pay_later.get_name(),
        }
    }

    fn get_image_link(&self, base_url: &str) -> (r: String) {
        match self {
            DummyConnectorPaymentMethodType::Card => concatenate(base_url, "CARD.svg"),
            DummyConnectorPaymentMethodType::Upi(upi_type) => upi_type.get_image_link(base_url),
            DummyConnectorPaymentMethodType::Wallet(wallet) => wallet.get_image_link(base_url),
            DummyConnectorPaymentMethodType::PayLater(pay_later) => pay_later.get_image_link(
                base_url,
            ),
        }
    }
}

/// How a card payment proceeds at a dummy connector.
#[derive(Clone, Copy, Debug, PartialEq, Eq, Structural)]
pub enum DummyConnectorCardFlow {
    NoThreeDS(DummyConnectorStatus, Option<DummyConnectorErrors>),
    ThreeDS(DummyConnectorStatus, Option<DummyConnectorErrors>),
}

/// How a UPI payment proceeds at a dummy connector.
#[derive(Clone, Copy, Debug, PartialEq, Eq, Structural)]
pub struct DummyConnectorUpiFlow {
    pub status: DummyConnectorStatus,
    pub error: Option<DummyConnectorErrors>,
    pub is_next_action_required: bool,
}

/// What the customer has to do next.
#[derive(Clone, Debug, PartialEq, Eq)]
pub enum DummyConnectorNextAction {
    RedirectToUrl(String),
}

/// The request to pay at a dummy connector.
#[derive(Clone, PartialEq, Eq)]
pub struct DummyConnectorPaymentRequest {
    pub amount: i64,
    pub currency: Currency,
    pub payment_method_data: DummyConnectorPaymentMethodData,
    pub return_url: Option<String>,
    pub connector: DummyConnectors,
}

/// One attempt to pay at a dummy connector.
#[derive(PartialEq, Eq)]
pub struct DummyConnectorPaymentAttempt {
    pub timestamp: time::PrimitiveDateTime,
    pub attempt_id: String,
    pub payment_id: String,
    pub payment_request: DummyConnectorPaymentRequest,
}

/// What a dummy connector keeps of a payment.
#[derive(Debug, PartialEq)]
pub struct DummyConnectorPaymentData {
    pub attempt_id: String,
    pub payment_id: String,
    pub status: DummyConnectorStatus,
    pub amount: i64,
    pub eligible_amount: i64,
    pub currency: Currency,
    pub created: time::PrimitiveDateTime,
    pub payment_method_type: DummyConnectorPaymentMethodType,
    pub connector: DummyConnectors,
    pub next_action: Option<DummyConnectorNextAction>,
    pub return_url: Option<String>,
}

impl DummyConnectorPaymentAttempt {
    /// The attempt to fulfil `payment_request`, made at `timestamp` and known
    /// by the two identifiers.
    pub fn new(
        timestamp: time::PrimitiveDateTime,
        attempt_id: String,
        payment_id: String,
        payment_request: DummyConnectorPaymentRequest,
    ) -> (r: Self)
        ensures
            r.timestamp == timestamp,
            r.attempt_id == attempt_id,
            r.payment_id == payment_id,
            r.payment_request == payment_request,
    {
        DummyConnectorPaymentAttempt { timestamp, attempt_id, payment_id, payment_request }
    }

    /// What is kept of the payment after the attempt: the whole amount can
    /// still be refunded.
    pub fn build_payment_data(
        self,
        status: DummyConnectorStatus,
        next_action: Option<DummyConnectorNextAction>,
        return_url: Option<String>,
    ) -> (r: DummyConnectorPaymentData)
        ensures
            r.attempt_id == self.attempt_id,
            r.payment_id == self.payment_id,
            r.status == status,
            r.amount == self.payment_request.amount,
            r.eligible_amount == self.payment_request.amount,
            r.connector == self.payment_request.connector,
            r.created == self.timestamp,
            r.currency == self.payment_request.currency,
            r.payment_method_type == payment_method_type_of(
                self.payment_request.payment_method_data,
            ),
            r.next_action == next_action,
            r.return_url == return_url,
    {
        DummyConnectorPaymentData {
            attempt_id: self.attempt_id,
            payment_id: self.payment_id,
            status,
            amount: self.payment_request.amount,
            eligible_amount: self.payment_request.amount,
            connector: self.payment_request.connector,
            created: self.timestamp,
            currency: self.payment_request.currency,
            payment_method_type: DummyConnectorPaymentMethodType::from(
                self.payment_request.payment_method_data,
            ),
            next_action,
            return_url,
        }
    }
}

impl DummyConnectorPaymentData {
    /// Whether `refund_amount` can be refunded: not more than is left of the
    /// payment, and only of a payment that succeeded. The amount is looked at
    /// first.
    pub fn is_eligible_for_refund(&self, refund_amount: i64) -> (r: Result<
        (),
        DummyConnectorErrors,
    >)
        ensures
            r == if self.eligible_amount < refund_amount {
                Err::<(), DummyConnectorErrors>(
                    DummyConnectorErrors::RefundAmountExceedsPaymentAmount,
                )
            } else if self.status != DummyConnectorStatus::Succeeded {
                Err(DummyConnectorErrors::PaymentNotSuccessful)
            } else {
                Ok(())
            },
    {
        if self.eligible_amount < refund_amount {
            return Err(DummyConnectorErrors::RefundAmountExceedsPaymentAmount);
        }
        if self.status != DummyConnectorStatus::Succeeded {
            return Err(DummyConnectorErrors::PaymentNotSuccessful);
        }
        Ok(())
    }
}

/// What a dummy connector answers about a payment.
#[derive(Debug, PartialEq)]
pub struct DummyConnectorPaymentResponse {
    pub status: DummyConnectorStatus,
    pub id: String,
    pub amount: i64,
    pub currency: Currency,
    pub created: time::PrimitiveDateTime,
    pub payment_method_type: DummyConnectorPaymentMethodType,
    pub next_action: Option<DummyConnectorNextAction>,
}

impl DummyConnectorPaymentResponse {
    /// The answer that tells what is kept of a payment.
    pub fn from(value: DummyConnectorPaymentData) -> (r: Self)
        ensures
            r.status == value.status,
            r.id == value.payment_id,
            r.amount == value.amount,
            r.currency == value.currency,
            r.created == value.created,
            r.payment_method_type == value.payment_method_type,
            r.next_action == value.next_action,
    {
        DummyConnectorPaymentResponse {
            status: value.status,
            id: value.payment_id,
            amount: value.amount,
            currency: value.currency,
            created: value.created,
            payment_method_type: value.payment_method_type,
            next_action: value.next_action,
        }
    }
}

/// The request for the state of a payment.
#[derive(Clone, Debug, PartialEq, Eq)]
pub struct DummyConnectorPaymentRetrieveRequest {
    pub payment_id: String,
}

/// The request to confirm an attempt.
#[derive(Clone, Debug, PartialEq, Eq)]
pub struct DummyConnectorPaymentConfirmRequest {
    pub attempt_id: String,
}

/// The request to complete an attempt.
#[derive(Clone, Debug, PartialEq, Eq)]
pub struct DummyConnectorPaymentCompleteRequest {
    pub attempt_id: String,
    pub confirm: bool,
}

/// The body of the request to complete an attempt.
#[derive(Clone, Copy, Debug, PartialEq, Eq, Structural)]
pub struct DummyConnectorPaymentCompleteBody {
    pub confirm: bool,
}

/// The request to refund a payment.
#[derive(Clone, Debug, PartialEq, Eq)]
pub struct DummyConnectorRefundRequest {
    pub amount: i64,
    pub payment_id: Option<String>,
}

/// What a dummy connector answers about a refund.
#[derive(Debug, PartialEq)]
pub struct DummyConnectorRefundResponse {
    pub status: DummyConnectorStatus,
    pub id: String,
    pub currency: Currency,
    pub created: time::PrimitiveDateTime,
    pub payment_amount: i64,
    pub refund_amount: i64,
}

impl DummyConnectorRefundResponse {
    /// The answer about a refund.
    pub fn new(
        status: DummyConnectorStatus,
        id: String,
        currency: Currency,
        created: time::PrimitiveDateTime,
        payment_amount: i64,
        refund_amount: i64,
    ) -> (r: Self)
        ensures
            r.status == status,
            r.id == id,
            r.currency == currency,
            r.created == created,
            r.payment_amount == payment_amount,
            r.refund_amount == refund_amount,
    {
        DummyConnectorRefundResponse { status, id, currency, created, payment_amount, refund_amount }
    }
}

/// The request for the state of a refund.
#[derive(Clone, Debug, PartialEq, Eq)]
pub struct DummyConnectorRefundRetrieveRequest {
    pub refund_id: String,
}

} // verus!
