//! The ACI connector: requests in ACI's form-encoded vocabulary, and the
//! reading of its result codes and redirects.

use vstd::prelude::*;
use crate::amount::StringMajorUnit;
use crate::enums::{AttemptStatus, BankNames, CaptureMethod, CountryAlpha2, Method, RefundStatus};
use crate::errors::{
    bytes_from_string, get_unimplemented_payment_method_error_message, missing_field,
    not_implemented, not_implemented_error, unimplemented_payment_method_message, ConnectorError,
    ConnectorErrorView,
};
use crate::payment_method_data::{
    BankRedirectData, Card, CardNumber, PayLaterData, PaymentMethodData, WalletData,
};
use crate::redirect::{normalize_url, url_normal_form, FormFields, RedirectForm};
use crate::router_data::{
    mandate_reference_from_id, mandate_reference_of, number_with_hash_country_code,
    ConnectorAuthType, MandateIds, PaymentsAuthorizeData, PaymentsAuthorizeRouterData,
    PaymentsCancelData, PaymentsCancelRouterData, PaymentsCaptureRouterData, PaymentsResponseData,
    PaymentsSyncData, RefundsResponseData, RefundsRouterData, ResponseId, ResponseRouterData,
    RouterData,
};
use crate::secret::{clone_optional_secret, Secret};
use crate::text::clone_optional_string;

verus! {

/// A request that may say how its funds are to be captured.
pub trait GetCaptureMethod {
    /// The capture method that the request asks for.
    spec fn capture_method_spec(&self) -> Option<CaptureMethod>;

    /// The capture method that the request asks for.
    fn get_capture_method(&self) -> (r: Option<CaptureMethod>)
        ensures
            r == self.capture_method_spec(),
    ;
}

impl GetCaptureMethod for PaymentsAuthorizeData {
    open spec fn capture_method_spec(&self) -> Option<CaptureMethod> {
        self.capture_method
    }

    fn get_capture_method(&self) -> (r: Option<CaptureMethod>) {
        self.capture_method
    }
}

impl GetCaptureMethod for PaymentsSyncData {
    open spec fn capture_method_spec(&self) -> Option<CaptureMethod> {
        self.capture_method
    }

    fn get_capture_method(&self) -> (r: Option<CaptureMethod>) {
        self.capture_method
    }
}

impl GetCaptureMethod for PaymentsCancelData {
    open spec fn capture_method_spec(&self) -> Option<CaptureMethod> {
        None
    }

    fn get_capture_method(&self) -> (r: Option<CaptureMethod>) {
        None
    }
}

/// A request context together with its amount in ACI's notation.
pub struct AciRouterData<T> {
    pub amount: StringMajorUnit,
    pub router_data: T,
}

impl<T> AciRouterData<T> {
    /// Pairs an amount with a request context.
    pub fn from(pair: (StringMajorUnit, T)) -> (r: Self)
        ensures
            r.amount == pair.0,
            r.router_data == pair.1,
    {
        AciRouterData { amount: pair.0, router_data: pair.1 }
    }
}

/// The credentials that ACI takes: a bearer key and the entity that is charged.
pub struct AciAuthType {
    pub api_key: Secret,
    pub entity_id: Secret,
}

impl AciAuthType {
    /// Reads the credentials from a body key; no other shape is accepted.
    pub fn try_from(item: &ConnectorAuthType) -> (r: Result<Self, ConnectorError>)
        ensures
            item is BodyKey ==> (r matches Ok(auth) && auth.api_key == item->BodyKey_api_key
                && auth.entity_id == item->BodyKey_key1),
            !(item is BodyKey) ==> (r matches Err(e) && e@
                == ConnectorErrorView::FailedToObtainAuthType),
    {
        match item {
            ConnectorAuthType::BodyKey { api_key, key1 } => Ok(
                AciAuthType { api_key: api_key.clone(), entity_id: key1.clone() },
            ),
            _ => Err(ConnectorError::FailedToObtainAuthType),
        }
    }
}

/// The kind of transaction that is asked of ACI.
#[derive(Clone, Copy, Debug, PartialEq, Eq, Structural)]
pub enum AciPaymentType {
    Preauthorization,
    Debit,
    Credit,
    Capture,
    Reversal,
    Refund,
}

/// Who is charged, how much, and in which kind of transaction.
#[derive(Clone, PartialEq, Eq)]
pub struct TransactionDetails {
    pub entity_id: Secret,
    pub amount: StringMajorUnit,
    pub currency: String,
    pub payment_type: AciPaymentType,
}

/// The request to reverse an authorization.
#[derive(Clone, PartialEq, Eq)]
pub struct AciCancelRequest {
    pub entity_id: Secret,
    pub payment_type: AciPaymentType,
}

/// The brand under which ACI routes a payment that is not made by card.
#[derive(Clone, Copy, Debug, PartialEq, Eq, Structural)]
pub enum PaymentBrand {
    Eps,
    Eft,
    Ideal,
    Giropay,
    Sofortueberweisung,
    InteracOnline,
    Przelewy,
    Trustly,
    Mbway,
    AliPay,
}

/// The details of a bank redirect.
#[derive(Clone, PartialEq, Eq)]
pub struct BankRedirectionPMData {
    pub payment_brand: PaymentBrand,
    pub bank_account_country: Option<CountryAlpha2>,
    pub bank_account_bank_name: Option<BankNames>,
    pub bank_account_bic: Option<Secret>,
    pub bank_account_iban: Option<Secret>,
    pub billing_country: Option<CountryAlpha2>,
    pub customer_email: Option<String>,
    pub merchant_customer_id: Option<Secret>,
    pub merchant_transaction_id: Option<Secret>,
}

/// The details of a wallet payment.
#[derive(Clone, PartialEq, Eq)]
pub struct WalletPMData {
    pub payment_brand: PaymentBrand,
    pub account_id: Option<Secret>,
}

/// The details of a card payment.
#[derive(Clone, PartialEq, Eq)]
pub struct CardDetails {
    pub card_number: CardNumber,
    pub card_holder: Secret,
    pub card_expiry_month: Secret,
    pub card_expiry_year: Secret,
    pub card_cvv: Secret,
}

/// The holder of a bank account.
#[derive(Clone, PartialEq, Eq)]
pub struct BankDetails {
    pub account_holder: Secret,
}

/// Whether a standing instruction is given for the first time or used again.
#[derive(Clone, Copy, Debug, PartialEq, Eq, Structural)]
pub enum InstructionMode {
    Initial,
    Repeated,
}

/// The schedule of a standing instruction.
#[derive(Clone, Copy, Debug, PartialEq, Eq, Structural)]
pub enum InstructionType {
    Unscheduled,
}

/// Who starts a transaction under a standing instruction.
#[derive(Clone, Copy, Debug, PartialEq, Eq, Structural)]
pub enum InstructionSource {
    CardholderInitiatedTransaction,
    MerchantInitiatedTransaction,
}

/// The standing instruction that comes with a payment.
#[derive(Clone, Copy, Debug, PartialEq, Eq, Structural)]
pub struct Instruction {
    pub mode: InstructionMode,
    pub transaction_type: InstructionType,
    pub source: InstructionSource,
    pub create_registration: Option<bool>,
}

/// What the customer pays with, in ACI's terms.
#[derive(Clone, PartialEq, Eq)]
pub enum PaymentDetails {
    AciCard(Box<CardDetails>),
    BankRedirect(Box<BankRedirectionPMData>),
    Wallet(Box<WalletPMData>),
    Klarna,
    Mandate,
}

/// The wallets that ACI takes.
pub open spec fn aci_supports_wallet(wallet: WalletData) -> bool {
    wallet is MbWayRedirect || wallet is AliPayRedirect
}

/// Why no wallet details can be built, if they cannot.
pub open spec fn wallet_details_error(
    wallet: WalletData,
    item: PaymentsAuthorizeRouterData,
) -> Option<ConnectorErrorView> {
    match wallet {
        WalletData::MbWayRedirect => match item.billing_phone() {
            None => Some(missing_field("billing.phone"@)),
            Some(phone) => if phone.country_code is None {
                Some(missing_field("billing.phone.country_code"@))
            } else if phone.number is None {
                Some(missing_field("billing.phone.number"@))
            } else {
                None
            },
        },
        WalletData::AliPayRedirect => None,
        _ => Some(not_implemented("Payment method"@)),
    }
}

/// The bank redirects that ACI takes, with the brand of each.
pub open spec fn bank_redirect_brand(data: BankRedirectData) -> Option<PaymentBrand> {
    match data {
        BankRedirectData::Eps => Some(PaymentBrand::Eps),
        BankRedirectData::Eft => Some(PaymentBrand::Eft),
        BankRedirectData::Giropay { .. } => Some(PaymentBrand::Giropay),
        BankRedirectData::Ideal { .. } => Some(PaymentBrand::Ideal),
        BankRedirectData::Sofort => Some(PaymentBrand::Sofortueberweisung),
        BankRedirectData::Przelewy24 => Some(PaymentBrand::Przelewy),
        BankRedirectData::Interac => Some(PaymentBrand::InteracOnline),
        BankRedirectData::Trustly => Some(PaymentBrand::Trustly),
        _ => None,
    }
}

/// The bank redirects for which ACI is told the country of the account.
pub open spec fn sends_account_country(data: BankRedirectData) -> bool {
    data is Eps || data is Eft || data is Giropay || data is Ideal || data is Sofort
        || data is Interac
}

/// The bank redirects for which ACI is told the customer's e-mail address.
pub open spec fn sends_customer_email(data: BankRedirectData) -> bool {
    data is Przelewy24 || data is Interac
}

/// The bank that the customer chose for iDEAL.
pub open spec fn chosen_bank(data: BankRedirectData) -> Option<BankNames> {
    match data {
        BankRedirectData::Ideal { bank_name } => bank_name,
        _ => None,
    }
}

/// The identifier code of the bank of a giropay account.
pub open spec fn account_bic(data: BankRedirectData) -> Option<Secret> {
    match data {
        BankRedirectData::Giropay { bank_account_bic, .. } => bank_account_bic,
        _ => None,
    }
}

/// The number of a giropay account.
pub open spec fn account_iban(data: BankRedirectData) -> Option<Secret> {
    match data {
        BankRedirectData::Giropay { bank_account_iban, .. } => bank_account_iban,
        _ => None,
    }
}

/// Why no bank redirect details can be built, if they cannot. The country is
/// asked for before the bank, the e-mail address and the customer.
pub open spec fn bank_redirect_details_error(
    data: BankRedirectData,
    item: PaymentsAuthorizeRouterData,
) -> Option<ConnectorErrorView> {
    if bank_redirect_brand(data) is None {
        Some(not_implemented("Payment method"@))
    } else if (sends_account_country(data) || data is Trustly) && item.billing_country() is None {
        Some(missing_field("payment_method_data.billing.address.country"@))
    } else if data is Ideal && chosen_bank(data) is None {
        Some(missing_field("ideal.bank_name"@))
    } else if sends_customer_email(data) && item.billing_email() is None {
        Some(missing_field("payment_method_data.billing.email"@))
    } else if data is Trustly && item.customer_id is None {
        Some(missing_field("customer_id"@))
    } else {
        None
    }
}

/// Whether `details` are the bank redirect details of `data` in the context `item`.
pub open spec fn is_bank_redirect_details(
    details: BankRedirectionPMData,
    data: BankRedirectData,
    item: PaymentsAuthorizeRouterData,
) -> bool {
    &&& Some(details.payment_brand) == bank_redirect_brand(data)
    &&& details.bank_account_country == if sends_account_country(data) {
        item.billing_country()
    } else {
        None
    }
    &&& details.bank_account_bank_name == chosen_bank(data)
    &&& details.bank_account_bic == account_bic(data)
    &&& details.bank_account_iban == account_iban(data)
    &&& details.billing_country == if data is Trustly {
        item.billing_country()
    } else {
        None
    }
    &&& details.customer_email == if sends_customer_email(data) {
        item.billing_email()
    } else {
        None
    }
    &&& if data is Trustly {
        &&& details.merchant_customer_id matches Some(customer)
        &&& item.customer_id matches Some(id)
        &&& customer@ == id@
        &&& details.merchant_transaction_id matches Some(transaction)
        &&& transaction@ == item.connector_request_reference_id@
    } else {
        details.merchant_customer_id is None && details.merchant_transaction_id is None
    }
}

impl BankRedirectionPMData {
    /// The details that name only the brand.
    fn of_brand(payment_brand: PaymentBrand) -> (r: Self)
        ensures
            r.payment_brand == payment_brand,
            r.bank_account_country is None,
            r.bank_account_bank_name is None,
            r.bank_account_bic is None,
            r.bank_account_iban is None,
            r.billing_country is None,
            r.customer_email is None,
            r.merchant_customer_id is None,
            r.merchant_transaction_id is None,
    {
        BankRedirectionPMData {
            payment_brand,
            bank_account_country: None,
            bank_account_bank_name: None,
            bank_account_bic: None,
            bank_account_iban: None,
            billing_country: None,
            customer_email: None,
            merchant_customer_id: None,
            merchant_transaction_id: None,
        }
    }
}

impl PaymentDetails {
    /// The details of a wallet payment. ACI takes MB WAY, which needs the
    /// payer's telephone, and Alipay; every other wallet is not implemented.
    pub fn try_from_wallet(wallet_data: &WalletData, item: &PaymentsAuthorizeRouterData) -> (r:
        Result<Self, ConnectorError>)
        ensures
            match wallet_details_error(*wallet_data, *item) {
                Some(error) => r matches Err(e) && e@ == error,
                None => {
                    &&& r matches Ok(PaymentDetails::Wallet(details))
                    &&& wallet_data is MbWayRedirect ==> {
                        &&& details.payment_brand == PaymentBrand::Mbway
                        &&& details.account_id matches Some(account)
                        &&& account@ == number_with_hash_country_code(
                            item.billing_phone()->0.country_code->0@,
                            item.billing_phone()->0.number->0@,
                        )
                    }
                    &&& wallet_data is AliPayRedirect ==> details.payment_brand
                        == PaymentBrand::AliPay && details.account_id is None
                },
            },
    {
        match wallet_data {
            WalletData::MbWayRedirect => {
                let phone_details = match item.get_billing_phone() {
                    Ok(p) => p,
                    Err(e) => {
                        return Err(e);
                    },
                };
                let account_id = match phone_details.get_number_with_hash_country_code() {
                    Ok(n) => n,
                    Err(e) => {
                        return Err(e);
                    },
                };
                Ok(
                    PaymentDetails::Wallet(
                        Box::new(
                            WalletPMData {
                                payment_brand: PaymentBrand::Mbway,
                                account_id: Some(account_id),
                            },
                        ),
                    ),
                )
            },
            WalletData::AliPayRedirect => Ok(
                PaymentDetails::Wallet(
                    Box::new(WalletPMData { payment_brand: PaymentBrand::AliPay, account_id: None }),
                ),
            ),
            WalletData::AliPayHkRedirect
            | WalletData::AmazonPayRedirect
            | WalletData::Paysera
            | WalletData::Skrill
            | WalletData::MomoRedirect
            | WalletData::KakaoPayRedirect
            | WalletData::GoPayRedirect
            | WalletData::GcashRedirect
            | WalletData::ApplePay(_)
            | WalletData::ApplePayThirdPartySdk
            | WalletData::DanaRedirect
            | WalletData::GooglePay(_)
            | WalletData::BluecodeRedirect
            | WalletData::GooglePayThirdPartySdk
            | WalletData::MobilePayRedirect
            | WalletData::PaypalRedirect
            | WalletData::PaypalSdk
            | WalletData::Paze
            | WalletData::SamsungPay
            | WalletData::TwintRedirect
            | WalletData::VippsRedirect
            | WalletData::TouchNGoRedirect
            | WalletData::WeChatPayRedirect
            | WalletData::WeChatPayQr
            | WalletData::CashappQr
            | WalletData::SwishQr
            | WalletData::AliPayQr
            | WalletData::ApplePayRedirect
            | WalletData::GooglePayRedirect
            | WalletData::Mifinity
            | WalletData::RevolutPay => Err(not_implemented_error("Payment method")),
        }
    }

    /// The details of a bank redirect. ACI takes EPS, EFT, giropay, iDEAL,
    /// Sofort, Przelewy24, Interac and Trustly; every other is not implemented.
    fn try_from_bank_redirect(
        item: &AciRouterData<&PaymentsAuthorizeRouterData>,
        bank_redirect_data: &BankRedirectData,
    ) -> (r: Result<Self, ConnectorError>)
        ensures
            match bank_redirect_details_error(*bank_redirect_data, *item.router_data) {
                Some(error) => r matches Err(e) && e@ == error,
                None => r matches Ok(PaymentDetails::BankRedirect(details))
                    && is_bank_redirect_details(*details, *bank_redirect_data, *item.router_data),
            },
    {
        let data = item.router_data;
        let details = match bank_redirect_data {
            BankRedirectData::Eps => {
                let mut d = BankRedirectionPMData::of_brand(PaymentBrand::Eps);
                d.bank_account_country = Some(data.get_billing_country()?);
                d
            },
            BankRedirectData::Eft => {
                let mut d = BankRedirectionPMData::of_brand(PaymentBrand::Eft);
                d.bank_account_country = Some(data.get_billing_country()?);
                d
            },
            BankRedirectData::Giropay { bank_account_bic, bank_account_iban } => {
                let mut d = BankRedirectionPMData::of_brand(PaymentBrand::Giropay);
                d.bank_account_country = Some(data.get_billing_country()?);
                d.bank_account_bic = clone_optional_secret(bank_account_bic);
                d.bank_account_iban = clone_optional_secret(bank_account_iban);
                d
            },
            BankRedirectData::Ideal { bank_name } => {
                let mut d = BankRedirectionPMData::of_brand(PaymentBrand::Ideal);
                d.bank_account_country = Some(data.get_billing_country()?);
                match bank_name {
                    Some(name) => {
                        d.bank_account_bank_name = Some(*name);
                    },
                    None => {
                        return Err(
                            ConnectorError::MissingRequiredField { field_name: "ideal.bank_name" },
                        );
                    },
                }
                d
            },
            BankRedirectData::Sofort => {
                let mut d = BankRedirectionPMData::of_brand(PaymentBrand::Sofortueberweisung);
                d.bank_account_country = Some(data.get_billing_country()?);
                d
            },
            BankRedirectData::Przelewy24 => {
                let mut d = BankRedirectionPMData::of_brand(PaymentBrand::Przelewy);
                d.customer_email = Some(data.get_billing_email()?);
                d
            },
            BankRedirectData::Interac => {
                let mut d = BankRedirectionPMData::of_brand(PaymentBrand::InteracOnline);
                d.bank_account_country = Some(data.get_billing_country()?);
                d.customer_email = Some(data.get_billing_email()?);
                d
            },
            BankRedirectData::Trustly => {
                let mut d = BankRedirectionPMData::of_brand(PaymentBrand::Trustly);
                d.billing_country = Some(data.get_billing_country()?);
                d.merchant_customer_id = Some(Secret::new(data.get_customer_id()?));
                d.merchant_transaction_id = Some(
                    Secret::new(data.connector_request_reference_id.clone()),
                );
                d
            },
            BankRedirectData::Bizum
            | BankRedirectData::Blik
            | BankRedirectData::BancontactCard
            | BankRedirectData::OnlineBankingCzechRepublic
            | BankRedirectData::OnlineBankingFinland
            | BankRedirectData::OnlineBankingFpx
            | BankRedirectData::OnlineBankingPoland
            | BankRedirectData::OnlineBankingSlovakia
            | BankRedirectData::OnlineBankingThailand
            | BankRedirectData::LocalBankRedirect
            | BankRedirectData::OpenBankingUk => {
                return Err(not_implemented_error("Payment method"));
            },
        };
        Ok(PaymentDetails::BankRedirect(Box::new(details)))
    }

    /// The details of a card payment; a card without a holder's name is sent
    /// with an empty name.
    pub fn try_from_card(card_data: Card, card_holder_name: Option<Secret>) -> (r: Result<
        Self,
        ConnectorError,
    >)
        ensures
            r matches Ok(PaymentDetails::AciCard(details)) && {
                &&& details.card_number == card_data.card_number
                &&& details.card_expiry_month == card_data.card_exp_month
                &&& details.card_expiry_year == card_data.card_exp_year
                &&& details.card_cvv == card_data.card_cvc
                &&& details.card_holder@ == match card_holder_name {
                    Some(name) => name@,
                    None => Seq::<char>::empty(),
                }
            },
    {
        let card_holder = match card_holder_name {
            Some(name) => name,
            None => Secret::new(String::new()),
        };
        Ok(
            PaymentDetails::AciCard(
                Box::new(
                    CardDetails {
                        card_number: card_data.card_number,
                        card_holder,
                        card_expiry_month: card_data.card_exp_month,
                        card_expiry_year: card_data.card_exp_year,
                        card_cvv: card_data.card_cvc,
                    },
                ),
            ),
        )
    }
}

/// The request to authorize and debit a payment.
#[derive(Clone, PartialEq, Eq)]
pub struct AciPaymentsRequest {
    pub txn_details: TransactionDetails,
    pub payment_method: PaymentDetails,
    pub instruction: Option<Instruction>,
    pub shopper_result_url: Option<String>,
}

/// Whether `details` debit `amount` in the currency of the request from the
/// entity of the credentials.
pub open spec fn is_debit_of(
    details: TransactionDetails,
    amount: StringMajorUnit,
    data: PaymentsAuthorizeRouterData,
) -> bool {
    &&& data.connector_auth_type is BodyKey
    &&& details.entity_id == data.connector_auth_type->BodyKey_key1
    &&& details.amount == amount
    &&& details.currency@ == data.request.currency.code_spec()
    &&& details.payment_type == AciPaymentType::Debit
}

/// Who is charged and how much, for a debit.
pub fn get_transaction_details(item: &AciRouterData<&PaymentsAuthorizeRouterData>) -> (r: Result<
    TransactionDetails,
    ConnectorError,
>)
    ensures
        item.router_data.connector_auth_type is BodyKey ==> (r matches Ok(details) && is_debit_of(
            details,
            item.amount,
            *item.router_data,
        )),
        !(item.router_data.connector_auth_type is BodyKey) ==> (r matches Err(e) && e@
            == ConnectorErrorView::FailedToObtainAuthType),
{
    let auth = AciAuthType::try_from(&item.router_data.connector_auth_type)?;
    Ok(
        TransactionDetails {
            entity_id: auth.entity_id,
            amount: item.amount.clone(),
            currency: item.router_data.request.currency.to_string(),
            payment_type: AciPaymentType::Debit,
        },
    )
}

/// The standing instruction of a request. A request that sets up a mandate
/// gives an initial instruction, started by the cardholder, and asks for a
/// registration. A request that uses a mandate gives a repeated instruction,
/// started by the merchant. Setting up takes precedence over using.
pub open spec fn instruction_details(request: PaymentsAuthorizeData) -> Option<Instruction> {
    if request.setup_mandate_details is Some {
        Some(
            Instruction {
                mode: InstructionMode::Initial,
                transaction_type: InstructionType::Unscheduled,
                source: InstructionSource::CardholderInitiatedTransaction,
                create_registration: Some(true),
            },
        )
    } else if request.mandate_id is Some {
        Some(
            Instruction {
                mode: InstructionMode::Repeated,
                transaction_type: InstructionType::Unscheduled,
                source: InstructionSource::MerchantInitiatedTransaction,
                create_registration: None,
            },
        )
    } else {
        None
    }
}

/// The standing instruction of a request.
pub fn get_instruction_details(item: &AciRouterData<&PaymentsAuthorizeRouterData>) -> (r: Option<
    Instruction,
>)
    ensures
        r == instruction_details(item.router_data.request),
{
    if item.router_data.request.setup_mandate_details.is_some() {
        return Some(
            Instruction {
                mode: InstructionMode::Initial,
                transaction_type: InstructionType::Unscheduled,
                source: InstructionSource::CardholderInitiatedTransaction,
                create_registration: Some(true),
            },
        );
    } else if item.router_data.request.mandate_id.is_some() {
        return Some(
            Instruction {
                mode: InstructionMode::Repeated,
                transaction_type: InstructionType::Unscheduled,
                source: InstructionSource::MerchantInitiatedTransaction,
                create_registration: None,
            },
        );
    }
    None
}

/// The pay-later providers that ACI takes: Klarna, by redirect or by its kit.
pub open spec fn aci_supports_pay_later(pay_later: PayLaterData) -> bool {
    pay_later == PayLaterData::KlarnaRedirect || pay_later == PayLaterData::KlarnaSdk
}

/// The payment methods that ACI takes.
pub open spec fn aci_supports(method: PaymentMethodData) -> bool {
    match method {
        PaymentMethodData::Card(_) => true,
        PaymentMethodData::Wallet(wallet) => aci_supports_wallet(wallet),
        PaymentMethodData::PayLater(pay_later) => aci_supports_pay_later(pay_later),
        PaymentMethodData::BankRedirect(data) => bank_redirect_brand(data) is Some,
        PaymentMethodData::MandatePayment => true,
        _ => false,
    }
}

/// Whether ACI has a branch for the family of the payment method, whatever
/// the member of the family.
pub open spec fn aci_matches_family(method: PaymentMethodData) -> bool {
    method is Card || method is Wallet || method is PayLater || method is BankRedirect
        || method is MandatePayment
}

/// Why no payment request can be built, if none can. A pay-later provider
/// other than Klarna is refused at once, whatever the credentials, and never
/// encoded as Klarna. A mandate payment asks for its mandate first; then the
/// credentials are read; then the details of the payment method are built.
pub open spec fn payments_request_error(data: PaymentsAuthorizeRouterData) -> Option<
    ConnectorErrorView,
> {
    let method = data.request.payment_method_data;
    if !aci_matches_family(method) {
        Some(not_implemented(unimplemented_payment_method_message("Aci"@)))
    } else if method matches PaymentMethodData::PayLater(pay_later) && !aci_supports_pay_later(
        pay_later,
    ) {
        Some(not_implemented("Payment method"@))
    } else if method is MandatePayment && data.request.mandate_id is None {
        Some(missing_field("mandate_id"@))
    } else if !(data.connector_auth_type is BodyKey) {
        Some(ConnectorErrorView::FailedToObtainAuthType)
    } else {
        match method {
            PaymentMethodData::Wallet(wallet) => wallet_details_error(wallet, data),
            PaymentMethodData::BankRedirect(redirect) => bank_redirect_details_error(
                redirect,
                data,
            ),
            _ => None,
        }
    }
}

/// Whether `details` are what ACI is told of the payment method of `data`.
pub open spec fn is_payment_details_of(
    details: PaymentDetails,
    data: PaymentsAuthorizeRouterData,
) -> bool {
    match data.request.payment_method_data {
        PaymentMethodData::Card(card) => {
            &&& details matches PaymentDetails::AciCard(c)
            &&& c.card_number == card.card_number
            &&& c.card_expiry_month == card.card_exp_month
            &&& c.card_expiry_year == card.card_exp_year
            &&& c.card_cvv == card.card_cvc
            &&& c.card_holder@ == match data.billing_full_name() {
                Some(name) => name,
                None => Seq::<char>::empty(),
            }
        },
        PaymentMethodData::Wallet(wallet) => {
            &&& details matches PaymentDetails::Wallet(w)
            &&& wallet is MbWayRedirect ==> {
                &&& w.payment_brand == PaymentBrand::Mbway
                &&& w.account_id matches Some(account)
                &&& account@ == number_with_hash_country_code(
                    data.billing_phone()->0.country_code->0@,
                    data.billing_phone()->0.number->0@,
                )
            }
            &&& wallet is AliPayRedirect ==> w.payment_brand == PaymentBrand::AliPay
                && w.account_id is None
        },
        PaymentMethodData::PayLater(pay_later) => aci_supports_pay_later(pay_later)
            && details is Klarna,
        PaymentMethodData::BankRedirect(redirect) => {
            &&& details matches PaymentDetails::BankRedirect(b)
            &&& is_bank_redirect_details(*b, redirect, data)
        },
        PaymentMethodData::MandatePayment => details is Mandate,
        _ => false,
    }
}

/// Whether `request` is the payment request of `data` with the amount `amount`.
pub open spec fn is_payments_request_of(
    request: AciPaymentsRequest,
    amount: StringMajorUnit,
    data: PaymentsAuthorizeRouterData,
) -> bool {
    let method = data.request.payment_method_data;
    &&& is_debit_of(request.txn_details, amount, data)
    &&& is_payment_details_of(request.payment_method, data)
    &&& request.instruction == if method is Card || method is MandatePayment {
        instruction_details(data.request)
    } else {
        None
    }
    &&& request.shopper_result_url == if method is Card {
        None
    } else {
        data.request.router_return_url
    }
}

impl AciPaymentsRequest {
    /// The request for a wallet payment.
    fn try_from_wallet(
        item: &AciRouterData<&PaymentsAuthorizeRouterData>,
        wallet_data: &WalletData,
    ) -> (r: Result<Self, ConnectorError>)
        requires
            item.router_data.request.payment_method_data == PaymentMethodData::Wallet(*wallet_data),
        ensures
            match payments_request_error(*item.router_data) {
                Some(error) => r matches Err(e) && e@ == error,
                None => r matches Ok(request) && is_payments_request_of(
                    request,
                    item.amount,
                    *item.router_data,
                ),
            },
    {
        let txn_details = get_transaction_details(item)?;
        let payment_method = PaymentDetails::try_from_wallet(wallet_data, item.router_data)?;
        Ok(
            AciPaymentsRequest {
                txn_details,
                payment_method,
                instruction: None,
                shopper_result_url: clone_optional_string(
                    &item.router_data.request.router_return_url,
                ),
            },
        )
    }

    /// The request for a bank redirect.
    fn try_from_bank_redirect(
        item: &AciRouterData<&PaymentsAuthorizeRouterData>,
        bank_redirect_data: &BankRedirectData,
    ) -> (r: Result<Self, ConnectorError>)
        requires
            item.router_data.request.payment_method_data == PaymentMethodData::BankRedirect(
                *bank_redirect_data,
            ),
        ensures
            match payments_request_error(*item.router_data) {
                Some(error) => r matches Err(e) && e@ == error,
                None => r matches Ok(request) && is_payments_request_of(
                    request,
                    item.amount,
                    *item.router_data,
                ),
            },
    {
        let txn_details = get_transaction_details(item)?;
        let payment_method = PaymentDetails::try_from_bank_redirect(item, bank_redirect_data)?;
        Ok(
            AciPaymentsRequest {
                txn_details,
                payment_method,
                instruction: None,
                shopper_result_url: clone_optional_string(
                    &item.router_data.request.router_return_url,
                ),
            },
        )
    }

    /// The request for a payment that is settled later. ACI takes Klarna;
    /// every other provider is not implemented.
    fn try_from_pay_later(
        item: &AciRouterData<&PaymentsAuthorizeRouterData>,
        pay_later_data: &PayLaterData,
    ) -> (r: Result<Self, ConnectorError>)
        requires
            item.router_data.request.payment_method_data == PaymentMethodData::PayLater(
                *pay_later_data,
            ),
        ensures
            match payments_request_error(*item.router_data) {
                Some(error) => r matches Err(e) && e@ == error,
                None => r matches Ok(request) && is_payments_request_of(
                    request,
                    item.amount,
                    *item.router_data,
                ),
            },
    {
        match pay_later_data {
            PayLaterData::KlarnaRedirect | PayLaterData::KlarnaSdk => {},
            PayLaterData::AffirmRedirect
            | PayLaterData::AfterpayClearpayRedirect
            | PayLaterData::PayBrightRedirect
            | PayLaterData::WalleyRedirect
            | PayLaterData::AlmaRedirect
            | PayLaterData::AtomeRedirect => {
                return Err(not_implemented_error("Payment method"));
            },
        }
        let txn_details = get_transaction_details(item)?;
        Ok(
            AciPaymentsRequest {
                txn_details,
                payment_method: PaymentDetails::Klarna,
                instruction: None,
                shopper_result_url: clone_optional_string(
                    &item.router_data.request.router_return_url,
                ),
            },
        )
    }

    /// The request for a card payment.
    fn try_from_card(item: &AciRouterData<&PaymentsAuthorizeRouterData>, card_data: &Card) -> (r:
        Result<Self, ConnectorError>)
        requires
            item.router_data.request.payment_method_data == PaymentMethodData::Card(*card_data),
        ensures
            match payments_request_error(*item.router_data) {
                Some(error) => r matches Err(e) && e@ == error,
                None => r matches Ok(request) && is_payments_request_of(
                    request,
                    item.amount,
                    *item.router_data,
                ),
            },
    {
        let card_holder_name = item.router_data.get_optional_billing_full_name();
        let txn_details = get_transaction_details(item)?;
        let payment_method = PaymentDetails::try_from_card(card_data.clone(), card_holder_name)?;
        let instruction = get_instruction_details(item);
        Ok(AciPaymentsRequest { txn_details, payment_method, instruction, shopper_result_url: None })
    }

    /// The request for a payment under an existing mandate.
    fn try_from_mandate(
        item: &AciRouterData<&PaymentsAuthorizeRouterData>,
        mandate_data: MandateIds,
    ) -> (r: Result<Self, ConnectorError>)
        requires
            item.router_data.request.payment_method_data is MandatePayment,
            item.router_data.request.mandate_id is Some,
        ensures
            match payments_request_error(*item.router_data) {
                Some(error) => r matches Err(e) && e@ == error,
                None => r matches Ok(request) && is_payments_request_of(
                    request,
                    item.amount,
                    *item.router_data,
                ),
            },
    {
        let instruction = get_instruction_details(item);
        let txn_details = get_transaction_details(item)?;
        Ok(
            AciPaymentsRequest {
                txn_details,
                payment_method: PaymentDetails::Mandate,
                instruction,
                shopper_result_url: clone_optional_string(
                    &item.router_data.request.router_return_url,
                ),
            },
        )
    }

    /// Builds the payment request for whatever the customer pays with. ACI
    /// takes cards, some wallets, Klarna, some bank redirects and mandates;
    /// for everything else the request is refused as not implemented, and no
    /// part of it is built.
    pub fn try_from(item: &AciRouterData<&PaymentsAuthorizeRouterData>) -> (r: Result<
        Self,
        ConnectorError,
    >)
        ensures
            match payments_request_error(*item.router_data) {
                Some(error) => r matches Err(e) && e@ == error,
                None => r matches Ok(request) && is_payments_request_of(
                    request,
                    item.amount,
                    *item.router_data,
                ),
            },
    {
        match &item.router_data.request.payment_method_data {
            PaymentMethodData::Card(card_data) => Self::try_from_card(item, card_data),
            PaymentMethodData::Wallet(wallet_data) => Self::try_from_wallet(item, wallet_data),
            PaymentMethodData::PayLater(pay_later_data) => Self::try_from_pay_later(
                item,
                pay_later_data,
            ),
            PaymentMethodData::BankRedirect(bank_redirect_data) => Self::try_from_bank_redirect(
                item,
                bank_redirect_data,
            ),
            PaymentMethodData::MandatePayment => {
                let mandate_id = match &item.router_data.request.mandate_id {
                    Some(ids) => ids.clone(),
                    None => {
                        return Err(
                            ConnectorError::MissingRequiredField { field_name: "mandate_id" },
                        );
                    },
                };
                Self::try_from_mandate(item, mandate_id)
            },
            PaymentMethodData::Crypto
            | PaymentMethodData::BankDebit
            | PaymentMethodData::BankTransfer
            | PaymentMethodData::Reward
            | PaymentMethodData::RealTimePayment
            | PaymentMethodData::MobilePayment
            | PaymentMethodData::GiftCard
            | PaymentMethodData::CardRedirect
            | PaymentMethodData::Upi
            | PaymentMethodData::Voucher
            | PaymentMethodData::OpenBanking
            | PaymentMethodData::CardToken
            | PaymentMethodData::NetworkToken(_)
            | PaymentMethodData::CardDetailsForNetworkTransactionId => Err(
                ConnectorError::NotImplemented(
                    get_unimplemented_payment_method_error_message("Aci"),
                ),
            ),
        }
    }
}

/// Whatever the customer pays with, the request is built or it is refused as
/// not implemented: a payment method that ACI takes is never refused as not
/// implemented, and one that it does not take is never encoded, in whole or
/// in part. Left out are only the requests that are refused for another
/// reason: credentials of another shape, or a field that is missing.
pub proof fn lemma_aci_payment_method_coverage(data: PaymentsAuthorizeRouterData)
    requires
        !(payments_request_error(data) matches Some(
            ConnectorErrorView::MissingRequiredField { .. },
        )),
        payments_request_error(data) != Some(ConnectorErrorView::FailedToObtainAuthType),
    ensures
        aci_supports(data.request.payment_method_data) ==> payments_request_error(data) is None,
        !aci_supports(data.request.payment_method_data) ==> payments_request_error(data)
            matches Some(ConnectorErrorView::NotImplemented(_)),
{
}

impl AciCancelRequest {
    /// The request to reverse an authorization.
    pub fn try_from(item: &PaymentsCancelRouterData) -> (r: Result<Self, ConnectorError>)
        ensures
            item.connector_auth_type is BodyKey ==> (r matches Ok(request) && request.entity_id
                == item.connector_auth_type->BodyKey_key1 && request.payment_type
                == AciPaymentType::Reversal),
            !(item.connector_auth_type is BodyKey) ==> (r matches Err(e) && e@
                == ConnectorErrorView::FailedToObtainAuthType),
    {
        let auth = AciAuthType::try_from(&item.connector_auth_type)?;
        Ok(AciCancelRequest { entity_id: auth.entity_id, payment_type: AciPaymentType::Reversal })
    }
}

/// The request to capture an authorized payment.
#[derive(Clone, PartialEq, Eq)]
pub struct AciCaptureRequest {
    pub txn_details: TransactionDetails,
}

impl AciCaptureRequest {
    /// The request to capture the amount of `item`.
    pub fn try_from(item: &AciRouterData<&PaymentsCaptureRouterData>) -> (r: Result<
        Self,
        ConnectorError,
    >)
        ensures
            item.router_data.connector_auth_type is BodyKey ==> (r matches Ok(request) && {
                &&& request.txn_details.entity_id
                    == item.router_data.connector_auth_type->BodyKey_key1
                &&& request.txn_details.amount == item.amount
                &&& request.txn_details.currency@ == item.router_data.request.currency.code_spec()
                &&& request.txn_details.payment_type == AciPaymentType::Capture
            }),
            !(item.router_data.connector_auth_type is BodyKey) ==> (r matches Err(e) && e@
                == ConnectorErrorView::FailedToObtainAuthType),
    {
        let auth = AciAuthType::try_from(&item.router_data.connector_auth_type)?;
        Ok(
            AciCaptureRequest {
                txn_details: TransactionDetails {
                    entity_id: auth.entity_id,
                    amount: item.amount.clone(),
                    currency: item.router_data.request.currency.to_string(),
                    payment_type: AciPaymentType::Capture,
                },
            },
        )
    }
}

/// The request to refund a payment.
#[derive(Clone, PartialEq, Eq)]
pub struct AciRefundRequest {
    pub amount: StringMajorUnit,
    pub currency: String,
    pub payment_type: AciPaymentType,
    pub entity_id: Secret,
}

impl AciRefundRequest {
    /// The request to refund the amount of `item`.
    pub fn try_from(item: &AciRouterData<&RefundsRouterData>) -> (r: Result<Self, ConnectorError>)
        ensures
            item.router_data.connector_auth_type is BodyKey ==> (r matches Ok(request) && {
                &&& request.entity_id == item.router_data.connector_auth_type->BodyKey_key1
                &&& request.amount == item.amount
                &&& request.currency@ == item.router_data.request.currency.code_spec()
                &&& request.payment_type == AciPaymentType::Refund
            }),
            !(item.router_data.connector_auth_type is BodyKey) ==> (r matches Err(e) && e@
                == ConnectorErrorView::FailedToObtainAuthType),
    {
        let amount = item.amount.clone();
        let currency = item.router_data.request.currency;
        let payment_type = AciPaymentType::Refund;
        let auth = AciAuthType::try_from(&item.router_data.connector_auth_type)?;
        Ok(
            AciRefundRequest {
                amount,
                currency: currency.to_string(),
                payment_type,
                entity_id: auth.entity_id,
            },
        )
    }
}

/// What ACI reports of a payment.
#[derive(Clone, Copy, Debug, PartialEq, Eq, Structural)]
pub enum AciPaymentStatus {
    Succeeded,
    Failed,
    Pending,
    RedirectShopper,
}

/// The state of an attempt that an ACI status stands for. A success is a
/// charge when the funds are captured with the authorization, and an
/// authorization otherwise.
pub open spec fn aci_attempt_status(item: AciPaymentStatus, auto_capture: bool) -> AttemptStatus {
    match item {
        AciPaymentStatus::Succeeded => if auto_capture {
            AttemptStatus::Charged
        } else {
            AttemptStatus::Authorized
        },
        AciPaymentStatus::Failed => AttemptStatus::Failure,
        AciPaymentStatus::Pending => AttemptStatus::Authorizing,
        AciPaymentStatus::RedirectShopper => AttemptStatus::AuthenticationPending,
    }
}

/// The state of an attempt that an ACI status stands for.
pub fn map_aci_attempt_status(item: AciPaymentStatus, auto_capture: bool) -> (r: AttemptStatus)
    ensures
        r == aci_attempt_status(item, auto_capture),
{
    match item {
        AciPaymentStatus::Succeeded => {
            if auto_capture {
                AttemptStatus::Charged
            } else {
                AttemptStatus::Authorized
            }
        },
        AciPaymentStatus::Failed => AttemptStatus::Failure,
        AciPaymentStatus::Pending => AttemptStatus::Authorizing,
        AciPaymentStatus::RedirectShopper => AttemptStatus::AuthenticationPending,
    }
}

/// The result codes of ACI by what they mean.
#[derive(Clone, Debug, PartialEq, Eq)]
pub struct AciResultCodes {
    pub failure_codes: Vec<String>,
    pub pending_codes: Vec<String>,
    pub successful_codes: Vec<String>,
}

/// Whether `code` is one of `codes`.
pub open spec fn lists_code(codes: Seq<String>, code: Seq<char>) -> bool {
    exists|i: int| 0 <= i < codes.len() && #[trigger] codes[i]@ == code
}

/// Tells whether `code` is one of `codes`.
pub fn contains_code(codes: &Vec<String>, code: &str) -> (r: bool)
    ensures
        r == lists_code(codes@, code@),
{
    let wanted = String::from_str(code);
    let mut i: usize = 0;
    while i < codes.len()
        invariant
            i <= codes.len(),
            wanted@ == code@,
            forall|j: int| 0 <= j < i ==> #[trigger] codes@[j]@ != code@,
        decreases codes.len() - i,
    {
        if codes[i] == wanted {
            return true;
        }
        i += 1;
    }
    false
}

/// The class of a result code: a failure before a pending result, a pending
/// result before a success; `None` for a code that the table does not list.
pub open spec fn result_code_class(code: Seq<char>, codes: AciResultCodes) -> Option<
    AciPaymentStatus,
> {
    if lists_code(codes.failure_codes@, code) {
        Some(AciPaymentStatus::Failed)
    } else if lists_code(codes.pending_codes@, code) {
        Some(AciPaymentStatus::Pending)
    } else if lists_code(codes.successful_codes@, code) {
        Some(AciPaymentStatus::Succeeded)
    } else {
        None
    }
}

/// The error that keeps a result code that the table does not list.
pub open spec fn unexpected_code(code: Seq<char>) -> ConnectorErrorView {
    ConnectorErrorView::UnexpectedResponseError(vstd::utf8::encode_utf8(code))
}

impl AciPaymentStatus {
    /// The payment status that the result code `s` stands for.
    pub fn from_str(s: &str, codes: &AciResultCodes) -> (r: Result<Self, ConnectorError>)
        ensures
            match result_code_class(s@, *codes) {
                Some(status) => r matches Ok(found) && found == status,
                None => r matches Err(e) && e@ == unexpected_code(s@),
            },
    {
        if contains_code(&codes.failure_codes, s) {
            Ok(AciPaymentStatus::Failed)
        } else if contains_code(&codes.pending_codes, s) {
            Ok(AciPaymentStatus::Pending)
        } else if contains_code(&codes.successful_codes, s) {
            Ok(AciPaymentStatus::Succeeded)
        } else {
            Err(ConnectorError::UnexpectedResponseError(bytes_from_string(String::from_str(s))))
        }
    }
}

/// One parameter of a redirect.
#[derive(Clone, Debug, PartialEq, Eq)]
pub struct Parameters {
    pub name: String,
    pub value: String,
}

/// The redirect that ACI asks for.
#[derive(Clone, Debug, PartialEq, Eq)]
pub struct AciRedirectionData {
    pub method: Option<Method>,
    pub parameters: Vec<Parameters>,
    pub url: String,
}

/// A parameter that ACI found fault with.
#[derive(Clone, Debug, PartialEq, Eq)]
pub struct ErrorParameters {
    pub name: String,
    pub value: Option<String>,
    pub message: String,
}

/// The result of an operation: a code, and what it means in words.
#[derive(Clone, Debug, PartialEq, Eq)]
pub struct ResultCode {
    pub code: String,
    pub description: String,
    pub parameter_errors: Option<Vec<ErrorParameters>>,
}

/// ACI's answer to a payment request or to a request for the state of a payment.
#[derive(Clone, PartialEq, Eq)]
pub struct AciPaymentsResponse {
    pub id: String,
    pub registration_id: Option<Secret>,
    pub ndc: String,
    pub timestamp: String,
    pub build_number: String,
    pub result: ResultCode,
    pub redirect: Option<AciRedirectionData>,
}

/// ACI's answer when it refuses a request.
#[derive(Clone, Debug, PartialEq, Eq)]
pub struct AciErrorResponse {
    pub ndc: String,
    pub timestamp: String,
    pub build_number: String,
    pub result: ResultCode,
}

/// The name and value pairs of a list of redirect parameters, in order.
pub open spec fn redirect_fields(parameters: Seq<Parameters>) -> Seq<(Seq<char>, Seq<char>)> {
    Seq::new(parameters.len(), |i: int| (parameters[i].name@, parameters[i].value@))
}

/// The method of a redirect: the one that the connector names, and `Post`
/// when it names none.
pub open spec fn redirect_method(method: Option<Method>) -> Method {
    match method {
        Some(m) => m,
        None => Method::Post,
    }
}

/// The form that a redirect of ACI asks the browser to submit: to the URL of
/// the redirect, with its method, and with its parameters as fields. `None`
/// when the address of the redirect is not a URL.
pub fn redirect_form(data: &AciRedirectionData) -> (r: Option<RedirectForm>)
    ensures
        r is Some <==> url_normal_form(data.url@) is Some,
        r matches Some(form) ==> form.is_form(
            url_normal_form(data.url@)->0,
            redirect_method(data.method),
            redirect_fields(data.parameters@),
        ),
{
    let endpoint = match normalize_url(data.url.as_str()) {
        Some(e) => e,
        None => {
            return None;
        },
    };
    let mut form_fields = FormFields::new();
    let mut i: usize = 0;
    while i < data.parameters.len()
        invariant
            i <= data.parameters.len(),
            form_fields.pairs() == redirect_fields(data.parameters@).subrange(0, i as int),
        decreases data.parameters.len() - i,
    {
        let parameter = &data.parameters[i];
        form_fields.insert(parameter.name.clone(), parameter.value.clone());
        i += 1;
        proof {
            assert(form_fields.pairs() =~= redirect_fields(data.parameters@).subrange(0, i as int));
        }
    }
    proof {
        assert(redirect_fields(data.parameters@).subrange(0, i as int) =~= redirect_fields(
            data.parameters@,
        ));
    }
    let method = match data.method {
        Some(m) => m,
        None => Method::Post,
    };
    Some(RedirectForm::Form { endpoint, method, form_fields })
}

/// Whether the funds are captured with the authorization: so it is when the
/// request asks for automatic capture or does not say.
pub open spec fn captures_automatically(method: Option<CaptureMethod>) -> bool {
    method == Some(CaptureMethod::Automatic) || method is None
}

/// Why a payment response cannot be translated, if it cannot. A redirect is
/// looked at before the result code, which is then not read at all.
pub open spec fn payments_response_error(
    response: AciPaymentsResponse,
    codes: AciResultCodes,
) -> Option<ConnectorErrorView> {
    match response.redirect {
        Some(redirect) => if url_normal_form(redirect.url@) is None {
            Some(ConnectorErrorView::ResponseHandlingFailed)
        } else {
            None
        },
        None => if result_code_class(response.result.code@, codes) is None {
            Some(unexpected_code(response.result.code@))
        } else {
            None
        },
    }
}

/// The state of the attempt after a payment response: with a redirect, the
/// customer has to authenticate, whatever the result code says.
pub open spec fn payments_response_status(
    response: AciPaymentsResponse,
    capture_method: Option<CaptureMethod>,
    codes: AciResultCodes,
) -> AttemptStatus {
    if response.redirect is Some {
        aci_attempt_status(AciPaymentStatus::RedirectShopper, captures_automatically(capture_method))
    } else {
        aci_attempt_status(
            result_code_class(response.result.code@, codes)->0,
            captures_automatically(capture_method),
        )
    }
}

/// Translates ACI's answer to a payment request. The context keeps all but
/// its state and its response; the response names the transaction, carries
/// the redirect form and the mandate, if ACI sent them, and is never an error:
/// a failed payment shows in the state.
pub fn parse_payments_response<Req: GetCaptureMethod>(
    item: ResponseRouterData<AciPaymentsResponse, Req, PaymentsResponseData>,
    codes: &AciResultCodes,
) -> (r: Result<RouterData<Req, PaymentsResponseData>, ConnectorError>)
    ensures
        match payments_response_error(item.response, *codes) {
            Some(error) => r matches Err(e) && e@ == error,
            None => {
                &&& r matches Ok(data)
                &&& data.carries_rest_of(item.data)
                &&& data.status == payments_response_status(
                    item.response,
                    item.data.request.capture_method_spec(),
                    *codes,
                )
                &&& data.response matches Ok(
                    PaymentsResponseData::TransactionResponse {
                        resource_id,
                        redirection_data,
                        mandate_reference,
                        connector_metadata,
                        network_txn_id,
                        connector_response_reference_id,
                        incremental_authorization_allowed,
                    },
                )
                &&& resource_id == ResponseId::ConnectorTransactionId(item.response.id)
                &&& connector_response_reference_id == Some(item.response.id)
                &&& connector_metadata is None
                &&& network_txn_id is None
                &&& incremental_authorization_allowed is None
                &&& redirection_data is Some <==> item.response.redirect is Some
                &&& redirection_data matches Some(form) ==> form.is_form(
                    url_normal_form(item.response.redirect->0.url@)->0,
                    redirect_method(item.response.redirect->0.method),
                    redirect_fields(item.response.redirect->0.parameters@),
                )
                &&& mandate_reference is Some <==> item.response.registration_id is Some
                &&& mandate_reference matches Some(reference) ==> mandate_reference_of(
                    item.response.registration_id->0@,
                    reference,
                )
            },
        },
{
    let ResponseRouterData { response, data, http_code: _ } = item;
    let redirection_data = match &response.redirect {
        Some(redirect) => match redirect_form(redirect) {
            Some(form) => Some(form),
            None => {
                return Err(ConnectorError::ResponseHandlingFailed);
            },
        },
        None => None,
    };
    let mandate_reference = match response.registration_id {
        Some(id) => Some(mandate_reference_from_id(id.expose())),
        None => None,
    };
    let auto_capture = match data.request.get_capture_method() {
        Some(CaptureMethod::Automatic) | None => true,
        Some(_) => false,
    };
    let status = if redirection_data.is_some() {
        map_aci_attempt_status(AciPaymentStatus::RedirectShopper, auto_capture)
    } else {
        map_aci_attempt_status(
            AciPaymentStatus::from_str(response.result.code.as_str(), codes)?,
            auto_capture,
        )
    };
    Ok(
        data.with_response(
            status,
            Ok(
                PaymentsResponseData::TransactionResponse {
                    resource_id: ResponseId::ConnectorTransactionId(response.id.clone()),
                    redirection_data,
                    mandate_reference,
                    connector_metadata: None,
                    network_txn_id: None,
                    connector_response_reference_id: Some(response.id),
                    incremental_authorization_allowed: None,
                },
            ),
        ),
    )
}

impl<'a, Req: GetCaptureMethod> TryFrom<(ResponseRouterData<AciPaymentsResponse, Req, PaymentsResponseData>, &'a AciResultCodes)> for RouterData<Req, PaymentsResponseData> {
    type Error = ConnectorError;

    /// Translates ACI's answer to a payment request with the result codes of
    /// the pair, as `parse_payments_response` does.
    fn try_from(pair: (ResponseRouterData<AciPaymentsResponse, Req, PaymentsResponseData>, &'a AciResultCodes)) -> (r: Result<Self, Self::Error>)
        ensures
            match payments_response_error(pair.0.response, *pair.1) {
                Some(error) => r matches Err(e) && e@ == error,
                None => {
                    &&& r matches Ok(data)
                    &&& data.carries_rest_of(pair.0.data)
                    &&& data.status == payments_response_status(
                        pair.0.response,
                        pair.0.data.request.capture_method_spec(),
                        *pair.1,
                    )
                    &&& data.response matches Ok(
                        PaymentsResponseData::TransactionResponse {
                            resource_id,
                            redirection_data,
                            mandate_reference,
                            connector_metadata,
                            network_txn_id,
                            connector_response_reference_id,
                            incremental_authorization_allowed,
                        },
                    )
                    &&& resource_id == ResponseId::ConnectorTransactionId(pair.0.response.id)
                    &&& connector_response_reference_id == Some(pair.0.response.id)
                    &&& connector_metadata is None
                    &&& network_txn_id is None
                    &&& incremental_authorization_allowed is None
                    &&& redirection_data is Some <==> pair.0.response.redirect is Some
                    &&& redirection_data matches Some(form) ==> form.is_form(
                        url_normal_form(pair.0.response.redirect->0.url@)->0,
                        redirect_method(pair.0.response.redirect->0.method),
                        redirect_fields(pair.0.response.redirect->0.parameters@),
                    )
                    &&& mandate_reference is Some <==> pair.0.response.registration_id is Some
                    &&& mandate_reference matches Some(reference) ==> mandate_reference_of(
                        pair.0.response.registration_id->0@,
                        reference,
                    )
                },
            },
    {
        parse_payments_response(pair.0, pair.1)
    }
}

/// What `try_from` returns is stated by its own clauses, over the texts that
/// the result holds, and not as one value.
impl<'a, Req: GetCaptureMethod> vstd::std_specs::convert::TryFromSpecImpl<(ResponseRouterData<AciPaymentsResponse, Req, PaymentsResponseData>, &'a AciResultCodes)> for RouterData<Req, PaymentsResponseData> {
    open spec fn obeys_try_from_spec() -> bool {
        false
    }

    open spec fn try_from_spec(pair: (ResponseRouterData<AciPaymentsResponse, Req, PaymentsResponseData>, &'a AciResultCodes)) -> Result<Self, Self::Error> {
        arbitrary()
    }
}

/// A response that carries a redirect leaves the attempt waiting for the
/// customer, never in a state that ends it, whatever result code came with
/// the redirect and however the funds are to be captured.
pub proof fn lemma_redirect_takes_priority(
    response: AciPaymentsResponse,
    capture_method: Option<CaptureMethod>,
    codes: AciResultCodes,
)
    requires
        response.redirect is Some,
    ensures
        payments_response_status(response, capture_method, codes)
            == AttemptStatus::AuthenticationPending,
        payments_response_status(response, capture_method, codes).awaits_action(),
        !payments_response_status(response, capture_method, codes).is_terminal(),
        !payments_response_status(response, capture_method, codes).is_terminal_success(),
{
}

/// Every status of ACI stands for a state of the machine that all
/// connectors share, however the funds are captured: the mapping has no gap.
pub proof fn lemma_aci_status_mapping_total(status: AciPaymentStatus, auto_capture: bool)
    ensures
        aci_attempt_status(status, auto_capture).is_shared_state(),
{
}

/// The result of a capture.
#[derive(Clone, Debug, PartialEq, Eq)]
pub struct AciCaptureResult {
    pub code: String,
    pub description: String,
}

/// What the acquirer said of a capture.
#[derive(Clone, Debug, PartialEq, Eq)]
pub struct AciCaptureResultDetails {
    pub extended_description: String,
    pub clearing_institute_name: String,
    pub connector_tx_id1: String,
    pub connector_tx_id3: String,
    pub connector_tx_id2: String,
    pub acquirer_response: String,
}

/// ACI's answer to a capture request.
#[derive(Clone, PartialEq, Eq)]
pub struct AciCaptureResponse {
    pub id: String,
    pub referenced_id: String,
    pub payment_type: AciPaymentType,
    pub amount: StringMajorUnit,
    pub currency: String,
    pub descriptor: String,
    pub result: AciCaptureResult,
    pub result_details: AciCaptureResultDetails,
    pub build_number: String,
    pub timestamp: String,
    pub ndc: Secret,
    pub source: Secret,
    pub payment_method: String,
    pub short_id: String,
}

/// Translates ACI's answer to a capture request. A success leaves the attempt
/// authorized, since the capture itself is confirmed later; the payment that
/// was captured becomes the reference of the context.
pub fn parse_capture_response<Req>(
    item: ResponseRouterData<AciCaptureResponse, Req, PaymentsResponseData>,
    codes: &AciResultCodes,
) -> (r: Result<RouterData<Req, PaymentsResponseData>, ConnectorError>)
    ensures
        match result_code_class(item.response.result.code@, *codes) {
            None => r matches Err(e) && e@ == unexpected_code(item.response.result.code@),
            Some(class) => {
                &&& r matches Ok(data)
                &&& data.status == aci_attempt_status(class, false)
                &&& data.reference_id == Some(item.response.referenced_id)
                &&& data.payment_method == item.data.payment_method
                &&& data.connector_auth_type == item.data.connector_auth_type
                &&& data.description == item.data.description
                &&& data.billing == item.data.billing
                &&& data.customer_id == item.data.customer_id
                &&& data.connector_meta_data == item.data.connector_meta_data
                &&& data.connector_request_reference_id == item.data.connector_request_reference_id
                &&& data.request == item.data.request
                &&& data.response == Ok::<PaymentsResponseData, crate::router_data::ErrorResponse>(
                    PaymentsResponseData::TransactionResponse {
                        resource_id: ResponseId::ConnectorTransactionId(item.response.id),
                        redirection_data: None,
                        mandate_reference: None,
                        connector_metadata: None,
                        network_txn_id: None,
                        connector_response_reference_id: Some(item.response.referenced_id),
                        incremental_authorization_allowed: None,
                    },
                )
            },
        },
{
    let ResponseRouterData { response, data, http_code: _ } = item;
    let status = map_aci_attempt_status(
        AciPaymentStatus::from_str(response.result.code.as_str(), codes)?,
        false,
    );
    let mut updated = data.with_response(
        status,
        Ok(
            PaymentsResponseData::TransactionResponse {
                resource_id: ResponseId::ConnectorTransactionId(response.id),
                redirection_data: None,
                mandate_reference: None,
                connector_metadata: None,
                network_txn_id: None,
                connector_response_reference_id: Some(response.referenced_id.clone()),
                incremental_authorization_allowed: None,
            },
        ),
    );
    updated.reference_id = Some(response.referenced_id);
    Ok(updated)
}

impl<'a, Req> TryFrom<(ResponseRouterData<AciCaptureResponse, Req, PaymentsResponseData>, &'a AciResultCodes)> for RouterData<Req, PaymentsResponseData> {
    type Error = ConnectorError;

    /// Translates ACI's answer to a capture request with the result codes of
    /// the pair, as `parse_capture_response` does.
    fn try_from(pair: (ResponseRouterData<AciCaptureResponse, Req, PaymentsResponseData>, &'a AciResultCodes)) -> (r: Result<Self, Self::Error>)
        ensures
            match result_code_class(pair.0.response.result.code@, *pair.1) {
                None => r matches Err(e) && e@ == unexpected_code(pair.0.response.result.code@),
                Some(class) => {
                    &&& r matches Ok(data)
                    &&& data.status == aci_attempt_status(class, false)
                    &&& data.reference_id == Some(pair.0.response.referenced_id)
                    &&& data.payment_method == pair.0.data.payment_method
                    &&& data.connector_auth_type == pair.0.data.connector_auth_type
                    &&& data.description == pair.0.data.description
                    &&& data.billing == pair.0.data.billing
                    &&& data.customer_id == pair.0.data.customer_id
                    &&& data.connector_meta_data == pair.0.data.connector_meta_data
                    &&& data.connector_request_reference_id == pair.0.data.connector_request_reference_id
                    &&& data.request == pair.0.data.request
                    &&& data.response == Ok::<PaymentsResponseData, crate::router_data::ErrorResponse>(
                        PaymentsResponseData::TransactionResponse {
                            resource_id: ResponseId::ConnectorTransactionId(pair.0.response.id),
                            redirection_data: None,
                            mandate_reference: None,
                            connector_metadata: None,
                            network_txn_id: None,
                            connector_response_reference_id: Some(pair.0.response.referenced_id),
                            incremental_authorization_allowed: None,
                        },
                    )
                },
            },
    {
        parse_capture_response(pair.0, pair.1)
    }
}

/// What `try_from` returns is stated by its own clauses, over the texts that
/// the result holds, and not as one value.
impl<'a, Req> vstd::std_specs::convert::TryFromSpecImpl<(ResponseRouterData<AciCaptureResponse, Req, PaymentsResponseData>, &'a AciResultCodes)> for RouterData<Req, PaymentsResponseData> {
    open spec fn obeys_try_from_spec() -> bool {
        false
    }

    open spec fn try_from_spec(pair: (ResponseRouterData<AciCaptureResponse, Req, PaymentsResponseData>, &'a AciResultCodes)) -> Result<Self, Self::Error> {
        arbitrary()
    }
}

/// What ACI reports of a refund.
#[derive(Clone, Copy, Debug, PartialEq, Eq, Structural)]
pub enum AciRefundStatus {
    Succeeded,
    Failed,
    Pending,
}

/// The class of a result code for a refund.
pub open spec fn refund_code_class(code: Seq<char>, codes: AciResultCodes) -> Option<
    AciRefundStatus,
> {
    match result_code_class(code, codes) {
        Some(AciPaymentStatus::Failed) => Some(AciRefundStatus::Failed),
        Some(AciPaymentStatus::Pending) => Some(AciRefundStatus::Pending),
        Some(_) => Some(AciRefundStatus::Succeeded),
        None => None,
    }
}

/// The state of a refund that an ACI refund status stands for.
pub open spec fn aci_refund_status(item: AciRefundStatus) -> RefundStatus {
    match item {
        AciRefundStatus::Succeeded => RefundStatus::Success,
        AciRefundStatus::Failed => RefundStatus::Failure,
        AciRefundStatus::Pending => RefundStatus::Pending,
    }
}

/// Every refund status of ACI stands for a state of the refund machine that
/// all connectors share.
pub proof fn lemma_aci_refund_status_mapping_total(item: AciRefundStatus)
    ensures
        aci_refund_status(item).is_shared_state(),
{
}

impl AciRefundStatus {
    /// The refund status that the result code `s` stands for.
    pub fn from_str(s: &str, codes: &AciResultCodes) -> (r: Result<Self, ConnectorError>)
        ensures
            match refund_code_class(s@, *codes) {
                Some(status) => r matches Ok(found) && found == status,
                None => r matches Err(e) && e@ == unexpected_code(s@),
            },
    {
        if contains_code(&codes.failure_codes, s) {
            Ok(AciRefundStatus::Failed)
        } else if contains_code(&codes.pending_codes, s) {
            Ok(AciRefundStatus::Pending)
        } else if contains_code(&codes.successful_codes, s) {
            Ok(AciRefundStatus::Succeeded)
        } else {
            Err(ConnectorError::UnexpectedResponseError(bytes_from_string(String::from_str(s))))
        }
    }

    /// The state of the refund that this status stands for.
    pub fn into_refund_status(self) -> (r: RefundStatus)
        ensures
            r == aci_refund_status(self),
    {
        match self {
            AciRefundStatus::Succeeded => RefundStatus::Success,
            AciRefundStatus::Failed => RefundStatus::Failure,
            AciRefundStatus::Pending => RefundStatus::Pending,
        }
    }
}

impl From<AciRefundStatus> for RefundStatus {
    /// The state of the refund that a refund status of ACI stands for.
    fn from(item: AciRefundStatus) -> (r: Self) {
        item.into_refund_status()
    }
}

impl vstd::std_specs::convert::FromSpecImpl<AciRefundStatus> for RefundStatus {
    open spec fn obeys_from_spec() -> bool {
        true
    }

    open spec fn from_spec(item: AciRefundStatus) -> Self {
        aci_refund_status(item)
    }
}

/// ACI's answer to a refund request.
#[derive(Clone, Debug, PartialEq, Eq)]
pub struct AciRefundResponse {
    pub id: String,
    pub ndc: String,
    pub timestamp: String,
    pub build_number: String,
    pub result: ResultCode,
}

/// Translates ACI's answer to a refund request: the refund is known by the
/// identifier of the answer, and its state is the class of the result code.
pub fn parse_refund_response(
    item: ResponseRouterData<AciRefundResponse, crate::router_data::RefundsData, RefundsResponseData>,
    codes: &AciResultCodes,
) -> (r: Result<RefundsRouterData, ConnectorError>)
    ensures
        match refund_code_class(item.response.result.code@, *codes) {
            None => r matches Err(e) && e@ == unexpected_code(item.response.result.code@),
            Some(class) => {
                &&& r matches Ok(data)
                &&& data.carries_rest_of(item.data)
                &&& data.status == item.data.status
                &&& data.response == Ok::<RefundsResponseData, crate::router_data::ErrorResponse>(
                    RefundsResponseData {
                        connector_refund_id: item.response.id,
                        refund_status: aci_refund_status(class),
                    },
                )
            },
        },
{
    let ResponseRouterData { response, data, http_code: _ } = item;
    let refund_status = AciRefundStatus::from_str(
        response.result.code.as_str(),
        codes,
    )?.into_refund_status();
    let status = data.status;
    Ok(
        data.with_response(
            status,
            Ok(RefundsResponseData { connector_refund_id: response.id, refund_status }),
        ),
    )
}

impl<'a> TryFrom<(ResponseRouterData<AciRefundResponse, crate::router_data::RefundsData, RefundsResponseData>, &'a AciResultCodes)> for RouterData<crate::router_data::RefundsData, RefundsResponseData> {
    type Error = ConnectorError;

    /// Translates ACI's answer to a refund request with the result codes of
    /// the pair, as `parse_refund_response` does.
    fn try_from(pair: (ResponseRouterData<AciRefundResponse, crate::router_data::RefundsData, RefundsResponseData>, &'a AciResultCodes)) -> (r: Result<Self, Self::Error>)
        ensures
            match refund_code_class(pair.0.response.result.code@, *pair.1) {
                None => r matches Err(e) && e@ == unexpected_code(pair.0.response.result.code@),
                Some(class) => {
                    &&& r matches Ok(data)
                    &&& data.carries_rest_of(pair.0.data)
                    &&& data.status == pair.0.data.status
                    &&& data.response == Ok::<RefundsResponseData, crate::router_data::ErrorResponse>(
                        RefundsResponseData {
                            connector_refund_id: pair.0.response.id,
                            refund_status: aci_refund_status(class),
                        },
                    )
                },
            },
    {
        parse_refund_response(pair.0, pair.1)
    }
}

/// What `try_from` returns is stated by its own clauses, over the texts that
/// the result holds, and not as one value.
impl<'a> vstd::std_specs::convert::TryFromSpecImpl<(ResponseRouterData<AciRefundResponse, crate::router_data::RefundsData, RefundsResponseData>, &'a AciResultCodes)> for RouterData<crate::router_data::RefundsData, RefundsResponseData> {
    open spec fn obeys_try_from_spec() -> bool {
        false
    }

    open spec fn try_from_spec(pair: (ResponseRouterData<AciRefundResponse, crate::router_data::RefundsData, RefundsResponseData>, &'a AciResultCodes)) -> Result<Self, Self::Error> {
        arbitrary()
    }
}

/// What a webhook of ACI is about.
#[derive(Clone, Copy, Debug, PartialEq, Eq, Structural)]
pub enum AciWebhookEventType {
    Payment,
}

/// What happened to the object of a webhook.
#[derive(Clone, Copy, Debug, PartialEq, Eq, Structural)]
pub enum AciWebhookAction {
    Created,
    Updated,
    Deleted,
}

/// The card of a payment that a webhook reports.
#[derive(Clone, PartialEq, Eq)]
pub struct AciWebhookCardDetails {
    pub bin: Option<String>,
    pub last4_digits: Option<String>,
    pub holder: Option<String>,
    pub expiry_month: Option<Secret>,
    pub expiry_year: Option<Secret>,
}

/// The customer of a payment that a webhook reports.
#[derive(Clone, PartialEq, Eq)]
pub struct AciWebhookCustomerDetails {
    pub given_name: Option<Secret>,
    pub surname: Option<Secret>,
    pub merchant_customer_id: Option<Secret>,
    pub sex: Option<Secret>,
    pub email: Option<String>,
}

/// The entity of a payment that a webhook reports.
#[derive(Clone, PartialEq, Eq)]
pub struct AciWebhookAuthenticationDetails {
    pub entity_id: Secret,
}

/// The risk score of a payment that a webhook reports.
#[derive(Clone, Debug, PartialEq, Eq)]
pub struct AciWebhookRiskDetails {
    pub score: Option<String>,
}

/// The payment that a webhook reports.
#[derive(Clone, PartialEq, Eq)]
pub struct AciPaymentWebhookPayload {
    pub id: String,
    pub payment_type: String,
    pub payment_brand: String,
    pub amount: StringMajorUnit,
    pub currency: String,
    pub presentation_amount: Option<StringMajorUnit>,
    pub presentation_currency: Option<String>,
    pub descriptor: Option<String>,
    pub result: ResultCode,
    pub authentication: Option<AciWebhookAuthenticationDetails>,
    pub card: Option<AciWebhookCardDetails>,
    pub customer: Option<AciWebhookCustomerDetails>,
    pub custom_parameters: Option<String>,
    pub risk: Option<AciWebhookRiskDetails>,
    pub build_number: Option<String>,
    pub timestamp: String,
    pub ndc: String,
    pub channel_name: Option<String>,
    pub source: Option<String>,
    pub payment_method: Option<String>,
    pub short_id: Option<String>,
}

/// A webhook of ACI; the payload is JSON text.
#[derive(Clone, Debug, PartialEq, Eq)]
pub struct AciWebhookNotification {
    pub event_type: AciWebhookEventType,
    pub action: Option<AciWebhookAction>,
    pub payload: String,
}

} // verus!
