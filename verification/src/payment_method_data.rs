//! The payment methods that a merchant can present, as one closed union.

use vstd::prelude::*;
use crate::enums::BankNames;
use crate::encoding::{base64_decode, base64_decoding_of};
use crate::errors::{ConnectorError, ConnectorErrorView};
use crate::json::{json_normal_form, json_normal_form_of};
use crate::secret::{clone_optional_secret, Secret};
use crate::text::{chars_of, string_of};

verus! {

/// A primary account number.
#[derive(PartialEq, Eq)]
pub struct CardNumber {
    number: Secret,
}

impl CardNumber {
    /// The digits of the number.
    pub closed spec fn view(&self) -> Seq<char> {
        self.number@
    }

    /// The card number that `digits` spells.
    pub fn new(digits: String) -> (r: Self)
        ensures
            r@ == digits@,
    {
        CardNumber { number: Secret::new(digits) }
    }

    /// Reads the digits without giving them away.
    pub fn peek(&self) -> (r: &String)
        ensures
            r@ == self@,
    {
        self.number.peek()
    }
}

impl Clone for CardNumber {
    fn clone(&self) -> (r: Self)
        ensures
            r == *self,
    {
        CardNumber { number: self.number.clone() }
    }
}

/// A payment card as the customer entered it.
#[derive(PartialEq, Eq)]
pub struct Card {
    pub card_number: CardNumber,
    pub card_exp_month: Secret,
    pub card_exp_year: Secret,
    pub card_cvc: Secret,
}

/// The year `year` with four digits: a year of two characters is taken to lie
/// in this century, any other is kept.
pub open spec fn four_digit_year(year: Seq<char>) -> Seq<char> {
    if year.len() == 2 {
        seq!['2', '0'] + year
    } else {
        year
    }
}

/// The last two characters of `year`.
pub open spec fn two_digit_year(year: Seq<char>) -> Seq<char> {
    year.subrange(year.len() - 2, year.len() as int)
}

impl Card {
    /// The expiry year with four digits.
    pub fn get_expiry_year_4_digit(&self) -> (r: Secret)
        ensures
            r@ == four_digit_year(self.card_exp_year@),
    {
        let year = chars_of(self.card_exp_year.peek().as_str());
        if year.len() == 2 {
            let mut v: Vec<char> = Vec::new();
            v.push('2');
            v.push('0');
            v.push(year[0]);
            v.push(year[1]);
            proof {
                assert(v@ =~= seq!['2', '0'] + year@);
            }
            Secret::new(string_of(&v))
        } else {
            self.card_exp_year.clone()
        }
    }

    /// The last two characters of the expiry year; a year of fewer than two
    /// characters cannot be encoded.
    pub fn get_card_expiry_year_2_digit(&self) -> (r: Result<Secret, ConnectorError>)
        ensures
            self.card_exp_year@.len() >= 2 ==> (r matches Ok(y) && y@ == two_digit_year(
                self.card_exp_year@,
            )),
            self.card_exp_year@.len() < 2 ==> r == Err::<Secret, ConnectorError>(
                ConnectorError::RequestEncodingFailed,
            ),
    {
        let year = chars_of(self.card_exp_year.peek().as_str());
        let n = year.len();
        if n < 2 {
            return Err(ConnectorError::RequestEncodingFailed);
        }
        let mut v: Vec<char> = Vec::new();
        v.push(year[n - 2]);
        v.push(year[n - 1]);
        proof {
            assert(v@ =~= two_digit_year(year@));
        }
        Ok(Secret::new(string_of(&v)))
    }
}

impl Clone for Card {
    fn clone(&self) -> (r: Self)
        ensures
            r == *self,
    {
        Card {
            card_number: self.card_number.clone(),
            card_exp_month: self.card_exp_month.clone(),
            card_exp_year: self.card_exp_year.clone(),
            card_cvc: self.card_cvc.clone(),
        }
    }
}

/// A network token that stands for a card.
#[derive(PartialEq, Eq)]
pub struct NetworkTokenData {
    pub token_number: CardNumber,
    pub token_exp_month: Secret,
    pub token_exp_year: Secret,
    pub token_cryptogram: Option<Secret>,
}

impl Clone for NetworkTokenData {
    fn clone(&self) -> (r: Self)
        ensures
            r == *self,
    {
        NetworkTokenData {
            token_number: self.token_number.clone(),
            token_exp_month: self.token_exp_month.clone(),
            token_exp_year: self.token_exp_year.clone(),
            token_cryptogram: clone_optional_secret(&self.token_cryptogram),
        }
    }
}

/// How Apple Pay describes the card behind a token.
#[derive(Clone, Debug, PartialEq, Eq)]
pub struct ApplepayPaymentMethod {
    pub display_name: String,
    pub network: String,
    pub pm_type: String,
}

/// An Apple Pay payment: the token as JSON text, and what it stands for.
#[derive(Clone, Debug, PartialEq, Eq)]
pub struct ApplePayWalletData {
    pub payment_data: String,
    pub payment_method: ApplepayPaymentMethod,
    pub transaction_identifier: String,
}

/// What Google Pay tells about the card behind a token.
#[derive(Debug, PartialEq, Eq)]
pub struct GooglePayPaymentMethodInfo {
    pub card_network: String,
    pub card_details: String,
}

/// The token of a Google Pay payment.
#[derive(Debug, PartialEq, Eq)]
pub struct GpayTokenizationData {
    pub token_type: String,
    pub token: String,
}

/// A Google Pay payment.
#[derive(Debug, PartialEq, Eq)]
pub struct GooglePayWalletData {
    pub pm_type: String,
    pub description: String,
    pub info: GooglePayPaymentMethodInfo,
    pub tokenization_data: GpayTokenizationData,
}

impl Clone for GooglePayPaymentMethodInfo {
    fn clone(&self) -> (r: Self)
        ensures
            r == *self,
    {
        GooglePayPaymentMethodInfo {
            card_network: self.card_network.clone(),
            card_details: self.card_details.clone(),
        }
    }
}

impl Clone for GpayTokenizationData {
    fn clone(&self) -> (r: Self)
        ensures
            r == *self,
    {
        GpayTokenizationData { token_type: self.token_type.clone(), token: self.token.clone() }
    }
}

impl Clone for GooglePayWalletData {
    fn clone(&self) -> (r: Self)
        ensures
            r == *self,
    {
        GooglePayWalletData {
            pm_type: self.pm_type.clone(),
            description: self.description.clone(),
            info: self.info.clone(),
            tokenization_data: self.tokenization_data.clone(),
        }
    }
}

/// A wallet payment.
#[derive(Clone, Debug, PartialEq, Eq)]
pub enum WalletData {
    AliPayQr,
    AliPayRedirect,
    AliPayHkRedirect,
    AmazonPayRedirect,
    Paysera,
    Skrill,
    BluecodeRedirect,
    MomoRedirect,
    KakaoPayRedirect,
    GoPayRedirect,
    GcashRedirect,
    ApplePay(ApplePayWalletData),
    ApplePayRedirect,
    ApplePayThirdPartySdk,
    DanaRedirect,
    GooglePay(GooglePayWalletData),
    GooglePayRedirect,
    GooglePayThirdPartySdk,
    MbWayRedirect,
    MobilePayRedirect,
    PaypalRedirect,
    PaypalSdk,
    Paze,
    SamsungPay,
    TwintRedirect,
    VippsRedirect,
    TouchNGoRedirect,
    WeChatPayRedirect,
    WeChatPayQr,
    CashappQr,
    SwishQr,
    Mifinity,
    RevolutPay,
}

/// The token of a wallet payment: Google Pay carries it as it is, Apple Pay
/// in Base64; no other wallet has one.
pub open spec fn wallet_token(wallet: WalletData) -> Result<Seq<char>, ConnectorErrorView> {
    match wallet {
        WalletData::GooglePay(data) => Ok(data.tokenization_data.token@),
        WalletData::ApplePay(data) => match base64_decoding_of(data.payment_data@) {
            Some(token) => Ok(token),
            None => Err(ConnectorErrorView::InvalidWalletToken { wallet_name: "Apple Pay"@ }),
        },
        _ => Err(ConnectorErrorView::InvalidWallet),
    }
}

/// The token of a wallet payment as JSON text, as `serde_json` writes it
/// after reading it; a token that is not JSON is refused under the name of
/// the wallet.
pub open spec fn wallet_token_json(wallet: WalletData, wallet_name: Seq<char>) -> Result<
    Seq<char>,
    ConnectorErrorView,
> {
    match wallet_token(wallet) {
        Ok(token) => match json_normal_form_of(token) {
            Some(json) => Ok(json),
            None => Err(ConnectorErrorView::InvalidWalletToken { wallet_name }),
        },
        Err(error) => Err(error),
    }
}

impl WalletData {
    /// The token of the wallet payment.
    pub fn get_wallet_token(&self) -> (r: Result<Secret, ConnectorError>)
        ensures
            match wallet_token(*self) {
                Ok(token) => r matches Ok(found) && found@ == token,
                Err(error) => r matches Err(e) && e@ == error,
            },
    {
        match self {
            WalletData::GooglePay(data) => Ok(Secret::new(data.tokenization_data.token.clone())),
            WalletData::ApplePay(data) => match base64_decode(data.payment_data.as_str()) {
                Some(token) => Ok(Secret::new(token)),
                None => Err(
                    ConnectorError::InvalidWalletToken { wallet_name: String::from_str("Apple Pay") },
                ),
            },
            _ => Err(ConnectorError::InvalidWallet),
        }
    }

    /// The token of the wallet payment as JSON text.
    pub fn get_wallet_token_as_json(&self, wallet_name: String) -> (r: Result<
        String,
        ConnectorError,
    >)
        ensures
            match wallet_token_json(*self, wallet_name@) {
                Ok(json) => r matches Ok(found) && found@ == json,
                Err(error) => r matches Err(e) && e@ == error,
            },
    {
        let token = self.get_wallet_token()?;
        match json_normal_form(token.peek().as_str()) {
            Some(json) => Ok(json),
            None => Err(ConnectorError::InvalidWalletToken { wallet_name }),
        }
    }
}

/// A payment by redirect to the customer's bank.
#[derive(PartialEq, Eq)]
pub enum BankRedirectData {
    BancontactCard,
    Bizum,
    Blik,
    Eps,
    Eft,
    Giropay { bank_account_bic: Option<Secret>, bank_account_iban: Option<Secret> },
    Ideal { bank_name: Option<BankNames> },
    Interac,
    OnlineBankingCzechRepublic,
    OnlineBankingFinland,
    OnlineBankingPoland,
    OnlineBankingSlovakia,
    OpenBankingUk,
    Przelewy24,
    Sofort,
    Trustly,
    OnlineBankingFpx,
    OnlineBankingThailand,
    LocalBankRedirect,
}

/// A payment that the customer settles later.
#[derive(Clone, Copy, Debug, PartialEq, Eq, Structural)]
pub enum PayLaterData {
    KlarnaRedirect,
    KlarnaSdk,
    AffirmRedirect,
    AfterpayClearpayRedirect,
    PayBrightRedirect,
    WalleyRedirect,
    AlmaRedirect,
    AtomeRedirect,
}

/// What the customer pays with.
#[derive(PartialEq, Eq)]
pub enum PaymentMethodData {
    Card(Card),
    CardDetailsForNetworkTransactionId,
    CardRedirect,
    Wallet(WalletData),
    PayLater(PayLaterData),
    BankRedirect(BankRedirectData),
    BankDebit,
    BankTransfer,
    Crypto,
    MandatePayment,
    Reward,
    RealTimePayment,
    Upi,
    Voucher,
    GiftCard,
    CardToken,
    OpenBanking,
    NetworkToken(NetworkTokenData),
    MobilePayment,
}

} // verus!
