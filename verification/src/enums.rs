//! The vocabulary that every connector and the orchestrator share: payment
//! and refund states, capture modes, HTTP methods, currencies, countries and
//! bank names.

use vstd::prelude::*;

verus! {

/// State of one payment attempt.
#[derive(Clone, Copy, Debug, PartialEq, Eq, Hash, Structural)]
pub enum AttemptStatus {
    Started,
    AuthenticationFailed,
    RouterDeclined,
    AuthenticationPending,
    AuthenticationSuccessful,
    Authorized,
    AuthorizationFailed,
    Charged,
    Authorizing,
    CodInitiated,
    Voided,
    VoidInitiated,
    CaptureInitiated,
    CaptureFailed,
    VoidFailed,
    AutoRefunded,
    PartialCharged,
    PartialChargedAndChargeable,
    Unresolved,
    Pending,
    Failure,
    PaymentMethodAwaited,
    ConfirmationAwaited,
    DeviceDataCollectionPending,
}

impl AttemptStatus {
    /// The states from which an attempt moves no further.
    pub open spec fn is_terminal(self) -> bool {
        self == AttemptStatus::Charged || self == AttemptStatus::Failure
            || self == AttemptStatus::AuthorizationFailed || self == AttemptStatus::CaptureFailed
            || self == AttemptStatus::Voided || self == AttemptStatus::VoidFailed
            || self == AttemptStatus::AuthenticationFailed
    }

    /// The states in which the attempt waits for the customer or the connector.
    pub open spec fn awaits_action(self) -> bool {
        self == AttemptStatus::AuthenticationPending || self == AttemptStatus::Pending
            || self == AttemptStatus::Authorizing || self == AttemptStatus::Started
    }

    /// The terminal states that stand for a successful payment.
    pub open spec fn is_terminal_success(self) -> bool {
        self == AttemptStatus::Charged || self == AttemptStatus::Authorized
            || self == AttemptStatus::PartialCharged
    }

    /// The states of the machine that all connectors share.
    pub open spec fn is_shared_state(self) -> bool {
        self == AttemptStatus::Started || self == AttemptStatus::AuthenticationPending || self
            == AttemptStatus::AuthenticationSuccessful || self
            == AttemptStatus::AuthenticationFailed || self == AttemptStatus::Authorizing || self
            == AttemptStatus::Authorized || self == AttemptStatus::AuthorizationFailed || self
            == AttemptStatus::Charged || self == AttemptStatus::CaptureFailed || self
            == AttemptStatus::Voided || self == AttemptStatus::VoidFailed || self
            == AttemptStatus::Pending || self == AttemptStatus::Failure
    }

    /// Tells whether the attempt has reached a terminal state.
    pub fn terminal(self) -> (r: bool)
        ensures
            r == self.is_terminal(),
    {
        match self {
            AttemptStatus::Charged
            | AttemptStatus::Failure
            | AttemptStatus::AuthorizationFailed
            | AttemptStatus::CaptureFailed
            | AttemptStatus::Voided
            | AttemptStatus::VoidFailed
            | AttemptStatus::AuthenticationFailed => true,
            _ => false,
        }
    }
}

/// The state of an attempt whose response may carry a redirect: a redirect
/// takes priority over a reported success, so that an attempt that the
/// connector calls charged or authorized while it sends the customer away
/// still waits for the customer.
pub open spec fn with_redirect_priority(status: AttemptStatus, has_redirect: bool) -> AttemptStatus {
    if has_redirect && status.is_terminal_success() {
        AttemptStatus::AuthenticationPending
    } else {
        status
    }
}

/// The state of an attempt whose response may carry a redirect.
pub fn apply_redirect_priority(status: AttemptStatus, has_redirect: bool) -> (r: AttemptStatus)
    ensures
        r == with_redirect_priority(status, has_redirect),
{
    if has_redirect {
        match status {
            AttemptStatus::Charged | AttemptStatus::Authorized | AttemptStatus::PartialCharged => {
                AttemptStatus::AuthenticationPending
            },
            _ => status,
        }
    } else {
        status
    }
}

/// With a redirect in the response, the attempt never ends in success,
/// whatever the connector reported: a reported success becomes a wait for
/// the customer, and every other state is kept.
pub proof fn lemma_redirect_priority(status: AttemptStatus)
    ensures
        !with_redirect_priority(status, true).is_terminal_success(),
        status.is_terminal_success() ==> with_redirect_priority(status, true).awaits_action(),
        !status.is_terminal_success() ==> with_redirect_priority(status, true) == status,
        with_redirect_priority(status, false) == status,
{
}

/// State of one refund.
#[derive(Clone, Copy, Debug, PartialEq, Eq, Hash, Structural)]
pub enum RefundStatus {
    Failure,
    ManualReview,
    Pending,
    Success,
    TransactionFailure,
}

impl RefundStatus {
    /// The refund states that report a failed refund.
    pub open spec fn is_failure(self) -> bool {
        self == RefundStatus::Failure || self == RefundStatus::TransactionFailure
    }

    /// The states from which a refund moves no further.
    pub open spec fn is_terminal(self) -> bool {
        self == RefundStatus::Success || self.is_failure()
    }

    /// The states of the refund machine that all connectors share.
    pub open spec fn is_shared_state(self) -> bool {
        self == RefundStatus::Success || self == RefundStatus::Failure || self
            == RefundStatus::Pending
    }
}

/// Tells whether a refund state reports a failed refund.
pub fn is_refund_failure(status: RefundStatus) -> (r: bool)
    ensures
        r == status.is_failure(),
{
    match status {
        RefundStatus::Failure | RefundStatus::TransactionFailure => true,
        RefundStatus::ManualReview | RefundStatus::Pending | RefundStatus::Success => false,
    }
}

/// When the funds of an authorized payment are captured.
#[derive(Clone, Copy, Debug, PartialEq, Eq, Hash, Structural)]
pub enum CaptureMethod {
    Automatic,
    Manual,
    ManualMultiple,
    Scheduled,
    SequentialAutomatic,
}

/// HTTP method of a request or of a redirect form.
#[derive(Clone, Copy, Debug, PartialEq, Eq, Hash, Structural)]
pub enum Method {
    Get,
    Post,
    Put,
    Delete,
    Patch,
}

/// Family of a payment method.
#[derive(Clone, Copy, Debug, PartialEq, Eq, Hash, Structural)]
pub enum PaymentMethod {
    Card,
    CardRedirect,
    PayLater,
    Wallet,
    BankRedirect,
    BankTransfer,
    Crypto,
    BankDebit,
    Reward,
    RealTimePayment,
    Upi,
    Voucher,
    GiftCard,
    OpenBanking,
    MobilePayment,
}

/// State of a stored mandate.
#[derive(Clone, Copy, Debug, PartialEq, Eq, Hash, Structural)]
pub enum MandateStatus {
    Active,
    Inactive,
    Pending,
    Revoked,
}

/// Whether the payment method may be used again later.
#[derive(Clone, Copy, Debug, PartialEq, Eq, Hash, Structural)]
pub enum FutureUsage {
    OffSession,
    OnSession,
}

/// ISO 4217 currency.
#[derive(Clone, Copy, Debug, PartialEq, Eq, Hash, Structural)]
pub enum Currency {
    AED,
    AFN,
    ALL,
    AMD,
    ANG,
    AOA,
    ARS,
    AUD,
    AWG,
    AZN,
    BAM,
    BBD,
    BDT,
    BGN,
    BHD,
    BIF,
    BMD,
    BND,
    BOB,
    BRL,
    BSD,
    BTN,
    BWP,
    BYN,
    BZD,
    CAD,
    CDF,
    CHF,
    CLF,
    CLP,
    CNY,
    COP,
    CRC,
    CUC,
    CUP,
    CVE,
    CZK,
    DJF,
    DKK,
    DOP,
    DZD,
    EGP,
    ERN,
    ETB,
    EUR,
    FJD,
    FKP,
    GBP,
    GEL,
    GHS,
    GIP,
    GMD,
    GNF,
    GTQ,
    GYD,
    HKD,
    HNL,
    HRK,
    HTG,
    HUF,
    IDR,
    ILS,
    INR,
    IQD,
    IRR,
    ISK,
    JMD,
    JOD,
    JPY,
    KES,
    KGS,
    KHR,
    KMF,
    KPW,
    KRW,
    KWD,
    KYD,
    KZT,
    LAK,
    LBP,
    LKR,
    LRD,
    LSL,
    LYD,
    MAD,
    MDL,
    MGA,
    MKD,
    MMK,
    MNT,
    MOP,
    MRU,
    MUR,
    MVR,
    MWK,
    MXN,
    MYR,
    MZN,
    NAD,
    NGN,
    NIO,
    NOK,
    NPR,
    NZD,
    OMR,
    PAB,
    PEN,
    PGK,
    PHP,
    PKR,
    PLN,
    PYG,
    QAR,
    RON,
    RSD,
    RUB,
    RWF,
    SAR,
    SBD,
    SCR,
    SDG,
    SEK,
    SGD,
    SHP,
    SLE,
    SLL,
    SOS,
    SRD,
    SSP,
    STD,
    STN,
    SVC,
    SYP,
    SZL,
    THB,
    TJS,
    TMT,
    TND,
    TOP,
    TRY,
    TTD,
    TWD,
    TZS,
    UAH,
    UGX,
    USD,
    UYU,
    UZS,
    VES,
    VND,
    VUV,
    WST,
    XAF,
    XCD,
    XOF,
    XPF,
    YER,
    ZAR,
    ZMW,
    ZWL,
}

impl Currency {
    /// The three-letter ISO 4217 code.
    pub open spec fn code_spec(self) -> Seq<char> {
        match self {
            Currency::AED => "AED"@,
            Currency::AFN => "AFN"@,
            Currency::ALL => "ALL"@,
            Currency::AMD => "AMD"@,
            Currency::ANG => "ANG"@,
            Currency::AOA => "AOA"@,
            Currency::ARS => "ARS"@,
            Currency::AUD => "AUD"@,
            Currency::AWG => "AWG"@,
            Currency::AZN => "AZN"@,
            Currency::BAM => "BAM"@,
            Currency::BBD => "BBD"@,
            Currency::BDT => "BDT"@,
            Currency::BGN => "BGN"@,
            Currency::BHD => "BHD"@,
            Currency::BIF => "BIF"@,
            Currency::BMD => "BMD"@,
            Currency::BND => "BND"@,
            Currency::BOB => "BOB"@,
            Currency::BRL => "BRL"@,
            Currency::BSD => "BSD"@,
            Currency::BTN => "BTN"@,
            Currency::BWP => "BWP"@,
            Currency::BYN => "BYN"@,
            Currency::BZD => "BZD"@,
            Currency::CAD => "CAD"@,
            Currency::CDF => "CDF"@,
            Currency::CHF => "CHF"@,
            Currency::CLF => "CLF"@,
            Currency::CLP => "CLP"@,
            Currency::CNY => "CNY"@,
            Currency::COP => "COP"@,
            Currency::CRC => "CRC"@,
            Currency::CUC => "CUC"@,
            Currency::CUP => "CUP"@,
            Currency::CVE => "CVE"@,
            Currency::CZK => "CZK"@,
            Currency::DJF => "DJF"@,
            Currency::DKK => "DKK"@,
            Currency::DOP => "DOP"@,
            Currency::DZD => "DZD"@,
            Currency::EGP => "EGP"@,
            Currency::ERN => "ERN"@,
            Currency::ETB => "ETB"@,
            Currency::EUR => "EUR"@,
            Currency::FJD => "FJD"@,
            Currency::FKP => "FKP"@,
            Currency::GBP => "GBP"@,
            Currency::GEL => "GEL"@,
            Currency::GHS => "GHS"@,
            Currency::GIP => "GIP"@,
            Currency::GMD => "GMD"@,
            Currency::GNF => "GNF"@,
            Currency::GTQ => "GTQ"@,
            Currency::GYD => "GYD"@,
            Currency::HKD => "HKD"@,
            Currency::HNL => "HNL"@,
            Currency::HRK => "HRK"@,
            Currency::HTG => "HTG"@,
            Currency::HUF => "HUF"@,
            Currency::IDR => "IDR"@,
            Currency::ILS => "ILS"@,
            Currency::INR => "INR"@,
            Currency::IQD => "IQD"@,
            Currency::IRR => "IRR"@,
            Currency::ISK => "ISK"@,
            Currency::JMD => "JMD"@,
            Currency::JOD => "JOD"@,
            Currency::JPY => "JPY"@,
            Currency::KES => "KES"@,
            Currency::KGS => "KGS"@,
            Currency::KHR => "KHR"@,
            Currency::KMF => "KMF"@,
            Currency::KPW => "KPW"@,
            Currency::KRW => "KRW"@,
            Currency::KWD => "KWD"@,
            Currency::KYD => "KYD"@,
            Currency::KZT => "KZT"@,
            Currency::LAK => "LAK"@,
            Currency::LBP => "LBP"@,
            Currency::LKR => "LKR"@,
            Currency::LRD => "LRD"@,
            Currency::LSL => "LSL"@,
            Currency::LYD => "LYD"@,
            Currency::MAD => "MAD"@,
            Currency::MDL => "MDL"@,
            Currency::MGA => "MGA"@,
            Currency::MKD => "MKD"@,
            Currency::MMK => "MMK"@,
            Currency::MNT => "MNT"@,
            Currency::MOP => "MOP"@,
            Currency::MRU => "MRU"@,
            Currency::MUR => "MUR"@,
            Currency::MVR => "MVR"@,
            Currency::MWK => "MWK"@,
            Currency::MXN => "MXN"@,
            Currency::MYR => "MYR"@,
            Currency::MZN => "MZN"@,
            Currency::NAD => "NAD"@,
            Currency::NGN => "NGN"@,
            Currency::NIO => "NIO"@,
            Currency::NOK => "NOK"@,
            Currency::NPR => "NPR"@,
            Currency::NZD => "NZD"@,
            Currency::OMR => "OMR"@,
            Currency::PAB => "PAB"@,
            Currency::PEN => "PEN"@,
            Currency::PGK => "PGK"@,
            Currency::PHP => "PHP"@,
            Currency::PKR => "PKR"@,
            Currency::PLN => "PLN"@,
            Currency::PYG => "PYG"@,
            Currency::QAR => "QAR"@,
            Currency::RON => "RON"@,
            Currency::RSD => "RSD"@,
            Currency::RUB => "RUB"@,
            Currency::RWF => "RWF"@,
            Currency::SAR => "SAR"@,
            Currency::SBD => "SBD"@,
            Currency::SCR => "SCR"@,
            Currency::SDG => "SDG"@,
            Currency::SEK => "SEK"@,
            Currency::SGD => "SGD"@,
            Currency::SHP => "SHP"@,
            Currency::SLE => "SLE"@,
            Currency::SLL => "SLL"@,
            Currency::SOS => "SOS"@,
            Currency::SRD => "SRD"@,
            Currency::SSP => "SSP"@,
            Currency::STD => "STD"@,
            Currency::STN => "STN"@,
            Currency::SVC => "SVC"@,
            Currency::SYP => "SYP"@,
            Currency::SZL => "SZL"@,
            Currency::THB => "THB"@,
            Currency::TJS => "TJS"@,
            Currency::TMT => "TMT"@,
            Currency::TND => "TND"@,
            Currency::TOP => "TOP"@,
            Currency::TRY => "TRY"@,
            Currency::TTD => "TTD"@,
            Currency::TWD => "TWD"@,
            Currency::TZS => "TZS"@,
            Currency::UAH => "UAH"@,
            Currency::UGX => "UGX"@,
            Currency::USD => "USD"@,
            Currency::UYU => "UYU"@,
            Currency::UZS => "UZS"@,
            Currency::VES => "VES"@,
            Currency::VND => "VND"@,
            Currency::VUV => "VUV"@,
            Currency::WST => "WST"@,
            Currency::XAF => "XAF"@,
            Currency::XCD => "XCD"@,
            Currency::XOF => "XOF"@,
            Currency::XPF => "XPF"@,
            Currency::YER => "YER"@,
            Currency::ZAR => "ZAR"@,
            Currency::ZMW => "ZMW"@,
            Currency::ZWL => "ZWL"@,
        }
    }

    /// Number of decimal digits of the minor unit.
    pub open spec fn exponent_spec(self) -> nat {
        match self {
            Currency::BIF
            | Currency::CLP
            | Currency::DJF
            | Currency::GNF
            | Currency::IRR
            | Currency::JPY
            | Currency::KMF
            | Currency::KRW
            | Currency::MGA
            | Currency::PYG
            | Currency::RWF
            | Currency::UGX
            | Currency::VND
            | Currency::VUV
            | Currency::XAF
            | Currency::XOF
            | Currency::XPF => 0,
            Currency::BHD
            | Currency::IQD
            | Currency::JOD
            | Currency::KWD
            | Currency::LYD
            | Currency::OMR
            | Currency::TND => 3,
            Currency::CLF => 4,
            _ => 2,
        }
    }

    /// The three-letter ISO 4217 code.
    pub fn code(self) -> (r: &'static str)
        ensures
            r@ == self.code_spec(),
    {
        match self {
            Currency::AED => "AED",
            Currency::AFN => "AFN",
            Currency::ALL => "ALL",
            Currency::AMD => "AMD",
            Currency::ANG => "ANG",
            Currency::AOA => "AOA",
            Currency::ARS => "ARS",
            Currency::AUD => "AUD",
            Currency::AWG => "AWG",
            Currency::AZN => "AZN",
            Currency::BAM => "BAM",
            Currency::BBD => "BBD",
            Currency::BDT => "BDT",
            Currency::BGN => "BGN",
            Currency::BHD => "BHD",
            Currency::BIF => "BIF",
            Currency::BMD => "BMD",
            Currency::BND => "BND",
            Currency::BOB => "BOB",
            Currency::BRL => "BRL",
            Currency::BSD => "BSD",
            Currency::BTN => "BTN",
            Currency::BWP => "BWP",
            Currency::BYN => "BYN",
            Currency::BZD => "BZD",
            Currency::CAD => "CAD",
            Currency::CDF => "CDF",
            Currency::CHF => "CHF",
            Currency::CLF => "CLF",
            Currency::CLP => "CLP",
            Currency::CNY => "CNY",
            Currency::COP => "COP",
            Currency::CRC => "CRC",
            Currency::CUC => "CUC",
            Currency::CUP => "CUP",
            Currency::CVE => "CVE",
            Currency::CZK => "CZK",
            Currency::DJF => "DJF",
            Currency::DKK => "DKK",
            Currency::DOP => "DOP",
            Currency::DZD => "DZD",
            Currency::EGP => "EGP",
            Currency::ERN => "ERN",
            Currency::ETB => "ETB",
            Currency::EUR => "EUR",
            Currency::FJD => "FJD",
            Currency::FKP => "FKP",
            Currency::GBP => "GBP",
            Currency::GEL => "GEL",
            Currency::GHS => "GHS",
            Currency::GIP => "GIP",
            Currency::GMD => "GMD",
            Currency::GNF => "GNF",
            Currency::GTQ => "GTQ",
            Currency::GYD => "GYD",
            Currency::HKD => "HKD",
            Currency::HNL => "HNL",
            Currency::HRK => "HRK",
            Currency::HTG => "HTG",
            Currency::HUF => "HUF",
            Currency::IDR => "IDR",
            Currency::ILS => "ILS",
            Currency::INR => "INR",
            Currency::IQD => "IQD",
            Currency::IRR => "IRR",
            Currency::ISK => "ISK",
            Currency::JMD => "JMD",
            Currency::JOD => "JOD",
            Currency::JPY => "JPY",
            Currency::KES => "KES",
            Currency::KGS => "KGS",
            Currency::KHR => "KHR",
            Currency::KMF => "KMF",
            Currency::KPW => "KPW",
            Currency::KRW => "KRW",
            Currency::KWD => "KWD",
            Currency::KYD => "KYD",
            Currency::KZT => "KZT",
            Currency::LAK => "LAK",
            Currency::LBP => "LBP",
            Currency::LKR => "LKR",
            Currency::LRD => "LRD",
            Currency::LSL => "LSL",
            Currency::LYD => "LYD",
            Currency::MAD => "MAD",
            Currency::MDL => "MDL",
            Currency::MGA => "MGA",
            Currency::MKD => "MKD",
            Currency::MMK => "MMK",
            Currency::MNT => "MNT",
            Currency::MOP => "MOP",
            Currency::MRU => "MRU",
            Currency::MUR => "MUR",
            Currency::MVR => "MVR",
            Currency::MWK => "MWK",
            Currency::MXN => "MXN",
            Currency::MYR => "MYR",
            Currency::MZN => "MZN",
            Currency::NAD => "NAD",
            Currency::NGN => "NGN",
            Currency::NIO => "NIO",
            Currency::NOK => "NOK",
            Currency::NPR => "NPR",
            Currency::NZD => "NZD",
            Currency::OMR => "OMR",
            Currency::PAB => "PAB",
            Currency::PEN => "PEN",
            Currency::PGK => "PGK",
            Currency::PHP => "PHP",
            Currency::PKR => "PKR",
            Currency::PLN => "PLN",
            Currency::PYG => "PYG",
            Currency::QAR => "QAR",
            Currency::RON => "RON",
            Currency::RSD => "RSD",
            Currency::RUB => "RUB",
            Currency::RWF => "RWF",
            Currency::SAR => "SAR",
            Currency::SBD => "SBD",
            Currency::SCR => "SCR",
            Currency::SDG => "SDG",
            Currency::SEK => "SEK",
            Currency::SGD => "SGD",
            Currency::SHP => "SHP",
            Currency::SLE => "SLE",
            Currency::SLL => "SLL",
            Currency::SOS => "SOS",
            Currency::SRD => "SRD",
            Currency::SSP => "SSP",
            Currency::STD => "STD",
            Currency::STN => "STN",
            Currency::SVC => "SVC",
            Currency::SYP => "SYP",
            Currency::SZL => "SZL",
            Currency::THB => "THB",
            Currency::TJS => "TJS",
            Currency::TMT => "TMT",
            Currency::TND => "TND",
            Currency::TOP => "TOP",
            Currency::TRY => "TRY",
            Currency::TTD => "TTD",
            Currency::TWD => "TWD",
            Currency::TZS => "TZS",
            Currency::UAH => "UAH",
            Currency::UGX => "UGX",
            Currency::USD => "USD",
            Currency::UYU => "UYU",
            Currency::UZS => "UZS",
            Currency::VES => "VES",
            Currency::VND => "VND",
            Currency::VUV => "VUV",
            Currency::WST => "WST",
            Currency::XAF => "XAF",
            Currency::XCD => "XCD",
            Currency::XOF => "XOF",
            Currency::XPF => "XPF",
            Currency::YER => "YER",
            Currency::ZAR => "ZAR",
            Currency::ZMW => "ZMW",
            Currency::ZWL => "ZWL",
        }
    }

    /// The code as an owned string.
    pub fn to_string(self) -> (r: String)
        ensures
            r@ == self.code_spec(),
    {
        String::from_str(self.code())
    }

    /// Whether the currency has no minor unit.
    pub fn is_zero_decimal_currency(self) -> (r: bool)
        ensures
            r == (self.exponent_spec() == 0),
    {
        match self {
            Currency::BIF
            | Currency::CLP
            | Currency::DJF
            | Currency::GNF
            | Currency::IRR
            | Currency::JPY
            | Currency::KMF
            | Currency::KRW
            | Currency::MGA
            | Currency::PYG
            | Currency::RWF
            | Currency::UGX
            | Currency::VND
            | Currency::VUV
            | Currency::XAF
            | Currency::XOF
            | Currency::XPF => true,
            _ => false,
        }
    }

    /// Whether the minor unit is a thousandth of the major unit.
    pub fn is_three_decimal_currency(self) -> (r: bool)
        ensures
            r == (self.exponent_spec() == 3),
    {
        match self {
            Currency::BHD
            | Currency::IQD
            | Currency::JOD
            | Currency::KWD
            | Currency::LYD
            | Currency::OMR
            | Currency::TND => true,
            _ => false,
        }
    }

    /// Whether the minor unit is a ten-thousandth of the major unit.
    pub fn is_four_decimal_currency(self) -> (r: bool)
        ensures
            r == (self.exponent_spec() == 4),
    {
        match self {
            Currency::CLF => true,
            _ => false,
        }
    }

    /// Number of decimal digits of the minor unit.
    pub fn exponent(self) -> (r: u8)
        ensures
            r == self.exponent_spec(),
            r <= 4,
    {
        if self.is_zero_decimal_currency() {
            0
        } else if self.is_three_decimal_currency() {
            3
        } else if self.is_four_decimal_currency() {
            4
        } else {
            2
        }
    }
}

/// Name of a bank that a bank redirect can be routed to.
#[derive(Clone, Copy, Debug, PartialEq, Eq, Hash, Structural)]
pub enum BankNames {
    AmericanExpress,
    AffinBank,
    AgroBank,
    AllianceBank,
    AmBank,
    BankOfAmerica,
    BankOfChina,
    BankIslam,
    BankMuamalat,
    BankRakyat,
    BankSimpananNasional,
    Barclays,
    BlikPSP,
    CapitalOne,
    Chase,
    Citi,
    CimbBank,
    Discover,
    NavyFederalCreditUnion,
    PentagonFederalCreditUnion,
    SynchronyBank,
    WellsFargo,
    AbnAmro,
    AsnBank,
    Bunq,
    Handelsbanken,
    HongLeongBank,
    HsbcBank,
    Ing,
    Knab,
    KuwaitFinanceHouse,
    Moneyou,
    Rabobank,
    Regiobank,
    Revolut,
    SnsBank,
    TriodosBank,
    VanLanschot,
    ArzteUndApothekerBank,
    AustrianAnadiBankAg,
    BankAustria,
    Bank99Ag,
    BankhausCarlSpangler,
    BankhausSchelhammerUndSchatteraAg,
    BankMillennium,
    BawagPskAg,
    BksBankAg,
    BrullKallmusBankAg,
    BtvVierLanderBank,
    Maybank,
    OcbcBank,
    PublicBank,
    RhbBank,
    StandardCharteredBank,
    UobBank,
    ErsteBankUndSparkassen,
    HypoTirolBankAg,
    Oberbank,
    RaiffeisenBankengruppeOsterreich,
    Santander,
    Volksbank,
    Sparkasse,
}

impl BankNames {
    /// The bank's name in lower case, its words joined by underscores.
    pub open spec fn name_spec(self) -> Seq<char> {
        match self {
            BankNames::AmericanExpress => "american_express"@,
            BankNames::AffinBank => "affin_bank"@,
            BankNames::AgroBank => "agro_bank"@,
            BankNames::AllianceBank => "alliance_bank"@,
            BankNames::AmBank => "am_bank"@,
            BankNames::BankOfAmerica => "bank_of_america"@,
            BankNames::BankOfChina => "bank_of_china"@,
            BankNames::BankIslam => "bank_islam"@,
            BankNames::BankMuamalat => "bank_muamalat"@,
            BankNames::BankRakyat => "bank_rakyat"@,
            BankNames::BankSimpananNasional => "bank_simpanan_nasional"@,
            BankNames::Barclays => "barclays"@,
            BankNames::BlikPSP => "blik_p_s_p"@,
            BankNames::CapitalOne => "capital_one"@,
            BankNames::Chase => "chase"@,
            BankNames::Citi => "citi"@,
            BankNames::CimbBank => "cimb_bank"@,
            BankNames::Discover => "discover"@,
            BankNames::NavyFederalCreditUnion => "navy_federal_credit_union"@,
            BankNames::PentagonFederalCreditUnion => "pentagon_federal_credit_union"@,
            BankNames::SynchronyBank => "synchrony_bank"@,
            BankNames::WellsFargo => "wells_fargo"@,
            BankNames::AbnAmro => "abn_amro"@,
            BankNames::AsnBank => "asn_bank"@,
            BankNames::Bunq => "bunq"@,
            BankNames::Handelsbanken => "handelsbanken"@,
            BankNames::HongLeongBank => "hong_leong_bank"@,
            BankNames::HsbcBank => "hsbc_bank"@,
            BankNames::Ing => "ing"@,
            BankNames::Knab => "knab"@,
            BankNames::KuwaitFinanceHouse => "kuwait_finance_house"@,
            BankNames::Moneyou => "moneyou"@,
            BankNames::Rabobank => "rabobank"@,
            BankNames::Regiobank => "regiobank"@,
            BankNames::Revolut => "revolut"@,
            BankNames::SnsBank => "sns_bank"@,
            BankNames::TriodosBank => "triodos_bank"@,
            BankNames::VanLanschot => "van_lanschot"@,
            BankNames::ArzteUndApothekerBank => "arzte_und_apotheker_bank"@,
            BankNames::AustrianAnadiBankAg => "austrian_anadi_bank_ag"@,
            BankNames::BankAustria => "bank_austria"@,
            BankNames::Bank99Ag => "bank99_ag"@,
            BankNames::BankhausCarlSpangler => "bankhaus_carl_spangler"@,
            BankNames::BankhausSchelhammerUndSchatteraAg => "bankhaus_schelhammer_und_schattera_ag"@,
            BankNames::BankMillennium => "bank_millennium"@,
            BankNames::BawagPskAg => "bawag_psk_ag"@,
            BankNames::BksBankAg => "bks_bank_ag"@,
            BankNames::BrullKallmusBankAg => "brull_kallmus_bank_ag"@,
            BankNames::BtvVierLanderBank => "btv_vier_lander_bank"@,
            BankNames::Maybank => "maybank"@,
            BankNames::OcbcBank => "ocbc_bank"@,
            BankNames::PublicBank => "public_bank"@,
            BankNames::RhbBank => "rhb_bank"@,
            BankNames::StandardCharteredBank => "standard_chartered_bank"@,
            BankNames::UobBank => "uob_bank"@,
            BankNames::ErsteBankUndSparkassen => "erste_bank_und_sparkassen"@,
            BankNames::HypoTirolBankAg => "hypo_tirol_bank_ag"@,
            BankNames::Oberbank => "oberbank"@,
            BankNames::RaiffeisenBankengruppeOsterreich => "raiffeisen_bankengruppe_osterreich"@,
            BankNames::Santander => "santander"@,
            BankNames::Volksbank => "volksbank"@,
            BankNames::Sparkasse => "sparkasse"@,
        }
    }

    /// The bank's name in lower case, its words joined by underscores.
    pub fn name(self) -> (r: &'static str)
        ensures
            r@ == self.name_spec(),
    {
        match self {
            BankNames::AmericanExpress => "american_express",
            BankNames::AffinBank => "affin_bank",
            BankNames::AgroBank => "agro_bank",
            BankNames::AllianceBank => "alliance_bank",
            BankNames::AmBank => "am_bank",
            BankNames::BankOfAmerica => "bank_of_america",
            BankNames::BankOfChina => "bank_of_china",
            BankNames::BankIslam => "bank_islam",
            BankNames::BankMuamalat => "bank_muamalat",
            BankNames::BankRakyat => "bank_rakyat",
            BankNames::BankSimpananNasional => "bank_simpanan_nasional",
            BankNames::Barclays => "barclays",
            BankNames::BlikPSP => "blik_p_s_p",
            BankNames::CapitalOne => "capital_one",
            BankNames::Chase => "chase",
            BankNames::Citi => "citi",
            BankNames::CimbBank => "cimb_bank",
            BankNames::Discover => "discover",
            BankNames::NavyFederalCreditUnion => "navy_federal_credit_union",
            BankNames::PentagonFederalCreditUnion => "pentagon_federal_credit_union",
            BankNames::SynchronyBank => "synchrony_bank",
            BankNames::WellsFargo => "wells_fargo",
            BankNames::AbnAmro => "abn_amro",
            BankNames::AsnBank => "asn_bank",
            BankNames::Bunq => "bunq",
            BankNames::Handelsbanken => "handelsbanken",
            BankNames::HongLeongBank => "hong_leong_bank",
            BankNames::HsbcBank => "hsbc_bank",
            BankNames::Ing => "ing",
            BankNames::Knab => "knab",
            BankNames::KuwaitFinanceHouse => "kuwait_finance_house",
            BankNames::Moneyou => "moneyou",
            BankNames::Rabobank => "rabobank",
            BankNames::Regiobank => "regiobank",
            BankNames::Revolut => "revolut",
            BankNames::SnsBank => "sns_bank",
            BankNames::TriodosBank => "triodos_bank",
            BankNames::VanLanschot => "van_lanschot",
            BankNames::ArzteUndApothekerBank => "arzte_und_apotheker_bank",
            BankNames::AustrianAnadiBankAg => "austrian_anadi_bank_ag",
            BankNames::BankAustria => "bank_austria",
            BankNames::Bank99Ag => "bank99_ag",
            BankNames::BankhausCarlSpangler => "bankhaus_carl_spangler",
            BankNames::BankhausSchelhammerUndSchatteraAg => "bankhaus_schelhammer_und_schattera_ag",
            BankNames::BankMillennium => "bank_millennium",
            BankNames::BawagPskAg => "bawag_psk_ag",
            BankNames::BksBankAg => "bks_bank_ag",
            BankNames::BrullKallmusBankAg => "brull_kallmus_bank_ag",
            BankNames::BtvVierLanderBank => "btv_vier_lander_bank",
            BankNames::Maybank => "maybank",
            BankNames::OcbcBank => "ocbc_bank",
            BankNames::PublicBank => "public_bank",
            BankNames::RhbBank => "rhb_bank",
            BankNames::StandardCharteredBank => "standard_chartered_bank",
            BankNames::UobBank => "uob_bank",
            BankNames::ErsteBankUndSparkassen => "erste_bank_und_sparkassen",
            BankNames::HypoTirolBankAg => "hypo_tirol_bank_ag",
            BankNames::Oberbank => "oberbank",
            BankNames::RaiffeisenBankengruppeOsterreich => "raiffeisen_bankengruppe_osterreich",
            BankNames::Santander => "santander",
            BankNames::Volksbank => "volksbank",
            BankNames::Sparkasse => "sparkasse",
        }
    }

    /// The name as an owned string.
    pub fn to_string(self) -> (r: String)
        ensures
            r@ == self.name_spec(),
    {
        String::from_str(self.name())
    }
}

/// Whether `c` is an upper-case ASCII letter.
pub open spec fn is_upper_ascii(c: char) -> bool {
    'A' <= c && c <= 'Z'
}

/// ISO 3166-1 alpha-2 country code: two upper-case ASCII letters.
#[derive(Clone, Copy, Debug, PartialEq, Eq, Hash, Structural)]
pub struct CountryAlpha2 {
    first: char,
    second: char,
}

impl CountryAlpha2 {
    /// The two letters of the code.
    pub closed spec fn view(&self) -> Seq<char> {
        seq![self.first, self.second]
    }

    /// Both characters are upper-case ASCII letters.
    pub closed spec fn well_formed(&self) -> bool {
        is_upper_ascii(self.first) && is_upper_ascii(self.second)
    }

    /// The code made of the two letters, when both are upper-case ASCII letters.
    pub fn new(first: char, second: char) -> (r: Option<Self>)
        ensures
            r is Some <==> is_upper_ascii(first) && is_upper_ascii(second),
            r matches Some(c) ==> c@ == seq![first, second] && c.well_formed(),
    {
        if 'A' <= first && first <= 'Z' && 'A' <= second && second <= 'Z' {
            Some(CountryAlpha2 { first, second })
        } else {
            None
        }
    }

    /// The code that `s` spells, when `s` is two upper-case ASCII letters.
    pub fn parse(s: &str) -> (r: Option<Self>)
        ensures
            r is Some <==> s@.len() == 2 && is_upper_ascii(s@[0]) && is_upper_ascii(s@[1]),
            r matches Some(c) ==> c@ == s@ && c.well_formed(),
    {
        if s.unicode_len() != 2 {
            return None;
        }
        let r = Self::new(s.get_char(0), s.get_char(1));
        proof {
            if r is Some {
                assert(r->0@ =~= s@);
            }
        }
        r
    }

    /// The code as an owned string.
    pub fn to_string(&self) -> (r: String)
        ensures
            r@ == self@,
    {
        let mut s = String::new();
        s.push(self.first);
        s.push(self.second);
        proof {
            assert(s@ =~= self@);
        }
        s
    }
}

} // verus!
